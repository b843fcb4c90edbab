# loading_system

Control library of a rotating bottle disc driven by a CSD7 servo through a
Delta DVP-28SS2 PLC over Modbus RTU.

- `src/` is the library, verified with Verus: the 17-bit encoder reader with
  multi-turn tracking (`encoder`), backlash compensation on reversal
  (`backlash`), the integer side of S-curve motion profiles (`motion`), the
  PLC register map and 32-bit word encoding (`registers`), the pulse counts
  of disc moves (`disc`), the PLC command and wait decisions (`plc`) and the
  servo drive state machine (`servo`).
- `app/` is the interactive test program and the floating-point models
  (smoothstep curve, small-angle compensation, backlash learning, angle
  conversions) together with the bus, timer and console work.
- `tests/` runs the library on concrete values.
