//! Reader for the 17-bit absolute single-turn serial encoder of the CSD7
//! servo drive, with multi-turn tracking by wrap-around detection.

use vstd::prelude::*;

verus! {

/// Resolution of the 17-bit encoder: 2^17 counts per revolution (360 degrees).
pub const ENCODER_17BIT_RESOLUTION: u32 = 131_072;

/// Largest valid raw count of one revolution.
pub const ENCODER_17BIT_MAX_RAW: u32 = ENCODER_17BIT_RESOLUTION - 1;

/// Half a revolution: a jump between two readings larger than this is taken
/// to be a passage through zero.
pub const WRAP_THRESHOLD: u32 = ENCODER_17BIT_RESOLUTION / 2;

/// The character of a decimal digit `d` (0 to 9).
pub open spec fn digit_char(d: nat) -> char {
    if d == 0 {
        '0'
    } else if d == 1 {
        '1'
    } else if d == 2 {
        '2'
    } else if d == 3 {
        '3'
    } else if d == 4 {
        '4'
    } else if d == 5 {
        '5'
    } else if d == 6 {
        '6'
    } else if d == 7 {
        '7'
    } else if d == 8 {
        '8'
    } else {
        '9'
    }
}

/// Decimal rendering of `n`, without leading zeros ("0" for zero).
pub open spec fn decimal(n: nat) -> Seq<char>
    decreases n,
{
    if n < 10 {
        seq![digit_char(n)]
    } else {
        decimal(n / 10).push(digit_char(n % 10))
    }
}

/// The text of the error that `update_position` reports for a reading
/// `raw_value` above the largest valid count `max_raw`.
pub open spec fn encoder_range_message(raw_value: u32, max_raw: u32) -> Seq<char> {
    "Encoder raw value "@ + decimal(raw_value as nat) + " exceeds 17-bit range [0, "@ + decimal(
        max_raw as nat,
    ) + "]"@
}

/// The one-character string of a decimal digit.
fn digit_str(d: u32) -> (s: &'static str)
    requires
        d < 10,
    ensures
        s@ == seq![digit_char(d as nat)],
{
    proof {
        reveal_strlit("0");
        reveal_strlit("1");
        reveal_strlit("2");
        reveal_strlit("3");
        reveal_strlit("4");
        reveal_strlit("5");
        reveal_strlit("6");
        reveal_strlit("7");
        reveal_strlit("8");
        reveal_strlit("9");
    }
    if d == 0 {
        "0"
    } else if d == 1 {
        "1"
    } else if d == 2 {
        "2"
    } else if d == 3 {
        "3"
    } else if d == 4 {
        "4"
    } else if d == 5 {
        "5"
    } else if d == 6 {
        "6"
    } else if d == 7 {
        "7"
    } else if d == 8 {
        "8"
    } else {
        "9"
    }
}

/// Appends the decimal rendering of `n` to `out`.
fn push_decimal(out: &mut String, n: u32)
    ensures
        final(out)@ == old(out)@ + decimal(n as nat),
    decreases n,
{
    if n >= 10 {
        push_decimal(out, n / 10);
    }
    out.append(digit_str(n % 10));
    assert(old(out)@ + decimal(n as nat) =~= if n >= 10 {
        old(out)@ + decimal((n / 10) as nat) + seq![digit_char((n % 10) as nat)]
    } else {
        old(out)@ + seq![digit_char((n % 10) as nat)]
    });
}

/// The out-of-range error message.
fn range_error_message(raw_value: u32, max_raw: u32) -> (s: String)
    ensures
        s@ == encoder_range_message(raw_value, max_raw),
{
    let mut s = String::new();
    s.append("Encoder raw value ");
    push_decimal(&mut s, raw_value);
    s.append(" exceeds 17-bit range [0, ");
    push_decimal(&mut s, max_raw);
    s.append("]");
    assert(s@ =~= encoder_range_message(raw_value, max_raw));
    s
}

/// Abstract state of an encoder reader.
pub struct EncoderState {
    /// Current count within one revolution.
    pub raw: u32,
    /// Accumulated revolutions (positive = clockwise, negative = counter-clockwise).
    pub turns: i32,
    /// Count of the reading before the current one.
    pub previous: u32,
    /// Whether a first reading has been taken.
    pub initialized: bool,
}

/// Change of the turn counter that a new reading `raw_value` causes, given
/// the current count `current` (no change before the first reading).
pub open spec fn turn_step(initialized: bool, current: u32, raw_value: u32) -> int {
    if !initialized {
        0
    } else if raw_value - current > WRAP_THRESHOLD {
        -1
    } else if raw_value - current < -(WRAP_THRESHOLD as int) {
        1
    } else {
        0
    }
}

/// The state after an accepted reading `raw_value`.
pub open spec fn after_reading(s: EncoderState, raw_value: u32) -> EncoderState {
    EncoderState {
        raw: raw_value,
        turns: (s.turns + turn_step(s.initialized, s.raw, raw_value)) as i32,
        previous: s.raw,
        initialized: true,
    }
}

/// Absolute position in counts, all turns included.
pub open spec fn absolute_counts(s: EncoderState) -> int {
    s.turns * ENCODER_17BIT_RESOLUTION + s.raw
}

/// The raw 17-bit count held in a pair of 16-bit registers: all of the low
/// word and bit 0 of the high word.
pub open spec fn registers_raw(reg_low: u16, reg_high: u16) -> u32 {
    (reg_low + (reg_high % 2) * 65536) as u32
}

/// Reader of the 17-bit encoder: the single-turn count, the accumulated turn
/// count and the previous reading.
#[derive(Debug, Clone, Copy)]
pub struct Encoder17Bit {
    raw_position: u32,
    turn_count: i32,
    previous_raw: u32,
    initialized: bool,
}

impl View for Encoder17Bit {
    type V = EncoderState;

    closed spec fn view(&self) -> EncoderState {
        EncoderState {
            raw: self.raw_position,
            turns: self.turn_count,
            previous: self.previous_raw,
            initialized: self.initialized,
        }
    }
}

impl Encoder17Bit {
    /// Counts always lie within one revolution.
    #[verifier::type_invariant]
    spec fn counts_in_range(&self) -> bool {
        &&& self.raw_position <= ENCODER_17BIT_MAX_RAW
        &&& self.previous_raw <= ENCODER_17BIT_MAX_RAW
    }

    /// Whether a reading `raw_value` can be taken without the turn counter
    /// leaving the range of `i32`.
    pub open spec fn can_read(&self, raw_value: u32) -> bool {
        raw_value <= ENCODER_17BIT_MAX_RAW ==> {
            let t = self@.turns + turn_step(self@.initialized, self@.raw, raw_value);
            i32::MIN <= t <= i32::MAX
        }
    }

    /// The state of a reader that has taken no reading.
    pub open spec fn initial_state() -> EncoderState {
        EncoderState { raw: 0, turns: 0, previous: 0, initialized: false }
    }

    /// A reader with no reading yet: position 0, turn 0.
    pub fn new() -> (enc: Self)
        ensures
            enc@ == Self::initial_state(),
    {
        Encoder17Bit { raw_position: 0, turn_count: 0, previous_raw: 0, initialized: false }
    }

    /// Takes a new raw reading. A reading outside `[0, 131071]` is rejected
    /// and leaves the reader unchanged. A jump of more than half a revolution
    /// from the current count counts as a passage through zero: downwards
    /// (high to low) one turn clockwise, upwards one turn counter-clockwise.
    pub fn update_position(&mut self, raw_value: u32) -> (res: Result<(), String>)
        requires
            old(self).can_read(raw_value),
        ensures
            res is Err <==> raw_value > ENCODER_17BIT_MAX_RAW,
            res matches Err(msg) ==> msg@ == encoder_range_message(
                raw_value,
                ENCODER_17BIT_MAX_RAW,
            ) && final(self)@ == old(
                self,
            )@,
            res is Ok ==> final(self)@ == after_reading(old(self)@, raw_value),
    {
        proof {
            use_type_invariant(&*self);
        }
        if raw_value > ENCODER_17BIT_MAX_RAW {
            return Err(range_error_message(raw_value, ENCODER_17BIT_MAX_RAW));
        }
        let mut turns = self.turn_count;
        if self.initialized {
            let delta: i64 = raw_value as i64 - self.raw_position as i64;
            if delta > WRAP_THRESHOLD as i64 {
                turns = turns - 1;
            } else if delta < -(WRAP_THRESHOLD as i64) {
                turns = turns + 1;
            }
        }
        *self = Encoder17Bit {
            raw_position: raw_value,
            turn_count: turns,
            previous_raw: self.raw_position,
            initialized: true,
        };
        Ok(())
    }

    /// Decodes a reading from the two 16-bit Modbus registers of the drive
    /// (bits 0-15 in `reg_low`, bit 16 in bit 0 of `reg_high`) and takes it
    /// as `update_position` does. The masked value is always in range, so the
    /// result is always `Ok`.
    pub fn decode_from_registers(&mut self, reg_low: u16, reg_high: u16) -> (res: Result<
        (),
        String,
    >)
        requires
            old(self).can_read(registers_raw(reg_low, reg_high)),
        ensures
            res is Ok,
            final(self)@ == after_reading(old(self)@, registers_raw(reg_low, reg_high)),
    {
        let combined: u32 = ((reg_high as u32) << 16u32) | (reg_low as u32);
        let raw_17bit: u32 = combined & 0x0001_FFFFu32;
        assert(raw_17bit == registers_raw(reg_low, reg_high)) by (bit_vector)
            requires
                combined == ((reg_high as u32) << 16u32) | (reg_low as u32),
                raw_17bit == combined & 0x0001_FFFFu32,
        ;
        self.update_position(raw_17bit)
    }

    /// Current count within one revolution (0 to 131071).
    pub fn get_raw_position(&self) -> (r: u32)
        ensures
            r == self@.raw,
            r <= ENCODER_17BIT_MAX_RAW,
    {
        proof {
            use_type_invariant(self);
        }
        self.raw_position
    }

    /// Accumulated turn count (positive = clockwise, negative = counter-clockwise).
    pub fn get_turn_count(&self) -> (r: i32)
        ensures
            r == self@.turns,
    {
        self.turn_count
    }

    /// Whether a first reading has been taken since creation or the last reset.
    pub fn is_initialized(&self) -> (r: bool)
        ensures
            r == self@.initialized,
    {
        self.initialized
    }

    /// Returns the reader to its initial state (position 0, turn 0, no reading).
    pub fn reset(&mut self)
        ensures
            final(self)@ == Self::initial_state(),
    {
        *self = Encoder17Bit { raw_position: 0, turn_count: 0, previous_raw: 0, initialized: false };
    }
}

impl Default for Encoder17Bit {
    fn default() -> (enc: Self)
        ensures
            enc@ == Encoder17Bit::initial_state(),
    {
        Encoder17Bit::new()
    }
}

/// Multi-turn tracking law: once a first reading has been taken, each
/// accepted reading moves the tracked absolute position (turns and count
/// together) by at most half a revolution, and by the same amount as the
/// change of the raw count modulo one revolution, i.e. the shortest way round;
/// a change of at most half a revolution is taken as it is, without a wrap.
pub proof fn lemma_reading_moves_shortest_way(s: EncoderState, raw_value: u32)
    requires
        s.initialized,
        s.raw <= ENCODER_17BIT_MAX_RAW,
        raw_value <= ENCODER_17BIT_MAX_RAW,
        i32::MIN <= s.turns + turn_step(s.initialized, s.raw, raw_value) <= i32::MAX,
    ensures
        ({
            let moved = absolute_counts(after_reading(s, raw_value)) - absolute_counts(s);
            &&& -(WRAP_THRESHOLD as int) <= moved <= WRAP_THRESHOLD
            &&& (moved - (raw_value - s.raw)) % (ENCODER_17BIT_RESOLUTION as int) == 0
            &&& -(WRAP_THRESHOLD as int) <= raw_value - s.raw <= WRAP_THRESHOLD ==> moved
                == raw_value - s.raw
        }),
{
    let t = s.turns + turn_step(s.initialized, s.raw, raw_value);
    let a = after_reading(s, raw_value);
    assert(a.turns == t);
    assert(absolute_counts(a) - absolute_counts(s) == (t - s.turns) * 131072 + raw_value - s.raw)
        by (nonlinear_arith)
        requires
            absolute_counts(a) == a.turns * 131072 + raw_value,
            absolute_counts(s) == s.turns * 131072 + s.raw,
            a.turns == t,
    ;
}

/// Going to a reading and straight back again leaves the turn count where it
/// was: the wrap detection is symmetric.
pub proof fn lemma_back_and_forth_keeps_turns(a: u32, b: u32)
    requires
        a <= ENCODER_17BIT_MAX_RAW,
        b <= ENCODER_17BIT_MAX_RAW,
    ensures
        turn_step(true, a, b) + turn_step(true, b, a) == 0,
{
}

/// Splitting a valid raw count into the drive's low and high registers and
/// decoding them gives the count back.
pub proof fn lemma_registers_roundtrip(raw: u32)
    requires
        raw <= ENCODER_17BIT_MAX_RAW,
    ensures
        registers_raw((raw % 65536) as u16, (raw / 65536) as u16) == raw,
{
}

/// The first reading of a fresh or reset reader only sets the position: it
/// never counts as a wrap.
pub proof fn lemma_first_reading_never_wraps(s: EncoderState, raw_value: u32)
    requires
        !s.initialized,
        raw_value <= ENCODER_17BIT_MAX_RAW,
    ensures
        after_reading(s, raw_value).turns == s.turns,
        after_reading(s, raw_value).raw == raw_value,
        after_reading(s, raw_value).initialized,
{
}

/// The count decoded from the two registers is the 32-bit register pair
/// (high word above low word) reduced to its low 17 bits.
pub proof fn lemma_registers_hold_low_17_bits(reg_low: u16, reg_high: u16)
    ensures
        registers_raw(reg_low, reg_high) as int == (reg_high * 65536 + reg_low) % (
        ENCODER_17BIT_RESOLUTION as int),
        registers_raw(reg_low, reg_high) <= ENCODER_17BIT_MAX_RAW,
{
}

/// Reading back a decimal rendering: the value of the digits of
/// `decimal(n)`, most significant first.
pub open spec fn digits_value(s: Seq<char>) -> int
    decreases s.len(),
{
    if s.len() == 0 {
        0
    } else {
        digits_value(s.drop_last()) * 10 + (s.last() as int - '0' as int)
    }
}

/// The decimal rendering is made of digits, has no leading zero (but for
/// "0" itself) and reads back as the number.
pub proof fn lemma_decimal_reads_back(n: nat)
    ensures
        digits_value(decimal(n)) == n,
        decimal(n).len() >= 1,
        forall|i: int|
            0 <= i < decimal(n).len() ==> '0' <= #[trigger] decimal(n)[i] && decimal(n)[i] <= '9',
        n >= 10 ==> decimal(n)[0] != '0',
    decreases n,
{
    lemma_digit_char_value((n % 10) as nat);
    if n >= 10 {
        lemma_decimal_reads_back(n / 10);
        let d = decimal(n);
        assert(d.drop_last() =~= decimal(n / 10));
        assert(d.last() == digit_char(n % 10));
        assert(d[0] == decimal(n / 10)[0]);
        assert(digits_value(d) == digits_value(d.drop_last()) * 10 + (d.last() as int - '0' as int));
        assert(digits_value(d.drop_last()) == n / 10);
        assert(d.last() as int - '0' as int == n % 10);
        assert((n / 10) * 10 + n % 10 == n) by (nonlinear_arith);
    } else {
        let d = decimal(n);
        assert(d.drop_last() =~= Seq::<char>::empty());
        assert(n % 10 == n);
        lemma_digit_char_value(n);
        assert(d.last() == digit_char(n));
        assert(digits_value(d.drop_last()) == 0);
        assert(digits_value(d) == digits_value(d.drop_last()) * 10 + (d.last() as int - '0' as int));
    }
}

/// The character of digit `d` is `'0'` plus `d`.
proof fn lemma_digit_char_value(d: nat)
    requires
        d < 10,
    ensures
        digit_char(d) as int == '0' as int + d,
        '0' <= digit_char(d) <= '9',
{
    assert('0' as int == 48);
    assert('9' as int == 57);
}

/// The state after accepted readings `readings`, taken in order.
pub open spec fn after_readings(s: EncoderState, readings: Seq<u32>) -> EncoderState
    decreases readings.len(),
{
    if readings.len() == 0 {
        s
    } else {
        after_readings(after_reading(s, readings[0]), readings.drop_first())
    }
}

/// Whether every reading of `readings` is valid and, taken in order, keeps
/// the turn counter within `i32`: the condition under which each call of
/// `update_position` in the sequence is allowed and succeeds.
pub open spec fn readings_fit(s: EncoderState, readings: Seq<u32>) -> bool
    decreases readings.len(),
{
    readings.len() == 0 || {
        &&& readings[0] <= ENCODER_17BIT_MAX_RAW
        &&& i32::MIN <= s.turns + turn_step(s.initialized, s.raw, readings[0]) <= i32::MAX
        &&& readings_fit(after_reading(s, readings[0]), readings.drop_first())
    }
}

/// Net number of wraps over `readings` taken in order, starting from the
/// count `current` (no wrap on a first reading when `initialized` is false).
pub open spec fn net_wraps(initialized: bool, current: u32, readings: Seq<u32>) -> int
    decreases readings.len(),
{
    if readings.len() == 0 {
        0
    } else {
        turn_step(initialized, current, readings[0]) + net_wraps(
            true,
            readings[0],
            readings.drop_first(),
        )
    }
}

/// Multi-turn counting law: after a series of accepted readings the turn
/// count is the starting count plus the net number of wraps between
/// consecutive readings (+1 for each passage downwards through zero, -1 for
/// each passage upwards), and the current count is the last reading.
pub proof fn lemma_turn_count_is_net_wraps(s: EncoderState, readings: Seq<u32>)
    requires
        readings_fit(s, readings),
    ensures
        after_readings(s, readings).turns == s.turns + net_wraps(
            s.initialized,
            s.raw,
            readings,
        ),
        readings.len() > 0 ==> after_readings(s, readings).raw == readings.last()
            && after_readings(s, readings).initialized,
        readings.len() == 0 ==> after_readings(s, readings) == s,
    decreases readings.len(),
{
    if readings.len() > 0 {
        let s1 = after_reading(s, readings[0]);
        lemma_turn_count_is_net_wraps(s1, readings.drop_first());
        if readings.len() > 1 {
            assert(readings.drop_first().last() == readings.last());
        }
    }
}

/// From a fresh reader, the turn count after a series of accepted readings
/// is the net number of wraps between consecutive readings; the first
/// reading never counts as a wrap.
pub proof fn lemma_fresh_turn_count_is_net_wraps(readings: Seq<u32>)
    requires
        readings_fit(Encoder17Bit::initial_state(), readings),
    ensures
        after_readings(Encoder17Bit::initial_state(), readings).turns == net_wraps(
            false,
            0,
            readings,
        ),
        readings.len() > 0 ==> net_wraps(false, 0, readings) == net_wraps(
            true,
            readings[0],
            readings.drop_first(),
        ),
{
    lemma_turn_count_is_net_wraps(Encoder17Bit::initial_state(), readings);
}

} // verus!
