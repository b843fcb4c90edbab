//! State machine of the CSD7 servo drive driven by pulse and direction
//! signals: which state each operation leads to, which pulse frequency a
//! command gets from its speed, and how long a positioning command runs.
//! The signal pins, the PWM timer and the delays are driven by the firmware
//! around it, which performs the actions these functions return.

use vstd::prelude::*;

verus! {

/// Encoder resolution of the drive: 23 bits, 8,388,608 pulses per revolution.
pub const ENCODER_PPR: u32 = 8_388_608;

/// Numerator of the electronic gear.
pub const ELECTRONIC_GEAR_CMX: u32 = 1;

/// Denominator of the electronic gear.
pub const ELECTRONIC_GEAR_CDV: u32 = 1;

/// Rated speed of the motor (RPM).
pub const RATED_SPEED_RPM: u32 = 3000;

/// Pulse frequency used when a command gives no speed (Hz).
pub const DEFAULT_PULSE_FREQ: u32 = 100_000;

/// Pulses per revolution after the electronic gear.
pub const PULSES_PER_REV: u32 = ENCODER_PPR * ELECTRONIC_GEAR_CMX / ELECTRONIC_GEAR_CDV;

/// Time for the drive to become ready after Servo ON (ms).
pub const SERVO_ON_DELAY_MS: u64 = 500;

/// Highest pulse rate the drive accepts (Hz), 4 Mpps.
pub const MAX_DRIVE_PULSE_FREQ: u32 = 4_000_000;

/// Settling time of the direction signal before pulses start (ms).
pub const DIRECTION_SETTLE_MS: u64 = 1;

/// Length of the alarm reset pulse (ms).
pub const ALARM_RESET_PULSE_MS: u64 = 100;

/// Wait after the alarm reset pulse (ms).
pub const ALARM_RESET_SETTLE_MS: u64 = 200;

/// State of the servo drive.
#[derive(Debug, Clone, Copy, PartialEq, Eq, Structural)]
pub enum ServoState {
    /// Not powered or initialising.
    Idle,
    /// Ready for commands (SRDY on).
    Ready,
    /// The motor is turning.
    Running,
    /// The motor has reached its target (INP on).
    InPosition,
    /// The drive reports an alarm (ALM on).
    Alarm,
    /// Emergency stop.
    EmergencyStop,
}

/// Direction of rotation of the motor.
#[derive(Debug, Clone, Copy, PartialEq, Eq, Structural)]
pub enum RotationDirection {
    /// Clockwise.
    Clockwise,
    /// Counter-clockwise.
    CounterClockwise,
}

/// A motor command.
#[derive(Debug, Clone, Copy)]
pub struct MotorCommand {
    /// Direction of rotation.
    pub direction: RotationDirection,
    /// Requested speed (RPM); 0 means the default pulse frequency.
    pub speed_rpm: u32,
    /// Pulses to emit; 0 means turn until stopped.
    pub target_pulses: u32,
}

/// Level of the direction (SIGN) signal for `dir`: low for clockwise, high
/// for counter-clockwise.
pub fn direction_level_high(dir: RotationDirection) -> (high: bool)
    ensures
        high == (dir == RotationDirection::CounterClockwise),
{
    match dir {
        RotationDirection::Clockwise => false,
        RotationDirection::CounterClockwise => true,
    }
}

/// Pulse frequency of a command of `speed_rpm`: `speed × pulses per
/// revolution / 60`, kept in its low 32 bits as the firmware stores it, or
/// the default frequency for a speed of 0.
pub open spec fn command_frequency_spec(speed_rpm: u32) -> u32 {
    if speed_rpm > 0 {
        ((speed_rpm * PULSES_PER_REV) / 60) as u32
    } else {
        DEFAULT_PULSE_FREQ
    }
}

/// Pulse frequency of a command of `speed_rpm`.
pub fn command_frequency(speed_rpm: u32) -> (f: u32)
    ensures
        f == command_frequency_spec(speed_rpm),
{
    if speed_rpm > 0 {
        assert(speed_rpm as u64 * PULSES_PER_REV as u64 <= u64::MAX) by (nonlinear_arith)
            requires
                speed_rpm <= u32::MAX,
        ;
        let wide: u64 = (speed_rpm as u64 * PULSES_PER_REV as u64) / 60;
        #[verifier::truncate]
        (wide as u32)
    } else {
        DEFAULT_PULSE_FREQ
    }
}

/// Run time (µs) for `target_pulses` pulses at `rate_hz`: the pulse train
/// time `target / rate` rounded up to the next whole microsecond.
pub open spec fn run_time_us_spec(target_pulses: u32, rate_hz: u32) -> int {
    (target_pulses * 1_000_000 + rate_hz - 1) / (rate_hz as int)
}

/// Run time of a positioning command of `target_pulses` emitted at
/// `rate_hz` (µs), rounded up so that no target pulse is cut off.
pub fn run_time_us(target_pulses: u32, rate_hz: u32) -> (us: u64)
    requires
        rate_hz > 0,
    ensures
        us == run_time_us_spec(target_pulses, rate_hz),
{
    assert(target_pulses as u64 * 1_000_000 + rate_hz as u64 <= u64::MAX) by (nonlinear_arith)
        requires
            target_pulses <= u32::MAX,
            rate_hz <= u32::MAX,
    ;
    (target_pulses as u64 * 1_000_000 + rate_hz as u64 - 1) / rate_hz as u64
}

/// State after the pulse output is stopped: a running motor becomes ready.
pub open spec fn after_stop(s: ServoState) -> ServoState {
    if s == ServoState::Running {
        ServoState::Ready
    } else {
        s
    }
}

/// State after the pulse output is asked for `freq_hz`.
pub open spec fn after_start(s: ServoState, freq_hz: u32) -> ServoState {
    if freq_hz == 0 {
        after_stop(s)
    } else {
        ServoState::Running
    }
}

/// Why a command was not executed.
#[derive(Debug, Clone, Copy, PartialEq, Eq, Structural)]
pub enum CommandRejection {
    /// The drive reports an alarm.
    DriveAlarm,
    /// The drive is off: Servo ON first.
    DriveOff,
}

/// What the firmware does for a command.
#[derive(Debug, Clone, Copy, PartialEq, Eq, Structural)]
pub enum CommandPlan {
    /// Nothing is done.
    Rejected { reason: CommandRejection },
    /// Set the direction signal, wait for it to settle, then emit pulses at
    /// `pulse_hz` (or stop the output when `None`); with `run_us`, stop
    /// again after that many microseconds, when the target pulses have gone
    /// out at `pulse_hz`, and report the target reached.
    Run { direction_high: bool, frequency_hz: u32, pulse_hz: Option<u32>, run_us: Option<u64> },
}

/// The pulse rate actually emitted for a request of `freq_hz`: none for 0,
/// else at most the drive's limit.
pub open spec fn emitted_rate(freq_hz: u32) -> Option<u32> {
    if freq_hz == 0 {
        None
    } else if freq_hz < MAX_DRIVE_PULSE_FREQ {
        Some(freq_hz)
    } else {
        Some(MAX_DRIVE_PULSE_FREQ)
    }
}

/// Whether a positioning command can be timed: a speed whose frequency is 0
/// in 32 bits emits no pulses, so no run time reaches the target (the
/// division by the rate would be by zero).
pub open spec fn command_runnable(s: ServoState, cmd: MotorCommand) -> bool {
    (s != ServoState::Alarm && s != ServoState::Idle && cmd.target_pulses > 0) ==> command_frequency_spec(
        cmd.speed_rpm,
    ) > 0
}

/// The servo drive as a state machine.
#[derive(Debug, Clone, Copy)]
pub struct ServoDrive {
    state: ServoState,
}

impl View for ServoDrive {
    type V = ServoState;

    closed spec fn view(&self) -> ServoState {
        self.state
    }
}

impl ServoDrive {
    /// A drive that is off.
    pub fn new() -> (d: Self)
        ensures
            d@ == ServoState::Idle,
    {
        ServoDrive { state: ServoState::Idle }
    }

    /// Servo ON has been applied and its delay has passed: the drive is ready.
    pub fn servo_on_complete(&mut self)
        ensures
            final(self)@ == ServoState::Ready,
    {
        self.state = ServoState::Ready;
    }

    /// Servo OFF: the pulse output is stopped and the drive is off.
    pub fn servo_off(&mut self)
        ensures
            final(self)@ == ServoState::Idle,
    {
        self.stop_pulse();
        self.state = ServoState::Idle;
    }

    /// Asks the pulse output for `freq_hz`: for 0 the output is stopped
    /// (`None`), otherwise it runs at the frequency capped at 4 MHz and the
    /// motor is running.
    pub fn start_pulse(&mut self, freq_hz: u32) -> (emit: Option<u32>)
        ensures
            emit == emitted_rate(freq_hz),
            final(self)@ == after_start(old(self)@, freq_hz),
    {
        if freq_hz == 0 {
            self.stop_pulse();
            return None;
        }
        let safe: u32 = if freq_hz < MAX_DRIVE_PULSE_FREQ {
            freq_hz
        } else {
            MAX_DRIVE_PULSE_FREQ
        };
        self.state = ServoState::Running;
        Some(safe)
    }

    /// The pulse output is stopped: a running motor becomes ready.
    pub fn stop_pulse(&mut self)
        ensures
            final(self)@ == after_stop(old(self)@),
    {
        if self.state == ServoState::Running {
            self.state = ServoState::Ready;
        }
    }

    /// Plans a command. A drive in alarm or off rejects it and stays as it
    /// is. Otherwise the pulse output is started at the command's frequency
    /// (capped at what the drive accepts); a positioning command (target
    /// above 0) runs for the time its target pulses take at the rate actually
    /// emitted, in microseconds rounded up: exactly the target goes out when
    /// the rate divides the target time evenly (as for a full turn at 4 MHz),
    /// otherwise at most the pulses of one microsecond more (at most 4).
    pub fn execute_command(&mut self, cmd: MotorCommand) -> (plan: CommandPlan)
        requires
            command_runnable(old(self)@, cmd),
        ensures
            old(self)@ == ServoState::Alarm ==> plan == (CommandPlan::Rejected {
                reason: CommandRejection::DriveAlarm,
            }) && final(self)@ == old(self)@,
            old(self)@ == ServoState::Idle ==> plan == (CommandPlan::Rejected {
                reason: CommandRejection::DriveOff,
            }) && final(self)@ == old(self)@,
            old(self)@ != ServoState::Alarm && old(self)@ != ServoState::Idle ==> {
                let f = command_frequency_spec(cmd.speed_rpm);
                &&& plan == (CommandPlan::Run {
                    direction_high: cmd.direction == RotationDirection::CounterClockwise,
                    frequency_hz: f,
                    pulse_hz: emitted_rate(f),
                    run_us: if cmd.target_pulses > 0 {
                        Some(run_time_us_spec(cmd.target_pulses, emitted_rate(f).unwrap()) as u64)
                    } else {
                        None
                    },
                })
                &&& final(self)@ == after_start(old(self)@, f)
            },
    {
        if self.state == ServoState::Alarm {
            return CommandPlan::Rejected { reason: CommandRejection::DriveAlarm };
        }
        if self.state == ServoState::Idle {
            return CommandPlan::Rejected { reason: CommandRejection::DriveOff };
        }
        let direction_high = direction_level_high(cmd.direction);
        let freq_hz = command_frequency(cmd.speed_rpm);
        let pulse_hz = self.start_pulse(freq_hz);
        let run_us = match pulse_hz {
            Some(rate) => if cmd.target_pulses > 0 {
                Some(run_time_us(cmd.target_pulses, rate))
            } else {
                None
            },
            None => None,
        };
        CommandPlan::Run { direction_high, frequency_hz: freq_hz, pulse_hz, run_us }
    }

    /// A positioning command has run its time: the output is stopped and the
    /// motor is at its target.
    pub fn finish_motion(&mut self)
        ensures
            final(self)@ == ServoState::InPosition,
    {
        self.stop_pulse();
        self.state = ServoState::InPosition;
    }

    /// The alarm reset pulse has been sent and the drive has settled: ready.
    pub fn reset_alarm_complete(&mut self)
        ensures
            final(self)@ == ServoState::Ready,
    {
        self.state = ServoState::Ready;
    }

    /// The drive reports an alarm.
    pub fn report_alarm(&mut self)
        ensures
            final(self)@ == ServoState::Alarm,
    {
        self.state = ServoState::Alarm;
    }

    /// Emergency stop: pulses cut, drive off, state latched as emergency stop.
    pub fn emergency_stop(&mut self)
        ensures
            final(self)@ == ServoState::EmergencyStop,
    {
        self.stop_pulse();
        self.servo_off();
        self.state = ServoState::EmergencyStop;
    }

    /// Current state.
    pub fn get_state(&self) -> (s: ServoState)
        ensures
            s == self@,
    {
        self.state
    }
}

/// A drive that is off or in alarm never starts the motor, whatever the
/// command; a drive that accepts a command with a non-zero frequency is
/// running afterwards, and stopping a running motor leaves it ready.
pub proof fn lemma_commands_need_a_ready_drive(s: ServoState, cmd: MotorCommand)
    ensures
        (s == ServoState::Alarm || s == ServoState::Idle) ==> after_stop(s) == s,
        (s != ServoState::Alarm && s != ServoState::Idle && command_frequency_spec(cmd.speed_rpm)
            != 0) ==> after_start(s, command_frequency_spec(cmd.speed_rpm)) == ServoState::Running,
        after_stop(ServoState::Running) == ServoState::Ready,
{
}

/// The emitted pulse rate never exceeds what the drive accepts, and is the
/// requested rate when that is within the limit.
pub proof fn lemma_emitted_rate_within_drive_limit(freq_hz: u32)
    ensures
        emitted_rate(freq_hz) matches Some(r) ==> 0 < r <= MAX_DRIVE_PULSE_FREQ,
        0 < freq_hz <= MAX_DRIVE_PULSE_FREQ ==> emitted_rate(freq_hz) == Some(freq_hz),
{
}

/// A positioning command emits its target: during the planned run time the
/// emitted rate sends out at least the target pulses and less than the
/// pulses of one more microsecond; when the rate divides the target time
/// evenly it sends out exactly the target.
pub proof fn lemma_run_time_emits_target(target_pulses: u32, rate: u32)
    requires
        rate > 0,
    ensures
        ({
            let us = run_time_us_spec(target_pulses, rate);
            &&& target_pulses * 1_000_000 <= us * rate
            &&& (us - 1) * rate < target_pulses * 1_000_000
            &&& (target_pulses * 1_000_000) % (rate as int) == 0 ==> us * rate == target_pulses
                * 1_000_000
        }),
{
    let t = target_pulses * 1_000_000;
    let r = rate as int;
    let us = (t + r - 1) / r;
    assert(t <= us * r && (us - 1) * r < t && (t % r == 0 ==> us * r == t)) by (nonlinear_arith)
        requires
            r > 0,
            t >= 0,
            us == (t + r - 1) / r,
    ;
}

/// Frequency law: for a non-zero speed the command frequency is the exact
/// floor of `speed × pulses per revolution / 60`, the division done on the
/// full product and only the quotient kept in 32 bits; when the quotient
/// fits in 32 bits it is the frequency itself. A speed of 0 gives the
/// default frequency.
pub proof fn lemma_command_frequency_is_floor(speed_rpm: u32)
    ensures
        speed_rpm > 0 ==> command_frequency_spec(speed_rpm) as int == ((speed_rpm as int
            * 8_388_608) / 60) % 0x1_0000_0000,
        speed_rpm > 0 && (speed_rpm as int * 8_388_608) / 60 <= u32::MAX ==> {
            let f = command_frequency_spec(speed_rpm) as int;
            &&& 60 * f <= speed_rpm * 8_388_608
            &&& speed_rpm * 8_388_608 < 60 * (f + 1)
        },
        speed_rpm == 0 ==> command_frequency_spec(speed_rpm) == DEFAULT_PULSE_FREQ,
{
    assert(PULSES_PER_REV == 8_388_608);
    if speed_rpm > 0 {
        let product: int = speed_rpm as int * 8_388_608;
        assert(0 <= product <= u64::MAX) by (nonlinear_arith)
            requires
                product == speed_rpm as int * 8_388_608,
                speed_rpm <= u32::MAX,
        ;
        let w: u64 = (product / 60) as u64;
        assert(w == product / 60);
        assert((w as u32) as int == w % 0x1_0000_0000) by (bit_vector);
        assert(command_frequency_spec(speed_rpm) == w as u32);
        let q = product / 60;
        assert(60 * q <= product && product < 60 * (q + 1)) by (nonlinear_arith)
            requires
                product >= 0,
                q == product / 60,
        ;
    }
}

/// Stopping the pulse output only settles a running motor: every other
/// state, the emergency-stop latch and an in-position drive included, is
/// kept; likewise for a request of frequency 0.
pub proof fn lemma_stop_keeps_every_state_but_running(s: ServoState)
    ensures
        s != ServoState::Running ==> after_stop(s) == s,
        after_stop(ServoState::Running) == ServoState::Ready,
        after_stop(ServoState::EmergencyStop) == ServoState::EmergencyStop,
        after_stop(ServoState::InPosition) == ServoState::InPosition,
        after_stop(ServoState::Alarm) == ServoState::Alarm,
        s != ServoState::Running ==> after_start(s, 0) == s,
        forall|f: u32| f > 0 ==> #[trigger] after_start(s, f) == ServoState::Running,
{
}

/// The emitted rate is the requested rate up to the drive's cap and the cap
/// above it; no pulses for 0.
pub proof fn lemma_emitted_rate_is_capped_request(freq_hz: u32)
    ensures
        freq_hz == 0 ==> emitted_rate(freq_hz) is None,
        0 < freq_hz <= MAX_DRIVE_PULSE_FREQ ==> emitted_rate(freq_hz) == Some(freq_hz),
        freq_hz >= MAX_DRIVE_PULSE_FREQ ==> emitted_rate(freq_hz) == Some(MAX_DRIVE_PULSE_FREQ),
{
}

} // verus!
