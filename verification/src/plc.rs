//! Decisions of the Delta PLC driver and of its hardware test scenarios:
//! which Modbus writes start a rotation (with the frequency kept within the
//! limits of the PLC output), when to stop waiting for a rotation, and how
//! the operator's menu answers map to commands.

use vstd::prelude::*;
use crate::registers::{
    ADDR_D10_TARGET_PULSES_32, ADDR_D14_TARGET_SPEED_32, ADDR_M10_PULSE_TRIGGER,
    MAX_RAMP_TIME_MS, MAX_SAFE_FREQUENCY_HZ, MIN_RAMP_TIME_MS, MIN_SAFE_FREQUENCY_HZ,
    POLL_INTERVAL_MS, high_word, lemma_words_roundtrip, low_word, signed_of_pattern,
    split_i32_words,
};

verus! {

/// Number of polls for the PLC to report busy before waiting for the end.
pub const BUSY_POLL_ATTEMPTS: u32 = 20;

/// Pause between two polls for the busy state (ms).
pub const BUSY_POLL_INTERVAL_MS: u64 = 100;

/// Pulses of a continuous rotation in the jog test.
pub const CONTINUOUS_ROTATION_PULSES: i32 = 999_999;

/// Pulses of one bottle step (30 degrees on the disc gear).
pub const BOTTLE_STEP_PULSES: i32 = 10_000;

/// Pulses of a quarter turn (90 degrees) in the ramp and sweep tests.
pub const QUARTER_TURN_PULSES: i32 = 30_000;

/// Number of steps of the automatic cycle (one full turn of 12 bottles).
pub const AUTO_CYCLE_STEPS: u32 = 12;

/// Number of back-and-forth rounds of the reversal test.
pub const REVERSAL_ROUNDS: u32 = 3;

/// Ramp time used when the operator's answer is not a number (ms).
pub const DEFAULT_RAMP_TIME_MS: u16 = 150;

/// One Modbus write.
#[derive(Debug)]
pub enum ModbusWrite {
    /// Write consecutive holding registers from `addr`.
    Registers { addr: u16, values: Vec<u16> },
    /// Write one coil.
    Coil { addr: u16, value: bool },
}

/// `value` within `[MIN_SAFE_FREQUENCY_HZ, MAX_SAFE_FREQUENCY_HZ]`.
pub open spec fn safe_speed(value: i32) -> int {
    crate::backlash::clamp_spec(
        value as int,
        MIN_SAFE_FREQUENCY_HZ as int,
        MAX_SAFE_FREQUENCY_HZ as int,
    )
}

/// Brings a pulse frequency within the limits of output Y0 (100 Hz to 10 kHz).
pub fn clamp_speed(speed_hz: i32) -> (r: i32)
    ensures
        r == safe_speed(speed_hz),
{
    if speed_hz < MIN_SAFE_FREQUENCY_HZ {
        MIN_SAFE_FREQUENCY_HZ
    } else if speed_hz > MAX_SAFE_FREQUENCY_HZ {
        MAX_SAFE_FREQUENCY_HZ
    } else {
        speed_hz
    }
}

/// Whether `w` writes the signed 32-bit `value` into the register pair at
/// `addr`, low word first.
pub open spec fn writes_register_32(w: ModbusWrite, addr: u16, value: i32) -> bool {
    &&& w matches ModbusWrite::Registers { addr: a, values }
    &&& a == addr
    &&& values@.len() == 2
    &&& values@[0] == low_word(value)
    &&& values@[1] == high_word(value)
}

/// The write of a signed 32-bit value into the register pair at `addr`.
pub fn register_32_write(addr: u16, value: i32) -> (w: ModbusWrite)
    ensures
        writes_register_32(w, addr, value),
{
    let (low, high) = split_i32_words(value);
    let mut values: Vec<u16> = Vec::new();
    values.push(low);
    values.push(high);
    ModbusWrite::Registers { addr, values }
}

/// The writes that start a rotation, and the frequency that was applied.
#[derive(Debug)]
pub struct RotationTrigger {
    /// Writes to perform, in order.
    pub writes: Vec<ModbusWrite>,
    /// Frequency written (Hz), within the output limits.
    pub applied_speed_hz: i32,
    /// Whether the requested frequency had to be brought within the limits.
    pub speed_adjusted: bool,
}

/// Plans the start of a rotation of `pulses` at `speed_hz`: the pulse count
/// into D10-D11, the frequency (brought within 100 Hz to 10 kHz) into
/// D14-D15, then M10 set to start the pulse train.
pub fn trigger_rotation_plan(pulses: i32, speed_hz: i32) -> (t: RotationTrigger)
    ensures
        t.applied_speed_hz == safe_speed(speed_hz),
        t.speed_adjusted == (t.applied_speed_hz != speed_hz),
        t.writes@.len() == 3,
        writes_register_32(t.writes@[0], ADDR_D10_TARGET_PULSES_32, pulses),
        writes_register_32(t.writes@[1], ADDR_D14_TARGET_SPEED_32, t.applied_speed_hz),
        t.writes@[2] == (ModbusWrite::Coil { addr: ADDR_M10_PULSE_TRIGGER, value: true }),
{
    let applied: i32 = clamp_speed(speed_hz);
    let mut writes: Vec<ModbusWrite> = Vec::new();
    writes.push(register_32_write(ADDR_D10_TARGET_PULSES_32, pulses));
    writes.push(register_32_write(ADDR_D14_TARGET_SPEED_32, applied));
    writes.push(ModbusWrite::Coil { addr: ADDR_M10_PULSE_TRIGGER, value: true });
    RotationTrigger { writes, applied_speed_hz: applied, speed_adjusted: applied != speed_hz }
}

/// Outcome of one poll for the PLC to report busy.
#[derive(Debug, Clone, Copy, PartialEq, Eq, Structural)]
pub enum BusyPoll {
    /// M10 or M11 is set: the rotation has started.
    Started,
    /// Not busy yet: pause, then poll again.
    SleepAndRetry { sleep_ms: u64 },
    /// Not busy after the last poll: pause, then wait for the end anyway.
    SleepAndGiveUp { sleep_ms: u64 },
}

/// Decides after poll number `poll_index` (from 0) of the busy state, where
/// a failed read counts as not set.
pub fn busy_poll_decision(poll_index: u32, m10_active: bool, m11_busy: bool) -> (d: BusyPoll)
    requires
        poll_index < BUSY_POLL_ATTEMPTS,
    ensures
        d == if m10_active || m11_busy {
            BusyPoll::Started
        } else if poll_index + 1 < BUSY_POLL_ATTEMPTS {
            BusyPoll::SleepAndRetry { sleep_ms: BUSY_POLL_INTERVAL_MS }
        } else {
            BusyPoll::SleepAndGiveUp { sleep_ms: BUSY_POLL_INTERVAL_MS }
        },
{
    if m10_active || m11_busy {
        BusyPoll::Started
    } else if poll_index + 1 < BUSY_POLL_ATTEMPTS {
        BusyPoll::SleepAndRetry { sleep_ms: BUSY_POLL_INTERVAL_MS }
    } else {
        BusyPoll::SleepAndGiveUp { sleep_ms: BUSY_POLL_INTERVAL_MS }
    }
}

/// Outcome of one poll of the pulse flag while waiting for the end.
#[derive(Debug, Clone, Copy, PartialEq, Eq, Structural)]
pub enum IdlePoll {
    /// M10 is clear: the rotation is done.
    Finished,
    /// Still pulsing after the time-out.
    TimedOut,
    /// Still pulsing: pause, then poll again.
    SleepAndRetry { sleep_ms: u64 },
}

/// Decides after a poll of M10, `elapsed_nanos` after the wait began.
pub fn idle_poll_decision(is_pulsing: bool, elapsed_nanos: u128, timeout_secs: u64) -> (d: IdlePoll)
    ensures
        d == if !is_pulsing {
            IdlePoll::Finished
        } else if elapsed_nanos > timeout_secs * 1_000_000_000 {
            IdlePoll::TimedOut
        } else {
            IdlePoll::SleepAndRetry { sleep_ms: POLL_INTERVAL_MS }
        },
{
    if !is_pulsing {
        return IdlePoll::Finished;
    }
    let limit: u128 = (timeout_secs as u128) * 1_000_000_000u128;
    if elapsed_nanos > limit {
        IdlePoll::TimedOut
    } else {
        IdlePoll::SleepAndRetry { sleep_ms: POLL_INTERVAL_MS }
    }
}

/// Whether `choice` is the one-character answer `c`.
pub open spec fn answer_is(choice: Seq<u8>, c: u8) -> bool {
    choice.len() == 1 && choice[0] == c
}

/// Whether `choice` is the one-character answer `c`.
fn is_answer(choice: &[u8], c: u8) -> (b: bool)
    ensures
        b == answer_is(choice@, c),
{
    choice.len() == 1 && choice[0] == c
}

/// Sign of the direction answer ("1" clockwise, "2" counter-clockwise) and
/// whether the answer was valid; any other answer means clockwise.
pub fn direction_choice(choice: &[u8]) -> (r: (i32, bool))
    ensures
        r == if answer_is(choice@, 0x31) {
            (1i32, true)
        } else if answer_is(choice@, 0x32) {
            (-1i32, true)
        } else {
            (1i32, false)
        },
{
    if is_answer(choice, 0x31) {
        (1, true)
    } else if is_answer(choice, 0x32) {
        (-1, true)
    } else {
        (1, false)
    }
}

/// Pulses of the angle answer ("1" 30, "2" 90, "3" 180, "4" 360 degrees on
/// the disc) and whether the answer was valid; any other answer means 30.
pub fn angle_choice(choice: &[u8]) -> (r: (i32, bool))
    ensures
        r == if answer_is(choice@, 0x31) {
            (10_000i32, true)
        } else if answer_is(choice@, 0x32) {
            (30_000i32, true)
        } else if answer_is(choice@, 0x33) {
            (60_000i32, true)
        } else if answer_is(choice@, 0x34) {
            (120_000i32, true)
        } else {
            (10_000i32, false)
        },
{
    if is_answer(choice, 0x31) {
        (10_000, true)
    } else if is_answer(choice, 0x32) {
        (30_000, true)
    } else if is_answer(choice, 0x33) {
        (60_000, true)
    } else if is_answer(choice, 0x34) {
        (120_000, true)
    } else {
        (10_000, false)
    }
}

/// Degrees on the disc of one of the angle answers' pulse counts (30 for any
/// other count).
pub fn angle_degrees(base_pulses: i32) -> (d: u32)
    ensures
        d == if base_pulses == 30_000 {
            90u32
        } else if base_pulses == 60_000 {
            180u32
        } else if base_pulses == 120_000 {
            360u32
        } else {
            30u32
        },
{
    if base_pulses == 30_000 {
        90
    } else if base_pulses == 60_000 {
        180
    } else if base_pulses == 120_000 {
        360
    } else {
        30
    }
}

/// Signed pulses of the direction-selection test: the angle's pulses with
/// the direction's sign.
pub fn selected_target_pulses(base_pulses: i32, sign: i32) -> (p: i32)
    requires
        sign == 1 || sign == -1,
        0 <= base_pulses <= 120_000,
    ensures
        p == base_pulses * sign,
{
    if sign == 1 {
        assert(base_pulses * sign == base_pulses) by (nonlinear_arith)
            requires
                sign == 1,
        ;
        base_pulses
    } else {
        assert(base_pulses * sign == -base_pulses) by (nonlinear_arith)
            requires
                sign == -1,
        ;
        -base_pulses
    }
}

/// Ramp time requested by the operator (the parsed answer, or 150 ms when it
/// was not a number) and the time applied, within 10 ms to 5000 ms.
pub fn ramp_time_setting(parsed: Option<u16>) -> (r: (u16, u16))
    ensures
        r.0 == match parsed {
            Some(t) => t,
            None => DEFAULT_RAMP_TIME_MS,
        },
        r.1 == crate::backlash::clamp_spec(
            r.0 as int,
            MIN_RAMP_TIME_MS as int,
            MAX_RAMP_TIME_MS as int,
        ),
{
    let requested: u16 = match parsed {
        Some(t) => t,
        None => DEFAULT_RAMP_TIME_MS,
    };
    let applied: u16 = if requested < MIN_RAMP_TIME_MS {
        MIN_RAMP_TIME_MS
    } else if requested > MAX_RAMP_TIME_MS {
        MAX_RAMP_TIME_MS
    } else {
        requested
    };
    (requested, applied)
}

/// The frequencies of the speed sweep test (Hz), in order.
pub fn speed_sweep_speeds() -> (v: Vec<i32>)
    ensures
        v@ == seq![1000i32, 5000i32, 10_000i32],
{
    let mut v: Vec<i32> = Vec::new();
    v.push(1000);
    v.push(5000);
    v.push(10_000);
    v
}

/// The values written and read back by the communication test, in order.
pub fn loopback_test_values() -> (v: Vec<u16>)
    ensures
        v@ == seq![1234u16, 5678u16, 9012u16, 3456u16, 7890u16],
{
    let mut v: Vec<u16> = Vec::new();
    v.push(1234);
    v.push(5678);
    v.push(9012);
    v.push(3456);
    v.push(7890);
    v
}

/// Number of positions where the value read back equals the value written.
pub open spec fn matches_in(written: Seq<u16>, read_back: Seq<u16>, k: int) -> nat
    decreases k,
{
    if k <= 0 {
        0
    } else {
        matches_in(written, read_back, k - 1) + if written[k - 1] == read_back[k - 1] {
            1nat
        } else {
            0nat
        }
    }
}

/// The loopback count is a count of matching positions: it never exceeds
/// the number of values, it reaches it exactly when every value read back
/// equals the value written, and one corrupted value keeps it below.
pub proof fn lemma_loopback_counts_matches(written: Seq<u16>, read_back: Seq<u16>, k: int)
    requires
        0 <= k <= written.len(),
        written.len() == read_back.len(),
    ensures
        matches_in(written, read_back, k) <= k,
        matches_in(written, read_back, k) == k <==> (forall|i: int|
            0 <= i < k ==> #[trigger] written[i] == read_back[i]),
        (exists|j: int| 0 <= j < k && written[j] != read_back[j]) ==> matches_in(
            written,
            read_back,
            k,
        ) < k,
    decreases k,
{
    if k > 0 {
        lemma_loopback_counts_matches(written, read_back, k - 1);
        if matches_in(written, read_back, k) == k {
            assert forall|i: int| 0 <= i < k implies #[trigger] written[i] == read_back[i] by {
                if i < k - 1 {
                } else {
                }
            }
        }
    }
}

/// The loopback test passes exactly when everything read back equals what
/// was written.
pub proof fn lemma_loopback_passes_iff_all_equal(written: Seq<u16>, read_back: Seq<u16>)
    requires
        written.len() == read_back.len(),
    ensures
        (matches_in(written, read_back, written.len() as int) == written.len()) <==> written
            == read_back,
{
    lemma_loopback_counts_matches(written, read_back, written.len() as int);
    if matches_in(written, read_back, written.len() as int) == written.len() {
        assert(written =~= read_back);
    }
}

/// Verdict of the communication test: the number of values read back
/// unchanged, and whether all of them were.
pub fn loopback_verdict(written: &Vec<u16>, read_back: &Vec<u16>) -> (r: (usize, bool))
    requires
        written@.len() == read_back@.len(),
    ensures
        r.0 == matches_in(written@, read_back@, written@.len() as int),
        r.1 == (r.0 == written@.len()),
{
    let n = written.len();
    let mut count: usize = 0;
    for i in 0..n
        invariant
            n == written@.len(),
            n == read_back@.len(),
            count == matches_in(written@, read_back@, i as int),
            count <= i,
    {
        if written[i] == read_back[i] {
            count = count + 1;
        }
    }
    (count, count == n)
}

/// Entries of the test menu.
#[derive(Debug, Clone, Copy, PartialEq, Eq, Structural)]
pub enum MenuChoice {
    /// 1: Modbus write/read-back test of D100.
    ModbusLoopback,
    /// 2: Servo-ON lock and release test.
    ServoOnOff,
    /// 3: continuous (jog) rotation.
    ContinuousRotation,
    /// 4: chosen direction and angle.
    DirectionSelection,
    /// 5: acceleration ramp time.
    AccelerationRamp,
    /// 6: frequency sweep.
    SpeedSweep,
    /// 7: sudden reversal.
    Reversal,
    /// 8: automatic cycle of 12 steps.
    AutoCycle,
    /// 9: emergency stop.
    EmergencyStop,
    /// 10: release of the emergency stop.
    ReleaseEmergencyStop,
    /// 0: leave the program.
    Exit,
    /// Anything else.
    Invalid,
}

/// The menu entry of an answer of one or two characters.
pub open spec fn menu_choice_spec(choice: Seq<u8>) -> MenuChoice {
    if choice == seq![0x31u8, 0x30u8] {
        MenuChoice::ReleaseEmergencyStop
    } else if answer_is(choice, 0x30) {
        MenuChoice::Exit
    } else if answer_is(choice, 0x31) {
        MenuChoice::ModbusLoopback
    } else if answer_is(choice, 0x32) {
        MenuChoice::ServoOnOff
    } else if answer_is(choice, 0x33) {
        MenuChoice::ContinuousRotation
    } else if answer_is(choice, 0x34) {
        MenuChoice::DirectionSelection
    } else if answer_is(choice, 0x35) {
        MenuChoice::AccelerationRamp
    } else if answer_is(choice, 0x36) {
        MenuChoice::SpeedSweep
    } else if answer_is(choice, 0x37) {
        MenuChoice::Reversal
    } else if answer_is(choice, 0x38) {
        MenuChoice::AutoCycle
    } else if answer_is(choice, 0x39) {
        MenuChoice::EmergencyStop
    } else {
        MenuChoice::Invalid
    }
}

/// The number under which an entry is shown in the operator's menu
/// ("[7]" the reversal test, "[8]" the automatic cycle, "[0]" exit, ...);
/// -1 for no entry.
pub open spec fn menu_number(m: MenuChoice) -> int {
    match m {
        MenuChoice::Exit => 0,
        MenuChoice::ModbusLoopback => 1,
        MenuChoice::ServoOnOff => 2,
        MenuChoice::ContinuousRotation => 3,
        MenuChoice::DirectionSelection => 4,
        MenuChoice::AccelerationRamp => 5,
        MenuChoice::SpeedSweep => 6,
        MenuChoice::Reversal => 7,
        MenuChoice::AutoCycle => 8,
        MenuChoice::EmergencyStop => 9,
        MenuChoice::ReleaseEmergencyStop => 10,
        MenuChoice::Invalid => -1,
    }
}

/// The ASCII bytes of the decimal rendering of `n`.
pub open spec fn ascii_decimal(n: nat) -> Seq<u8> {
    crate::encoder::decimal(n).map_values(|c: char| c as u8)
}

/// Menu law: typing the number shown next to an entry selects that entry,
/// for every entry from 0 to 10, and an answer that selects an entry is
/// exactly the number shown next to it; every other answer is invalid.
pub proof fn lemma_menu_answer_is_entry_number(n: nat, choice: Seq<u8>)
    ensures
        n <= 10 ==> menu_number(menu_choice_spec(ascii_decimal(n))) == n,
        menu_choice_spec(choice) != MenuChoice::Invalid ==> choice == ascii_decimal(
            menu_number(menu_choice_spec(choice)) as nat,
        ),
        menu_choice_spec(choice) != MenuChoice::Invalid <==> exists|k: nat|
            k <= 10 && choice == #[trigger] ascii_decimal(k),
{
    reveal_with_fuel(crate::encoder::decimal, 2);
    assert(ascii_decimal(0) =~= seq![0x30u8]);
    assert(ascii_decimal(1) =~= seq![0x31u8]);
    assert(ascii_decimal(2) =~= seq![0x32u8]);
    assert(ascii_decimal(3) =~= seq![0x33u8]);
    assert(ascii_decimal(4) =~= seq![0x34u8]);
    assert(ascii_decimal(5) =~= seq![0x35u8]);
    assert(ascii_decimal(6) =~= seq![0x36u8]);
    assert(ascii_decimal(7) =~= seq![0x37u8]);
    assert(ascii_decimal(8) =~= seq![0x38u8]);
    assert(ascii_decimal(9) =~= seq![0x39u8]);
    assert(crate::encoder::decimal(10) =~= seq!['1', '0']);
    assert(ascii_decimal(10) =~= seq![0x31u8, 0x30u8]);
    if menu_choice_spec(choice) != MenuChoice::Invalid {
        if choice.len() == 1 {
            assert(choice =~= seq![choice[0]]);
        }
        let k = menu_number(menu_choice_spec(choice)) as nat;
        assert(choice == ascii_decimal(k));
    }
    if exists|k: nat| k <= 10 && choice == #[trigger] ascii_decimal(k) {
        let k = choose|k: nat| k <= 10 && choice == #[trigger] ascii_decimal(k);
        assert(menu_number(menu_choice_spec(choice)) == k);
    }
}

/// Reads the operator's (trimmed) menu answer: "0" to "10".
pub fn menu_choice(choice: &[u8]) -> (m: MenuChoice)
    ensures
        m == menu_choice_spec(choice@),
{
    if choice.len() == 2 && choice[0] == 0x31 && choice[1] == 0x30 {
        assert(choice@ =~= seq![0x31u8, 0x30u8]);
        return MenuChoice::ReleaseEmergencyStop;
    }
    assert(choice@ != seq![0x31u8, 0x30u8]);
    if choice.len() != 1 {
        return MenuChoice::Invalid;
    }
    let c = choice[0];
    if c == 0x30 {
        MenuChoice::Exit
    } else if c == 0x31 {
        MenuChoice::ModbusLoopback
    } else if c == 0x32 {
        MenuChoice::ServoOnOff
    } else if c == 0x33 {
        MenuChoice::ContinuousRotation
    } else if c == 0x34 {
        MenuChoice::DirectionSelection
    } else if c == 0x35 {
        MenuChoice::AccelerationRamp
    } else if c == 0x36 {
        MenuChoice::SpeedSweep
    } else if c == 0x37 {
        MenuChoice::Reversal
    } else if c == 0x38 {
        MenuChoice::AutoCycle
    } else if c == 0x39 {
        MenuChoice::EmergencyStop
    } else {
        MenuChoice::Invalid
    }
}

/// A rotation started through the PLC always runs at a frequency the output
/// can produce, and the written pulse count reads back unchanged.
pub proof fn lemma_trigger_within_limits(pulses: i32, speed_hz: i32)
    ensures
        MIN_SAFE_FREQUENCY_HZ <= safe_speed(speed_hz) <= MAX_SAFE_FREQUENCY_HZ,
        MIN_SAFE_FREQUENCY_HZ <= speed_hz <= MAX_SAFE_FREQUENCY_HZ ==> safe_speed(speed_hz)
            == speed_hz,
        signed_of_pattern(high_word(pulses) * 0x1_0000 + low_word(pulses)) == pulses,
{
    lemma_words_roundtrip(pulses);
}

} // verus!
