//! Integer decisions of the rotating-disc controller: the pulse count sent
//! for a move (raw pulses, calibration offset and backlash on reversal), the
//! pulses of a return to origin, the choice of pulse frequency within its
//! safe band, and the four registers of a pulse command.

use vstd::prelude::*;
use crate::backlash::{BacklashCompensator, TrackedDirection, compensation_for};
use crate::registers::{split_i32_words, split_u32_words, low_word, high_word};

verus! {

/// Default lowest pulse frequency of a move (Hz).
pub const DEFAULT_MIN_FREQUENCY_HZ: u32 = 1000;

/// Default highest pulse frequency of a move (Hz).
pub const DEFAULT_MAX_FREQUENCY_HZ: u32 = 9000;

/// Largest calibration offset magnitude (pulses), about 0.55 degrees.
pub const MAX_OFFSET_PULSES: i32 = 200;

/// Saturation of a learned calibration offset to `[-200, 200]` pulses.
pub fn clamp_offset(offset_pulses: i32) -> (r: i32)
    ensures
        r == crate::backlash::clamp_spec(
            offset_pulses as int,
            -MAX_OFFSET_PULSES as int,
            MAX_OFFSET_PULSES as int,
        ),
        -MAX_OFFSET_PULSES <= r <= MAX_OFFSET_PULSES,
{
    if offset_pulses < -MAX_OFFSET_PULSES {
        -MAX_OFFSET_PULSES
    } else if offset_pulses > MAX_OFFSET_PULSES {
        MAX_OFFSET_PULSES
    } else {
        offset_pulses
    }
}

/// Direction of rotation of the disc.
#[derive(Debug, Clone, Copy, PartialEq, Eq, Structural)]
pub enum Direction {
    /// Leftwards (negative pulses).
    Left,
    /// Rightwards (positive pulses).
    Right,
}

/// The direction that the backlash compensator records for a move in `d`.
pub open spec fn tracked_of(d: Direction) -> TrackedDirection {
    match d {
        Direction::Left => TrackedDirection::Left,
        Direction::Right => TrackedDirection::Right,
    }
}

impl Direction {
    /// The name of the direction, as it is displayed.
    pub fn as_str(&self) -> (s: &'static str)
        ensures
            s@ == match *self {
                Direction::Left => "Left"@,
                Direction::Right => "Right"@,
            },
    {
        match self {
            Direction::Left => "Left",
            Direction::Right => "Right",
        }
    }

    /// The direction that the backlash compensator records for this move.
    pub fn to_tracked(&self) -> (t: TrackedDirection)
        ensures
            t == tracked_of(*self),
    {
        match self {
            Direction::Left => TrackedDirection::Left,
            Direction::Right => TrackedDirection::Right,
        }
    }
}

/// What is sent for one move.
#[derive(Debug, Clone, Copy)]
pub struct RotationPlan {
    /// Direction to record once the move is done.
    pub recorded: TrackedDirection,
    /// Backlash pulses added because the move reverses the last one.
    pub backlash_pulses: u32,
    /// Signed pulse count of the command.
    pub final_pulses: i32,
}

/// Signed pulse count of a move of `raw_pulses` in `direction`: rightwards
/// the pulses plus the offset plus the backlash, leftwards the negated pulses
/// plus the offset minus the backlash.
pub open spec fn final_pulses_spec(
    raw_pulses: i32,
    direction: Direction,
    offset_pulses: i32,
    backlash: u32,
) -> int {
    match direction {
        Direction::Right => raw_pulses + offset_pulses + backlash,
        Direction::Left => -raw_pulses + offset_pulses - backlash,
    }
}

/// Whether the pulse count of a move can be formed in `i32` as the
/// controller forms it, left to right, without overflow.
pub open spec fn rotation_fits(
    raw_pulses: i32,
    direction: Direction,
    offset_pulses: i32,
    backlash: u32,
) -> bool {
    let partial = match direction {
        Direction::Right => raw_pulses + offset_pulses,
        Direction::Left => -raw_pulses + offset_pulses,
    };
    &&& raw_pulses > i32::MIN
    &&& i32::MIN <= partial <= i32::MAX
    &&& i32::MIN <= final_pulses_spec(raw_pulses, direction, offset_pulses, backlash) <= i32::MAX
}

/// Plans a move of `raw_pulses` (the pulses of the angle) in `direction`,
/// with the calibration offset and, on a reversal, the backlash.
pub fn plan_rotation(
    backlash: &BacklashCompensator,
    raw_pulses: i32,
    direction: Direction,
    offset_pulses: i32,
) -> (plan: RotationPlan)
    requires
        rotation_fits(
            raw_pulses,
            direction,
            offset_pulses,
            compensation_for(backlash@, tracked_of(direction)),
        ),
    ensures
        plan.recorded == tracked_of(direction),
        plan.backlash_pulses == compensation_for(backlash@, tracked_of(direction)),
        plan.final_pulses == final_pulses_spec(
            raw_pulses,
            direction,
            offset_pulses,
            plan.backlash_pulses,
        ),
{
    let recorded = direction.to_tracked();
    let comp: u32 = backlash.compute_compensation(recorded);
    let comp_i: i32 = comp as i32;
    let final_pulses: i32 = match direction {
        Direction::Right => raw_pulses + offset_pulses + comp_i,
        Direction::Left => -raw_pulses + offset_pulses - comp_i,
    };
    RotationPlan { recorded, backlash_pulses: comp, final_pulses }
}

/// Pulses of a return to origin from a position of `current_pulses`: the
/// negated position minus the calibration offset.
pub fn return_to_origin_pulses(current_pulses: i32, offset_pulses: i32) -> (r: i32)
    requires
        current_pulses > i32::MIN,
        i32::MIN <= -current_pulses - offset_pulses <= i32::MAX,
    ensures
        r == -current_pulses - offset_pulses,
{
    -current_pulses - offset_pulses
}

/// Pulse frequency of a move: the computed frequency brought into the band
/// `[min_freq, max_freq]`, which default to 1000 Hz and 9000 Hz.
pub fn select_frequency(f_calc: u32, min_freq: Option<u32>, max_freq: Option<u32>) -> (f: u32)
    requires
        min_freq.unwrap_or(DEFAULT_MIN_FREQUENCY_HZ) <= max_freq.unwrap_or(
            DEFAULT_MAX_FREQUENCY_HZ,
        ),
    ensures
        ({
            let lo = min_freq.unwrap_or(DEFAULT_MIN_FREQUENCY_HZ);
            let hi = max_freq.unwrap_or(DEFAULT_MAX_FREQUENCY_HZ);
            &&& f == crate::backlash::clamp_spec(f_calc as int, lo as int, hi as int)
            &&& lo <= f <= hi
        }),
{
    let lo: u32 = match min_freq {
        Some(v) => v,
        None => DEFAULT_MIN_FREQUENCY_HZ,
    };
    let hi: u32 = match max_freq {
        Some(v) => v,
        None => DEFAULT_MAX_FREQUENCY_HZ,
    };
    if f_calc < lo {
        lo
    } else if f_calc > hi {
        hi
    } else {
        f_calc
    }
}

/// Signed pulse count of a small-angle move: the pulses of the angle plus
/// the extra compensation pulses, negated for the negative direction.
pub fn small_angle_total(raw_pulses: i32, compensation_pulses: i32, is_positive_direction: bool) -> (r:
    i32)
    requires
        0 <= raw_pulses,
        0 <= compensation_pulses,
        raw_pulses + compensation_pulses <= i32::MAX,
    ensures
        r == if is_positive_direction {
            raw_pulses + compensation_pulses
        } else {
            -(raw_pulses + compensation_pulses)
        },
{
    let total: i32 = raw_pulses + compensation_pulses;
    if is_positive_direction {
        total
    } else {
        -total
    }
}

/// The four registers of a pulse command, in the order they are written:
/// pulses low word, pulses high word, frequency low word, frequency high word.
pub fn pulse_command_registers(pulses: i32, frequency: u32) -> (regs: Vec<u16>)
    ensures
        regs@.len() == 4,
        regs@[0] == low_word(pulses),
        regs@[1] == high_word(pulses),
        regs@[2] == frequency % 0x1_0000,
        regs@[3] == frequency / 0x1_0000,
{
    let (p_low, p_high) = split_i32_words(pulses);
    let (f_low, f_high) = split_u32_words(frequency);
    let mut regs: Vec<u16> = Vec::new();
    regs.push(p_low);
    regs.push(p_high);
    regs.push(f_low);
    regs.push(f_high);
    regs
}

/// Two identical moves in a row send the same pulse count the second time
/// as without any backlash: only a reversal is compensated.
pub proof fn lemma_repeated_move_has_no_backlash(
    s: crate::backlash::BacklashState,
    raw_pulses: i32,
    direction: Direction,
    offset_pulses: i32,
)
    ensures
        ({
            let after = crate::backlash::after_record(s, tracked_of(direction));
            &&& compensation_for(after, tracked_of(direction)) == 0
            &&& final_pulses_spec(
                raw_pulses,
                direction,
                offset_pulses,
                compensation_for(after, tracked_of(direction)),
            ) == final_pulses_spec(raw_pulses, direction, offset_pulses, 0)
        }),
{
}

/// A reversal moves the command by exactly the backlash, in the new
/// direction: further right for a right move, further left for a left move.
pub proof fn lemma_reversal_adds_backlash_in_new_direction(
    s: crate::backlash::BacklashState,
    raw_pulses: i32,
    direction: Direction,
    offset_pulses: i32,
)
    requires
        crate::backlash::is_reversal(s.last_direction, tracked_of(direction)),
    ensures
        final_pulses_spec(
            raw_pulses,
            direction,
            offset_pulses,
            compensation_for(s, tracked_of(direction)),
        ) - final_pulses_spec(raw_pulses, direction, offset_pulses, 0) == match direction {
            Direction::Right => s.backlash_pulses as int,
            Direction::Left => -(s.backlash_pulses as int),
        },
{
}

/// The same move to the right and to the left sends opposite pulse counts
/// around the calibration offset: their sum is twice the offset, and the
/// rightward count exceeds the offset by the pulses plus the backlash.
pub proof fn lemma_left_and_right_are_mirror_images(raw_pulses: i32, offset_pulses: i32, backlash: u32)
    ensures
        final_pulses_spec(raw_pulses, Direction::Right, offset_pulses, backlash)
            + final_pulses_spec(raw_pulses, Direction::Left, offset_pulses, backlash) == 2
            * offset_pulses,
        final_pulses_spec(raw_pulses, Direction::Right, offset_pulses, backlash) - offset_pulses
            == raw_pulses + backlash,
{
}

/// Two disc moves are a reversal for the compensator exactly when their
/// directions differ, and the first move is never one.
pub proof fn lemma_disc_reversal_iff_directions_differ(first: Direction, second: Direction)
    ensures
        crate::backlash::is_reversal(tracked_of(first), tracked_of(second)) <==> first != second,
        !crate::backlash::is_reversal(TrackedDirection::Unknown, tracked_of(second)),
        tracked_of(first) != TrackedDirection::Unknown,
{
}

} // verus!
