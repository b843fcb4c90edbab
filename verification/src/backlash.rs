//! Backlash compensation on reversal: the gear train has a gap that the motor
//! crosses without moving the disc whenever it changes direction, so a
//! reversal gets extra pulses. This module tracks the direction of the last
//! move, counts reversals and keeps the learned backlash within safe bounds.

use vstd::prelude::*;

verus! {

/// Default backlash (pulses), about 0.3 degrees.
pub const DEFAULT_BACKLASH_PULSES: u32 = 109;

/// Largest backlash that is applied (pulses), about 1 degree.
pub const MAX_BACKLASH_PULSES: u32 = 364;

/// Smallest backlash that is applied (pulses), so that learning never drives
/// it to zero.
pub const MIN_BACKLASH_PULSES: u32 = 10;

/// Direction of the last move as the compensator records it.
#[derive(Debug, Clone, Copy, PartialEq, Eq, Structural)]
pub enum TrackedDirection {
    /// No move recorded yet.
    Unknown,
    /// Leftwards (negative pulses).
    Left,
    /// Rightwards (positive pulses).
    Right,
}

impl TrackedDirection {
    /// The name of the direction, as it is displayed.
    pub fn as_str(&self) -> (s: &'static str)
        ensures
            s@ == match *self {
                TrackedDirection::Unknown => "Unknown"@,
                TrackedDirection::Left => "Left"@,
                TrackedDirection::Right => "Right"@,
            },
    {
        match self {
            TrackedDirection::Unknown => "Unknown",
            TrackedDirection::Left => "Left",
            TrackedDirection::Right => "Right",
        }
    }
}

impl Default for TrackedDirection {
    fn default() -> (d: Self)
        ensures
            d == TrackedDirection::Unknown,
    {
        TrackedDirection::Unknown
    }
}

/// `value` brought into `[lo, hi]`.
pub open spec fn clamp_spec(value: int, lo: int, hi: int) -> int {
    if value < lo {
        lo
    } else if value > hi {
        hi
    } else {
        value
    }
}

/// Brings a backlash value into `[MIN_BACKLASH_PULSES, MAX_BACKLASH_PULSES]`.
pub fn clamp_backlash(value: u32) -> (r: u32)
    ensures
        r == clamp_spec(value as int, MIN_BACKLASH_PULSES as int, MAX_BACKLASH_PULSES as int),
{
    if value < MIN_BACKLASH_PULSES {
        MIN_BACKLASH_PULSES
    } else if value > MAX_BACKLASH_PULSES {
        MAX_BACKLASH_PULSES
    } else {
        value
    }
}

/// Abstract state of the compensator.
pub struct BacklashState {
    /// Backlash applied on reversal (pulses).
    pub backlash_pulses: u32,
    /// Direction of the last recorded move.
    pub last_direction: TrackedDirection,
    /// Number of reversals recorded.
    pub reversal_count: u32,
}

/// Whether a move in `next` after a move in `last` is a reversal: there was a
/// previous move and its direction differs.
pub open spec fn is_reversal(last: TrackedDirection, next: TrackedDirection) -> bool {
    last != TrackedDirection::Unknown && last != next
}

/// Pulses added to a move in `next`: the backlash on a reversal, else 0.
pub open spec fn compensation_for(s: BacklashState, next: TrackedDirection) -> u32 {
    if is_reversal(s.last_direction, next) {
        s.backlash_pulses
    } else {
        0
    }
}

/// The state after recording a move in `direction`.
pub open spec fn after_record(s: BacklashState, direction: TrackedDirection) -> BacklashState {
    BacklashState {
        backlash_pulses: s.backlash_pulses,
        last_direction: direction,
        reversal_count: if is_reversal(s.last_direction, direction) {
            (s.reversal_count + 1) as u32
        } else {
            s.reversal_count
        },
    }
}

/// The state after recording each move of `moves` in turn.
pub open spec fn after_records(s: BacklashState, moves: Seq<TrackedDirection>) -> BacklashState
    decreases moves.len(),
{
    if moves.len() == 0 {
        s
    } else {
        after_records(after_record(s, moves[0]), moves.drop_first())
    }
}

/// Number of reversals in `moves` when the move before them was in `last`.
pub open spec fn reversals_in(last: TrackedDirection, moves: Seq<TrackedDirection>) -> nat
    decreases moves.len(),
{
    if moves.len() == 0 {
        0
    } else {
        (if is_reversal(last, moves[0]) {
            1nat
        } else {
            0nat
        }) + reversals_in(moves[0], moves.drop_first())
    }
}

/// Tracks the direction of the last move and adds the backlash to a move
/// that reverses it.
#[derive(Debug, Clone, Copy)]
pub struct BacklashCompensator {
    backlash_pulses: u32,
    last_direction: TrackedDirection,
    reversal_count: u32,
}

impl View for BacklashCompensator {
    type V = BacklashState;

    closed spec fn view(&self) -> BacklashState {
        BacklashState {
            backlash_pulses: self.backlash_pulses,
            last_direction: self.last_direction,
            reversal_count: self.reversal_count,
        }
    }
}

impl BacklashCompensator {
    /// The applied backlash always lies within its safe bounds.
    #[verifier::type_invariant]
    spec fn backlash_in_bounds(&self) -> bool {
        MIN_BACKLASH_PULSES <= self.backlash_pulses <= MAX_BACKLASH_PULSES
    }

    /// Compensator with the default backlash of 109 pulses and no move recorded.
    pub fn new() -> (c: Self)
        ensures
            c@ == (BacklashState {
                backlash_pulses: DEFAULT_BACKLASH_PULSES,
                last_direction: TrackedDirection::Unknown,
                reversal_count: 0,
            }),
    {
        BacklashCompensator {
            backlash_pulses: DEFAULT_BACKLASH_PULSES,
            last_direction: TrackedDirection::Unknown,
            reversal_count: 0,
        }
    }

    /// Compensator with a chosen initial backlash, clamped to the safe bounds.
    pub fn with_backlash_pulses(backlash_pulses: u32) -> (c: Self)
        ensures
            c@ == (BacklashState {
                backlash_pulses: clamp_spec(
                    backlash_pulses as int,
                    MIN_BACKLASH_PULSES as int,
                    MAX_BACKLASH_PULSES as int,
                ) as u32,
                last_direction: TrackedDirection::Unknown,
                reversal_count: 0,
            }),
    {
        BacklashCompensator {
            backlash_pulses: clamp_backlash(backlash_pulses),
            last_direction: TrackedDirection::Unknown,
            reversal_count: 0,
        }
    }

    /// Pulses to add to a move in `new_direction`: 0 for the first move and
    /// for a move in the same direction as the last, the backlash on a
    /// reversal. Does not record the move.
    pub fn compute_compensation(&self, new_direction: TrackedDirection) -> (r: u32)
        ensures
            r == compensation_for(self@, new_direction),
            r <= MAX_BACKLASH_PULSES,
    {
        proof {
            use_type_invariant(self);
        }
        match self.last_direction {
            TrackedDirection::Unknown => 0,
            prev => if prev == new_direction {
                0
            } else {
                self.backlash_pulses
            },
        }
    }

    /// Records a move that was carried out, counting it if it reverses the
    /// last one.
    pub fn record_direction(&mut self, direction: TrackedDirection)
        requires
            is_reversal(old(self)@.last_direction, direction) ==> old(self)@.reversal_count
                < u32::MAX,
        ensures
            final(self)@ == after_record(old(self)@, direction),
    {
        proof {
            use_type_invariant(&*self);
        }
        if self.last_direction != TrackedDirection::Unknown && self.last_direction != direction {
            self.reversal_count = self.reversal_count + 1;
        }
        self.last_direction = direction;
    }

    /// Stores a newly learned backlash value, clamped to the safe bounds.
    /// The direction and the reversal count are kept.
    pub fn apply_learned_backlash(&mut self, learned_pulses: u32)
        ensures
            final(self)@ == (BacklashState {
                backlash_pulses: clamp_spec(
                    learned_pulses as int,
                    MIN_BACKLASH_PULSES as int,
                    MAX_BACKLASH_PULSES as int,
                ) as u32,
                ..old(self)@
            }),
    {
        self.backlash_pulses = clamp_backlash(learned_pulses);
    }

    /// Forgets the direction of the last move (after a return to origin), so
    /// that the next move is treated as a first move.
    pub fn reset_direction(&mut self)
        ensures
            final(self)@ == (BacklashState {
                last_direction: TrackedDirection::Unknown,
                ..old(self)@
            }),
    {
        proof {
            use_type_invariant(&*self);
        }
        self.last_direction = TrackedDirection::Unknown;
    }

    /// Current backlash (pulses), always within the safe bounds.
    pub fn get_backlash_pulses(&self) -> (r: u32)
        ensures
            r == self@.backlash_pulses,
            MIN_BACKLASH_PULSES <= r <= MAX_BACKLASH_PULSES,
    {
        proof {
            use_type_invariant(self);
        }
        self.backlash_pulses
    }

    /// Direction of the last recorded move.
    pub fn get_last_direction(&self) -> (r: TrackedDirection)
        ensures
            r == self@.last_direction,
    {
        self.last_direction
    }

    /// Number of reversals recorded.
    pub fn get_reversal_count(&self) -> (r: u32)
        ensures
            r == self@.reversal_count,
    {
        self.reversal_count
    }
}

impl Default for BacklashCompensator {
    fn default() -> (c: Self)
        ensures
            c@ == (BacklashState {
                backlash_pulses: DEFAULT_BACKLASH_PULSES,
                last_direction: TrackedDirection::Unknown,
                reversal_count: 0,
            }),
    {
        BacklashCompensator::new()
    }
}

/// Clamping brings any value into `[lo, hi]`, leaves a value already there
/// unchanged, and keeps the order of values.
pub proof fn lemma_clamp_spec_is_clamp(value: int, other: int, lo: int, hi: int)
    requires
        lo <= hi,
    ensures
        lo <= clamp_spec(value, lo, hi) <= hi,
        lo <= value <= hi ==> clamp_spec(value, lo, hi) == value,
        value <= other ==> clamp_spec(value, lo, hi) <= clamp_spec(other, lo, hi),
{
}

/// A move in the direction just recorded never gets compensation: only a
/// change of direction does.
pub proof fn lemma_same_direction_needs_no_compensation(
    s: BacklashState,
    direction: TrackedDirection,
)
    ensures
        compensation_for(after_record(s, direction), direction) == 0,
{
}

/// After the direction is forgotten, no move gets compensation.
pub proof fn lemma_reset_clears_compensation(s: BacklashState, next: TrackedDirection)
    ensures
        compensation_for(BacklashState { last_direction: TrackedDirection::Unknown, ..s }, next)
            == 0,
{
}

/// A move gets compensation exactly when it reverses the last recorded move
/// (the applied backlash is never zero).
pub proof fn lemma_compensation_iff_reversal(s: BacklashState, next: TrackedDirection)
    requires
        MIN_BACKLASH_PULSES <= s.backlash_pulses <= MAX_BACKLASH_PULSES,
    ensures
        compensation_for(s, next) > 0 <==> is_reversal(s.last_direction, next),
        compensation_for(s, next) <= MAX_BACKLASH_PULSES,
{
}

/// The reversal counter counts exactly the reversals among the recorded
/// moves, and recording leaves the backlash unchanged.
pub proof fn lemma_reversal_count_counts_reversals(s: BacklashState, moves: Seq<TrackedDirection>)
    requires
        s.reversal_count + moves.len() <= u32::MAX,
    ensures
        after_records(s, moves).reversal_count == s.reversal_count + reversals_in(
            s.last_direction,
            moves,
        ),
        after_records(s, moves).backlash_pulses == s.backlash_pulses,
        reversals_in(s.last_direction, moves) <= moves.len(),
    decreases moves.len(),
{
    if moves.len() > 0 {
        let s1 = after_record(s, moves[0]);
        lemma_reversal_count_counts_reversals(s1, moves.drop_first());
    }
}

} // verus!
