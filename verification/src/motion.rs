//! Motion segments of an S-curve move and the integer side of generating
//! them: when a profile is used, how many segments each phase gets, how the
//! pulses are shared out so that none is lost, which phase each segment
//! belongs to, and the total run time of a sequence.
//!
//! The frequencies of the curve itself (the smoothstep shape) and the
//! per-segment run times are floating-point and are computed outside this
//! crate; they come in here as integers.

use vstd::prelude::*;

verus! {

/// Below this many pulses a move is sent as a single command, not a profile.
pub const MIN_PULSES_FOR_PROFILE: u32 = 500;

/// Default start and end frequency of a profile (Hz).
pub const DEFAULT_MIN_FREQUENCY: u32 = 200;

/// Default number of segments of a profile.
pub const DEFAULT_TOTAL_SEGMENTS: u32 = 10;

/// Lowest start frequency a profile accepts (Hz).
pub const MIN_PROFILE_FREQUENCY: u32 = 50;

/// Fewest segments a profile accepts (one per phase).
pub const MIN_TOTAL_SEGMENTS: u32 = 3;

/// Start frequency and segment count of a profile, raised to at least 50 Hz
/// and 3 segments.
pub fn profile_params(min_frequency: u32, total_segments: u32) -> (p: (u32, u32))
    ensures
        p.0 == if min_frequency >= MIN_PROFILE_FREQUENCY {
            min_frequency
        } else {
            MIN_PROFILE_FREQUENCY
        },
        p.1 == if total_segments >= MIN_TOTAL_SEGMENTS {
            total_segments
        } else {
            MIN_TOTAL_SEGMENTS
        },
{
    let f: u32 = if min_frequency >= MIN_PROFILE_FREQUENCY {
        min_frequency
    } else {
        MIN_PROFILE_FREQUENCY
    };
    let n: u32 = if total_segments >= MIN_TOTAL_SEGMENTS {
        total_segments
    } else {
        MIN_TOTAL_SEGMENTS
    };
    (f, n)
}

/// One segment of a move: one pulse command to the PLC.
#[derive(Debug, Clone, Copy, PartialEq)]
pub struct MotionSegment {
    /// Pulses of the segment (signed: positive = right, negative = left).
    pub pulses: i32,
    /// Pulse frequency (Hz).
    pub frequency: u32,
    /// Estimated run time (ms).
    pub duration_ms: u64,
    /// Phase: "accel", "cruise", "decel", or "single" for a single command.
    pub phase: &'static str,
}

/// Magnitude of a signed pulse count.
pub open spec fn magnitude_spec(v: i32) -> nat {
    if v < 0 {
        (-v) as nat
    } else {
        v as nat
    }
}

/// Magnitude of a signed pulse count, as `u32` (no overflow for `i32::MIN`).
pub fn magnitude(v: i32) -> (r: u32)
    ensures
        r == magnitude_spec(v),
{
    if v < 0 {
        (-(v as i64)) as u32
    } else {
        v as u32
    }
}

/// Whether a move of `total_pulses` is large enough for an S-curve profile.
pub fn should_use_profile(total_pulses: i32) -> (b: bool)
    ensures
        b == (magnitude_spec(total_pulses) >= MIN_PULSES_FOR_PROFILE),
{
    magnitude(total_pulses) >= MIN_PULSES_FOR_PROFILE
}

/// Peak frequency of a profile: the requested one, but at least 100 Hz
/// above the start frequency.
pub fn peak_frequency(max_frequency: u32, min_frequency: u32) -> (f: u32)
    requires
        min_frequency + 100 <= u32::MAX,
    ensures
        f == if max_frequency >= min_frequency + 100 {
            max_frequency as int
        } else {
            min_frequency + 100
        },
{
    let floor: u32 = min_frequency + 100;
    if max_frequency >= floor {
        max_frequency
    } else {
        floor
    }
}

/// Segment counts of the three phases, from the rounded shares of the
/// acceleration and deceleration phases: each phase gets at least one
/// segment, the cruise phase what is left of `total_segments`.
pub fn phase_segment_counts(total_segments: u32, accel_rounded: u32, decel_rounded: u32) -> (counts:
    (u32, u32, u32))
    requires
        (if accel_rounded >= 1 {
            accel_rounded as int
        } else {
            1
        }) + (if decel_rounded >= 1 {
            decel_rounded as int
        } else {
            1
        }) <= u32::MAX,
    ensures
        counts.0 == if accel_rounded >= 1 {
            accel_rounded
        } else {
            1
        },
        counts.2 == if decel_rounded >= 1 {
            decel_rounded
        } else {
            1
        },
        counts.1 == if total_segments > counts.0 + counts.2 {
            total_segments - (counts.0 + counts.2)
        } else {
            1
        },
        counts.0 >= 1 && counts.1 >= 1 && counts.2 >= 1,
{
    let n_accel: u32 = if accel_rounded >= 1 {
        accel_rounded
    } else {
        1
    };
    let n_decel: u32 = if decel_rounded >= 1 {
        decel_rounded
    } else {
        1
    };
    let ends: u32 = n_accel + n_decel;
    let n_cruise: u32 = if total_segments > ends {
        total_segments - ends
    } else {
        1
    };
    (n_accel, n_cruise, n_decel)
}

/// Pulses given to the segments before segment `i` when `total` pulses are
/// shared out by `shares`: each segment but the last gets its share (at
/// least 1, at most what is left), the last gets what is left.
pub open spec fn allocated_before(total: nat, shares: Seq<u32>, i: nat) -> nat
    decreases i,
{
    if i == 0 {
        0
    } else {
        let a = allocated_before(total, shares, (i - 1) as nat);
        let left = if a <= total {
            (total - a) as nat
        } else {
            0
        };
        let wanted: nat = if shares[i - 1] >= 1 {
            shares[i - 1] as nat
        } else {
            1
        };
        a + if i - 1 == shares.len() - 1 {
            left
        } else if wanted <= left {
            wanted
        } else {
            left
        }
    }
}

/// Pulses of segment `i` in the sharing out described by `allocated_before`.
pub open spec fn segment_pulses(total: nat, shares: Seq<u32>, i: nat) -> int {
    allocated_before(total, shares, i + 1) - allocated_before(total, shares, i)
}

/// Shares out `total_pulses` over the segments: segment `i` asks for
/// `shares[i]` pulses (at least 1); it gets that, or what is left if less;
/// the last segment gets all that is left, so that no pulse is lost.
pub fn allocate_segment_pulses(total_pulses: u32, shares: &Vec<u32>) -> (out: Vec<u32>)
    requires
        shares@.len() >= 1,
    ensures
        out@.len() == shares@.len(),
        forall|i: int|
            0 <= i < out@.len() ==> #[trigger] out@[i] == segment_pulses(
                total_pulses as nat,
                shares@,
                i as nat,
            ),
{
    let n = shares.len();
    let mut out: Vec<u32> = Vec::new();
    let mut allocated: u32 = 0;
    for idx in 0..n
        invariant
            n == shares@.len(),
            n >= 1,
            out@.len() == idx,
            allocated == allocated_before(total_pulses as nat, shares@, idx as nat),
            allocated <= total_pulses,
            forall|i: int|
                0 <= i < idx ==> #[trigger] out@[i] == segment_pulses(
                    total_pulses as nat,
                    shares@,
                    i as nat,
                ),
    {
        let left: u32 = total_pulses - allocated;
        let seg: u32 = if idx == n - 1 {
            left
        } else {
            let wanted: u32 = if shares[idx] >= 1 {
                shares[idx]
            } else {
                1
            };
            if wanted <= left {
                wanted
            } else {
                left
            }
        };
        assert(allocated_before(total_pulses as nat, shares@, (idx + 1) as nat) == allocated + seg);
        allocated = allocated + seg;
        out.push(seg);
    }
    out
}

/// Phase name of segment `idx`: the first `n_accel` segments accelerate, the
/// next `n_cruise` cruise, the rest decelerate.
pub open spec fn phase_name(idx: int, n_accel: u32, n_cruise: u32) -> Seq<char> {
    if idx < n_accel {
        "accel"@
    } else if idx < n_accel + n_cruise {
        "cruise"@
    } else {
        "decel"@
    }
}

/// Order of a phase within a profile (accel, then cruise, then decel).
pub open spec fn phase_rank(idx: int, n_accel: u32, n_cruise: u32) -> int {
    if idx < n_accel {
        0
    } else if idx < n_accel + n_cruise {
        1
    } else {
        2
    }
}

/// Phase name of segment `idx` of a profile.
pub fn segment_phase(idx: usize, n_accel: u32, n_cruise: u32) -> (p: &'static str)
    ensures
        p@ == phase_name(idx as int, n_accel, n_cruise),
{
    if (idx as u64) < (n_accel as u64) {
        "accel"
    } else if (idx as u64) < (n_accel as u64) + (n_cruise as u64) {
        "cruise"
    } else {
        "decel"
    }
}

/// Signed pulses of a segment of a move of `total_pulses`.
pub open spec fn signed_segment(total_pulses: i32, magnitude: int) -> int {
    if total_pulses >= 0 {
        magnitude
    } else {
        -magnitude
    }
}

/// Frequency of a segment: its rounded curve frequency, raised to at least
/// the start frequency of the profile.
pub fn segment_frequency(rounded_frequency: u32, min_frequency: u32) -> (f: u32)
    ensures
        f == if rounded_frequency >= min_frequency {
            rounded_frequency
        } else {
            min_frequency
        },
{
    if rounded_frequency >= min_frequency {
        rounded_frequency
    } else {
        min_frequency
    }
}

/// Builds the segments of a profile: each gets the sign of the move, its
/// frequency, its run time and the name of its phase.
pub fn assemble_segments(
    total_pulses: i32,
    n_accel: u32,
    n_cruise: u32,
    seg_pulses: &Vec<u32>,
    frequencies: &Vec<u32>,
    durations_ms: &Vec<u64>,
) -> (segs: Vec<MotionSegment>)
    requires
        frequencies@.len() == seg_pulses@.len(),
        durations_ms@.len() == seg_pulses@.len(),
        forall|i: int| 0 <= i < seg_pulses@.len() ==> #[trigger] seg_pulses@[i] <= i32::MAX,
    ensures
        segs@.len() == seg_pulses@.len(),
        forall|i: int|
            0 <= i < segs@.len() ==> {
                &&& (#[trigger] segs@[i]).pulses == signed_segment(total_pulses, seg_pulses@[i] as int)
                &&& segs@[i].frequency == frequencies@[i]
                &&& segs@[i].duration_ms == durations_ms@[i]
                &&& segs@[i].phase@ == phase_name(i, n_accel, n_cruise)
            },
{
    let n = seg_pulses.len();
    let mut segs: Vec<MotionSegment> = Vec::new();
    for idx in 0..n
        invariant
            n == seg_pulses@.len(),
            frequencies@.len() == n,
            durations_ms@.len() == n,
            forall|i: int| 0 <= i < n ==> #[trigger] seg_pulses@[i] <= i32::MAX,
            segs@.len() == idx,
            forall|i: int|
                0 <= i < idx ==> {
                    &&& (#[trigger] segs@[i]).pulses == signed_segment(
                        total_pulses,
                        seg_pulses@[i] as int,
                    )
                    &&& segs@[i].frequency == frequencies@[i]
                    &&& segs@[i].duration_ms == durations_ms@[i]
                    &&& segs@[i].phase@ == phase_name(i, n_accel, n_cruise)
                },
    {
        let magnitude: i32 = seg_pulses[idx] as i32;
        let pulses: i32 = if total_pulses >= 0 {
            magnitude
        } else {
            -magnitude
        };
        let frequency: u32 = frequencies[idx];
        let phase = segment_phase(idx, n_accel, n_cruise);
        segs.push(MotionSegment { pulses, frequency, duration_ms: durations_ms[idx], phase });
    }
    segs
}

/// Sum of the run times of `segs`.
pub open spec fn duration_sum(segs: Seq<MotionSegment>) -> int
    decreases segs.len(),
{
    if segs.len() == 0 {
        0
    } else {
        duration_sum(segs.drop_last()) + segs.last().duration_ms
    }
}

/// Sum of the pulses of `segs`.
pub open spec fn pulse_sum(segs: Seq<MotionSegment>) -> int
    decreases segs.len(),
{
    if segs.len() == 0 {
        0
    } else {
        pulse_sum(segs.drop_last()) + segs.last().pulses
    }
}

/// Total run time of a sequence of segments (ms).
pub fn total_duration_ms(segments: &[MotionSegment]) -> (total: u64)
    requires
        duration_sum(segments@) <= u64::MAX,
    ensures
        total == duration_sum(segments@),
{
    let n = segments.len();
    let mut total: u64 = 0;
    for idx in 0..n
        invariant
            n == segments@.len(),
            duration_sum(segments@) <= u64::MAX,
            total == duration_sum(segments@.take(idx as int)),
    {
        proof {
            assert(segments@.take(idx + 1).drop_last() =~= segments@.take(idx as int));
            lemma_duration_sum_prefix_bounded(segments@, idx + 1);
        }
        total = total + segments[idx].duration_ms;
    }
    assert(segments@.take(n as int) =~= segments@);
    total
}

/// The total run time is the plain sum of the segment run times: nothing for
/// no segment, and each further segment adds exactly its own run time,
/// whatever its position in the sequence.
pub proof fn lemma_duration_sum_adds_each_segment(segs: Seq<MotionSegment>, seg: MotionSegment)
    ensures
        duration_sum(Seq::<MotionSegment>::empty()) == 0,
        duration_sum(segs.push(seg)) == duration_sum(segs) + seg.duration_ms,
        duration_sum(seq![seg]) == seg.duration_ms,
{
    assert(segs.push(seg).drop_last() =~= segs);
    assert(seq![seg].drop_last() =~= Seq::<MotionSegment>::empty());
}

/// The total run time of two sequences run one after the other is the sum
/// of their totals.
pub proof fn lemma_duration_sum_of_concatenation(a: Seq<MotionSegment>, b: Seq<MotionSegment>)
    ensures
        duration_sum(a + b) == duration_sum(a) + duration_sum(b),
    decreases b.len(),
{
    if b.len() == 0 {
        assert(a + b =~= a);
    } else {
        lemma_duration_sum_of_concatenation(a, b.drop_last());
        assert((a + b).drop_last() =~= a + b.drop_last());
        assert((a + b).last() == b.last());
    }
}

/// The pulses of a sequence are the plain sum of the segment pulses.
pub proof fn lemma_pulse_sum_adds_each_segment(segs: Seq<MotionSegment>, seg: MotionSegment)
    ensures
        pulse_sum(Seq::<MotionSegment>::empty()) == 0,
        pulse_sum(segs.push(seg)) == pulse_sum(segs) + seg.pulses,
{
    assert(segs.push(seg).drop_last() =~= segs);
}

/// `magnitude_spec` is the absolute value: never negative, and the value or
/// its negation.
pub proof fn lemma_magnitude_is_absolute_value(v: i32)
    ensures
        magnitude_spec(v) >= 0,
        magnitude_spec(v) == v || magnitude_spec(v) == -v,
        magnitude_spec(v) >= v && magnitude_spec(v) >= -v,
{
}

/// The run time of a prefix is at most that of the whole sequence.
proof fn lemma_duration_sum_prefix_bounded(segs: Seq<MotionSegment>, k: int)
    requires
        0 <= k <= segs.len(),
    ensures
        duration_sum(segs.take(k)) <= duration_sum(segs),
    decreases segs.len() - k,
{
    if k < segs.len() {
        lemma_duration_sum_prefix_bounded(segs, k + 1);
        assert(segs.take(k + 1).drop_last() =~= segs.take(k));
    } else {
        assert(segs.take(k) =~= segs);
    }
}

/// While no segment before `i` is clipped, everything given out so far is
/// at most the total.
proof fn lemma_allocated_bounded(total: nat, shares: Seq<u32>, i: nat)
    requires
        i <= shares.len(),
    ensures
        allocated_before(total, shares, i) <= total,
    decreases i,
{
    if i > 0 {
        lemma_allocated_bounded(total, shares, (i - 1) as nat);
    }
}

/// Pulse conservation: sharing out `total` pulses over one or more segments
/// gives out exactly `total`, and no segment gets a negative count.
pub proof fn lemma_allocation_conserves_pulses(total: nat, shares: Seq<u32>)
    requires
        shares.len() >= 1,
    ensures
        allocated_before(total, shares, shares.len()) == total,
        forall|i: nat| i < shares.len() ==> #[trigger] segment_pulses(total, shares, i) >= 0,
{
    lemma_allocated_bounded(total, shares, (shares.len() - 1) as nat);
    assert forall|i: nat| i < shares.len() implies #[trigger] segment_pulses(total, shares, i)
        >= 0 by {
        lemma_allocated_bounded(total, shares, i);
    }
}

/// When the shares before the last segment (each raised to 1) add up to
/// less than `total`, every segment but the last gets exactly its share and
/// every segment, the last included, gets at least one pulse.
pub proof fn lemma_every_segment_moves(total: nat, shares: Seq<u32>, wanted_sum: nat)
    requires
        shares.len() >= 1,
        wanted_sum == wanted_prefix(shares, (shares.len() - 1) as nat),
        wanted_sum < total,
    ensures
        forall|i: nat| i < shares.len() ==> #[trigger] segment_pulses(total, shares, i) >= 1,
        forall|i: nat|
            i + 1 < shares.len() ==> #[trigger] segment_pulses(total, shares, i) == if shares[i as int]
                >= 1 {
                shares[i as int] as int
            } else {
                1
            },
{
    assert forall|i: nat| i <= shares.len() - 1 implies allocated_before(total, shares, i)
        == wanted_prefix(shares, i) by {
        lemma_prefix_unclipped(total, shares, i);
    }
    assert forall|i: nat| i < shares.len() implies #[trigger] segment_pulses(total, shares, i)
        >= 1 by {
        lemma_prefix_unclipped(total, shares, i);
        if i + 1 < shares.len() {
            lemma_prefix_unclipped(total, shares, i + 1);
        }
    }
    assert forall|i: nat| i + 1 < shares.len() implies #[trigger] segment_pulses(total, shares, i)
        == if shares[i as int] >= 1 {
        shares[i as int] as int
    } else {
        1
    } by {
        lemma_prefix_unclipped(total, shares, i);
        lemma_prefix_unclipped(total, shares, i + 1);
    }
}

/// Sum of the first `i` shares, each raised to at least 1.
pub open spec fn wanted_prefix(shares: Seq<u32>, i: nat) -> nat
    decreases i,
{
    if i == 0 {
        0
    } else {
        wanted_prefix(shares, (i - 1) as nat) + if shares[i - 1] >= 1 {
            shares[i - 1] as nat
        } else {
            1nat
        }
    }
}

proof fn lemma_wanted_prefix_monotone(shares: Seq<u32>, i: nat, j: nat)
    requires
        i <= j,
    ensures
        wanted_prefix(shares, i) + (j - i) <= wanted_prefix(shares, j),
    decreases j,
{
    if i < j {
        lemma_wanted_prefix_monotone(shares, i, (j - 1) as nat);
    }
}

proof fn lemma_prefix_unclipped(total: nat, shares: Seq<u32>, i: nat)
    requires
        shares.len() >= 1,
        i <= shares.len() - 1,
        wanted_prefix(shares, (shares.len() - 1) as nat) < total,
    ensures
        allocated_before(total, shares, i) == wanted_prefix(shares, i),
    decreases i,
{
    if i > 0 {
        lemma_prefix_unclipped(total, shares, (i - 1) as nat);
        lemma_wanted_prefix_monotone(shares, i, (shares.len() - 1) as nat);
    }
}

/// Pulse conservation of a whole profile: when the segments carry the sign
/// of the move and the magnitudes of a sharing out of its size, their pulses
/// add up to the move.
pub proof fn lemma_profile_conserves_pulses(
    total_pulses: i32,
    shares: Seq<u32>,
    segs: Seq<MotionSegment>,
)
    requires
        shares.len() >= 1,
        segs.len() == shares.len(),
        forall|i: int|
            0 <= i < segs.len() ==> #[trigger] segs[i].pulses == signed_segment(
                total_pulses,
                segment_pulses(magnitude_spec(total_pulses), shares, i as nat),
            ),
    ensures
        pulse_sum(segs) == total_pulses,
{
    let total = magnitude_spec(total_pulses);
    lemma_allocation_conserves_pulses(total, shares);
    assert forall|k: nat| k <= segs.len() implies pulse_sum(#[trigger] segs.take(k as int))
        == signed_segment(total_pulses, allocated_before(total, shares, k) as int) by {
        lemma_pulse_sum_prefix(total_pulses, shares, segs, k);
    }
    assert(segs.take(segs.len() as int) =~= segs);
}

proof fn lemma_pulse_sum_prefix(
    total_pulses: i32,
    shares: Seq<u32>,
    segs: Seq<MotionSegment>,
    k: nat,
)
    requires
        shares.len() >= 1,
        segs.len() == shares.len(),
        k <= segs.len(),
        forall|i: int|
            0 <= i < segs.len() ==> #[trigger] segs[i].pulses == signed_segment(
                total_pulses,
                segment_pulses(magnitude_spec(total_pulses), shares, i as nat),
            ),
    ensures
        pulse_sum(segs.take(k as int)) == signed_segment(
            total_pulses,
            allocated_before(magnitude_spec(total_pulses), shares, k) as int,
        ),
    decreases k,
{
    if k > 0 {
        lemma_pulse_sum_prefix(total_pulses, shares, segs, (k - 1) as nat);
        assert(segs.take(k as int).drop_last() =~= segs.take(k - 1));
        assert(segs.take(k as int).last() == segs[k - 1]);
    }
}

/// Phases come in order: every accelerating segment comes before every
/// cruising one, and every cruising one before every decelerating one.
pub proof fn lemma_phases_in_order(i: int, j: int, n_accel: u32, n_cruise: u32)
    requires
        0 <= i <= j,
    ensures
        phase_rank(i, n_accel, n_cruise) <= phase_rank(j, n_accel, n_cruise),
        phase_name(i, n_accel, n_cruise) == (if phase_rank(i, n_accel, n_cruise) == 0 {
            "accel"@
        } else if phase_rank(i, n_accel, n_cruise) == 1 {
            "cruise"@
        } else {
            "decel"@
        }),
{
}

/// Phase law: the first `n_accel` segments accelerate, the next `n_cruise`
/// cruise and all later ones decelerate.
pub proof fn lemma_phase_counts(i: int, n_accel: u32, n_cruise: u32)
    requires
        0 <= i,
    ensures
        phase_name(i, n_accel, n_cruise) == "accel"@ <==> i < n_accel,
        phase_name(i, n_accel, n_cruise) == "cruise"@ <==> n_accel <= i < n_accel + n_cruise,
        phase_name(i, n_accel, n_cruise) == "decel"@ <==> n_accel + n_cruise <= i,
{
    reveal_strlit("accel");
    reveal_strlit("cruise");
    reveal_strlit("decel");
    assert("accel"@ != "cruise"@ && "accel"@ != "decel"@ && "cruise"@ != "decel"@) by {
        assert("accel"@[0] != "cruise"@[0]);
        assert("accel"@[0] != "decel"@[0]);
        assert("cruise"@[0] != "decel"@[0]);
    }
}

} // verus!
