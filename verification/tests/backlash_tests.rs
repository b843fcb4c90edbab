use loading_system::backlash::{
    clamp_backlash, BacklashCompensator, TrackedDirection, DEFAULT_BACKLASH_PULSES,
    MAX_BACKLASH_PULSES, MIN_BACKLASH_PULSES,
};

#[test]
fn test_no_compensation_on_first_move() {
    let comp = BacklashCompensator::new();
    assert_eq!(comp.compute_compensation(TrackedDirection::Right), 0);
}

#[test]
fn test_no_compensation_same_direction() {
    let mut comp = BacklashCompensator::new();
    comp.record_direction(TrackedDirection::Right);
    assert_eq!(comp.compute_compensation(TrackedDirection::Right), 0);
}

#[test]
fn test_compensation_on_reversal_right_to_left() {
    let mut comp = BacklashCompensator::new();
    comp.record_direction(TrackedDirection::Right);
    let compensation = comp.compute_compensation(TrackedDirection::Left);
    assert_eq!(compensation, DEFAULT_BACKLASH_PULSES);
}

#[test]
fn test_compensation_on_reversal_left_to_right() {
    let mut comp = BacklashCompensator::new();
    comp.record_direction(TrackedDirection::Left);
    let compensation = comp.compute_compensation(TrackedDirection::Right);
    assert_eq!(compensation, DEFAULT_BACKLASH_PULSES);
}

#[test]
fn test_no_compensation_after_same_direction_recorded() {
    let mut comp = BacklashCompensator::new();
    comp.record_direction(TrackedDirection::Right);
    assert_eq!(comp.compute_compensation(TrackedDirection::Right), 0);
    comp.record_direction(TrackedDirection::Right);
    assert_eq!(comp.compute_compensation(TrackedDirection::Right), 0);
}

#[test]
fn test_multiple_reversals() {
    let mut comp = BacklashCompensator::new();

    comp.record_direction(TrackedDirection::Right);
    assert_eq!(comp.compute_compensation(TrackedDirection::Left), DEFAULT_BACKLASH_PULSES);

    comp.record_direction(TrackedDirection::Left);
    assert_eq!(comp.compute_compensation(TrackedDirection::Right), DEFAULT_BACKLASH_PULSES);
}

#[test]
fn test_reversal_count() {
    let mut comp = BacklashCompensator::new();
    assert_eq!(comp.get_reversal_count(), 0);

    comp.record_direction(TrackedDirection::Right);
    assert_eq!(comp.get_reversal_count(), 0);

    comp.record_direction(TrackedDirection::Left);
    assert_eq!(comp.get_reversal_count(), 1);

    comp.record_direction(TrackedDirection::Right);
    assert_eq!(comp.get_reversal_count(), 2);

    comp.record_direction(TrackedDirection::Right);
    assert_eq!(comp.get_reversal_count(), 2);
}

#[test]
fn test_reset_direction() {
    let mut comp = BacklashCompensator::new();
    comp.record_direction(TrackedDirection::Right);
    comp.reset_direction();
    assert_eq!(comp.get_last_direction(), TrackedDirection::Unknown);
    assert_eq!(comp.compute_compensation(TrackedDirection::Left), 0);
}

#[test]
fn backlash_defaults() {
    let comp = BacklashCompensator::default();
    assert_eq!(comp.get_backlash_pulses(), 109);
    assert_eq!(comp.get_last_direction(), TrackedDirection::Unknown);
    assert_eq!(TrackedDirection::default(), TrackedDirection::Unknown);
}

#[test]
fn backlash_clamping() {
    assert_eq!(clamp_backlash(0), MIN_BACKLASH_PULSES);
    assert_eq!(clamp_backlash(9), 10);
    assert_eq!(clamp_backlash(10), 10);
    assert_eq!(clamp_backlash(200), 200);
    assert_eq!(clamp_backlash(364), 364);
    assert_eq!(clamp_backlash(365), MAX_BACKLASH_PULSES);
    assert_eq!(BacklashCompensator::with_backlash_pulses(0).get_backlash_pulses(), 10);
    assert_eq!(BacklashCompensator::with_backlash_pulses(200).get_backlash_pulses(), 200);
    assert_eq!(BacklashCompensator::with_backlash_pulses(100_000).get_backlash_pulses(), 364);
}

#[test]
fn backlash_learned_value_is_clamped_and_state_kept() {
    let mut comp = BacklashCompensator::new();
    comp.record_direction(TrackedDirection::Left);
    comp.record_direction(TrackedDirection::Right);
    comp.apply_learned_backlash(123);
    assert_eq!(comp.get_backlash_pulses(), 123);
    comp.apply_learned_backlash(5000);
    assert_eq!(comp.get_backlash_pulses(), 364);
    comp.apply_learned_backlash(0);
    assert_eq!(comp.get_backlash_pulses(), 10);
    assert_eq!(comp.get_reversal_count(), 1);
    assert_eq!(comp.get_last_direction(), TrackedDirection::Right);
    assert_eq!(comp.compute_compensation(TrackedDirection::Left), 10);
}

#[test]
fn backlash_reversal_towards_unknown_is_compensated() {
    let mut comp = BacklashCompensator::new();
    comp.record_direction(TrackedDirection::Left);
    assert_eq!(comp.compute_compensation(TrackedDirection::Unknown), DEFAULT_BACKLASH_PULSES);
}

#[test]
fn backlash_direction_names() {
    assert_eq!(TrackedDirection::Unknown.as_str(), "Unknown");
    assert_eq!(TrackedDirection::Left.as_str(), "Left");
    assert_eq!(TrackedDirection::Right.as_str(), "Right");
}

#[test]
fn backlash_reversals_counted_over_sequence() {
    let mut comp = BacklashCompensator::new();
    let (l, r) = (TrackedDirection::Left, TrackedDirection::Right);
    let moves = [r, r, l, l, r, l, l, r];
    let mut compensated = 0;
    for d in moves {
        if comp.compute_compensation(d) > 0 {
            compensated += 1;
        }
        comp.record_direction(d);
    }
    assert_eq!(comp.get_reversal_count(), 4);
    assert_eq!(compensated, 4);
    assert_eq!(comp.get_backlash_pulses(), DEFAULT_BACKLASH_PULSES);
}
