use loading_system::backlash::{BacklashCompensator, TrackedDirection};
use loading_system::disc::{
    clamp_offset, plan_rotation, pulse_command_registers, return_to_origin_pulses, select_frequency, Direction,
};

#[test]
fn plan_first_move_right() {
    let comp = BacklashCompensator::new();
    let plan = plan_rotation(&comp, 32_768, Direction::Right, 5);
    assert_eq!(plan.final_pulses, 32_773);
    assert_eq!(plan.backlash_pulses, 0);
    assert_eq!(plan.recorded, TrackedDirection::Right);
}

#[test]
fn plan_reversal_left() {
    let mut comp = BacklashCompensator::new();
    comp.record_direction(TrackedDirection::Right);
    let plan = plan_rotation(&comp, 32_768, Direction::Left, 5);
    assert_eq!(plan.backlash_pulses, 109);
    assert_eq!(plan.final_pulses, -32_768 + 5 - 109);
}

#[test]
fn plan_reversal_right_and_repeat() {
    let mut comp = BacklashCompensator::new();
    comp.record_direction(TrackedDirection::Left);
    let plan = plan_rotation(&comp, 10_923, Direction::Right, -3);
    assert_eq!(plan.final_pulses, 10_923 - 3 + 109);
    comp.record_direction(plan.recorded);
    let again = plan_rotation(&comp, 10_923, Direction::Right, -3);
    assert_eq!(again.final_pulses, 10_920);
}

#[test]
fn return_pulses() {
    assert_eq!(return_to_origin_pulses(32_768, 5), -32_773);
    assert_eq!(return_to_origin_pulses(-100, 0), 100);
}

#[test]
fn frequency_band() {
    assert_eq!(select_frequency(3641, None, None), 3641);
    assert_eq!(select_frequency(500, None, None), 1000);
    assert_eq!(select_frequency(32_768, None, None), 9000);
    assert_eq!(select_frequency(32_768, Some(100), Some(20_000)), 20_000);
}

#[test]
fn pulse_command_words() {
    assert_eq!(pulse_command_registers(-32_768, 4000), vec![0x8000, 0xFFFF, 4000, 0]);
    assert_eq!(pulse_command_registers(131_072, 70_000), vec![0, 2, 4464, 1]);
}

#[test]
fn direction_names() {
    assert_eq!(Direction::Left.as_str(), "Left");
    assert_eq!(Direction::Right.as_str(), "Right");
    assert_eq!(Direction::Left.to_tracked(), TrackedDirection::Left);
}

#[test]
fn offset_saturation() {
    assert_eq!(clamp_offset(250), 200);
    assert_eq!(clamp_offset(-201), -200);
    assert_eq!(clamp_offset(-37), -37);
}
