use loading_system::servo::{
    command_frequency, direction_level_high, run_time_us, CommandPlan, CommandRejection,
    MotorCommand, RotationDirection, ServoDrive, ServoState, PULSES_PER_REV,
};

#[test]
fn servo_frequencies() {
    assert_eq!(PULSES_PER_REV, 8_388_608);
    assert_eq!(command_frequency(500), 69_905_066);
    assert_eq!(command_frequency(0), 100_000);
    // wraps in 32 bits as the firmware computes it
    assert_eq!(command_frequency(30_720), 0);
    assert_eq!(run_time_us(1000, 4000), 250_000);
    // rounded up: 3 pulses at 7 Hz take 428571.4 µs
    assert_eq!(run_time_us(3, 7), 428_572);
}

#[test]
fn servo_rejects_when_off_or_in_alarm() {
    let mut drive = ServoDrive::new();
    let cmd = MotorCommand { direction: RotationDirection::Clockwise, speed_rpm: 500, target_pulses: 0 };
    assert_eq!(drive.execute_command(cmd), CommandPlan::Rejected { reason: CommandRejection::DriveOff });
    assert_eq!(drive.get_state(), ServoState::Idle);
    drive.servo_on_complete();
    drive.report_alarm();
    assert_eq!(drive.execute_command(cmd), CommandPlan::Rejected { reason: CommandRejection::DriveAlarm });
    drive.reset_alarm_complete();
    assert_eq!(drive.get_state(), ServoState::Ready);
}

#[test]
fn servo_positioning_command() {
    let mut drive = ServoDrive::new();
    drive.servo_on_complete();
    let cmd = MotorCommand { direction: RotationDirection::CounterClockwise, speed_rpm: 1, target_pulses: 139_810 };
    let plan = drive.execute_command(cmd);
    assert_eq!(
        plan,
        CommandPlan::Run { direction_high: true, frequency_hz: 139_810, pulse_hz: Some(139_810), run_us: Some(1_000_000) }
    );
    assert_eq!(drive.get_state(), ServoState::Running);
    drive.finish_motion();
    assert_eq!(drive.get_state(), ServoState::InPosition);
}

#[test]
fn servo_pulse_limits_and_stops() {
    let mut drive = ServoDrive::new();
    drive.servo_on_complete();
    assert_eq!(drive.start_pulse(5_000_000), Some(4_000_000));
    assert_eq!(drive.get_state(), ServoState::Running);
    assert_eq!(drive.start_pulse(0), None);
    assert_eq!(drive.get_state(), ServoState::Ready);
    drive.start_pulse(1000);
    drive.emergency_stop();
    assert_eq!(drive.get_state(), ServoState::EmergencyStop);
    drive.servo_off();
    assert_eq!(drive.get_state(), ServoState::Idle);
    assert!(!direction_level_high(RotationDirection::Clockwise));
    assert!(direction_level_high(RotationDirection::CounterClockwise));
}

#[test]
fn servo_full_turn_at_500_rpm_emits_the_target() {
    let mut drive = ServoDrive::new();
    drive.servo_on_complete();
    let cmd = MotorCommand { direction: RotationDirection::Clockwise, speed_rpm: 500, target_pulses: 8_388_608 };
    let plan = drive.execute_command(cmd);
    assert_eq!(
        plan,
        CommandPlan::Run { direction_high: false, frequency_hz: 69_905_066, pulse_hz: Some(4_000_000), run_us: Some(2_097_152) }
    );
    // 4 MHz for 2,097,152 µs: exactly the 8,388,608 target pulses
    assert_eq!(4_000_000u64 * 2_097_152 / 1_000_000, 8_388_608);
    assert_eq!(4_000_000u64 * 2_097_152 % 1_000_000, 0);
}
