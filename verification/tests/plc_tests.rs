use loading_system::plc::{
    angle_choice, angle_degrees, busy_poll_decision, clamp_speed, direction_choice,
    idle_poll_decision, loopback_test_values, loopback_verdict, menu_choice, ramp_time_setting,
    selected_target_pulses, speed_sweep_speeds, trigger_rotation_plan, BusyPoll, IdlePoll,
    MenuChoice, ModbusWrite,
};

#[test]
fn speed_is_clamped() {
    assert_eq!(clamp_speed(50), 100);
    assert_eq!(clamp_speed(5000), 5000);
    assert_eq!(clamp_speed(20_000), 10_000);
}

#[test]
fn trigger_writes() {
    let t = trigger_rotation_plan(-10_000, 50_000);
    assert_eq!(t.applied_speed_hz, 10_000);
    assert!(t.speed_adjusted);
    assert_eq!(t.writes.len(), 3);
    match &t.writes[0] {
        ModbusWrite::Registers { addr, values } => {
            assert_eq!(*addr, 4106);
            assert_eq!(values, &vec![0xD8F0, 0xFFFF]);
        }
        _ => panic!("expected a register write"),
    }
    match &t.writes[1] {
        ModbusWrite::Registers { addr, values } => {
            assert_eq!(*addr, 4110);
            assert_eq!(values, &vec![10_000, 0]);
        }
        _ => panic!("expected a register write"),
    }
    match &t.writes[2] {
        ModbusWrite::Coil { addr, value } => {
            assert_eq!(*addr, 2058);
            assert!(*value);
        }
        _ => panic!("expected a coil write"),
    }
    let t = trigger_rotation_plan(30_000, 5000);
    assert!(!t.speed_adjusted);
}

#[test]
fn busy_polls() {
    assert_eq!(busy_poll_decision(0, true, false), BusyPoll::Started);
    assert_eq!(busy_poll_decision(3, false, true), BusyPoll::Started);
    assert_eq!(busy_poll_decision(0, false, false), BusyPoll::SleepAndRetry { sleep_ms: 100 });
    assert_eq!(busy_poll_decision(19, false, false), BusyPoll::SleepAndGiveUp { sleep_ms: 100 });
}

#[test]
fn idle_polls() {
    assert_eq!(idle_poll_decision(false, 99_000_000_000, 1), IdlePoll::Finished);
    assert_eq!(idle_poll_decision(true, 1_000_000_000, 1), IdlePoll::SleepAndRetry { sleep_ms: 350 });
    assert_eq!(idle_poll_decision(true, 1_000_000_001, 1), IdlePoll::TimedOut);
}

#[test]
fn operator_answers() {
    assert_eq!(direction_choice(b"1"), (1, true));
    assert_eq!(direction_choice(b"2"), (-1, true));
    assert_eq!(direction_choice(b"x"), (1, false));
    assert_eq!(direction_choice(b"12"), (1, false));
    assert_eq!(angle_choice(b"3"), (60_000, true));
    assert_eq!(angle_choice(b"4"), (120_000, true));
    assert_eq!(angle_choice(b""), (10_000, false));
    assert_eq!(angle_degrees(120_000), 360);
    assert_eq!(angle_degrees(10_000), 30);
    assert_eq!(selected_target_pulses(30_000, -1), -30_000);
}

#[test]
fn ramp_answers() {
    assert_eq!(ramp_time_setting(Some(200)), (200, 200));
    assert_eq!(ramp_time_setting(None), (150, 150));
    assert_eq!(ramp_time_setting(Some(5)), (5, 10));
    assert_eq!(ramp_time_setting(Some(60_000)), (60_000, 5000));
}

#[test]
fn menu_answers() {
    assert_eq!(menu_choice(b"0"), MenuChoice::Exit);
    assert_eq!(menu_choice(b"1"), MenuChoice::ModbusLoopback);
    assert_eq!(menu_choice(b"9"), MenuChoice::EmergencyStop);
    assert_eq!(menu_choice(b"10"), MenuChoice::ReleaseEmergencyStop);
    assert_eq!(menu_choice(b"11"), MenuChoice::Invalid);
    assert_eq!(menu_choice(b""), MenuChoice::Invalid);
}

#[test]
fn test_lists_and_verdict() {
    assert_eq!(speed_sweep_speeds(), vec![1000, 5000, 10_000]);
    let written = loopback_test_values();
    assert_eq!(written, vec![1234, 5678, 9012, 3456, 7890]);
    assert_eq!(loopback_verdict(&written, &written.clone()), (5, true));
    assert_eq!(loopback_verdict(&written, &vec![1234, 0, 9012, 3456, 0]), (3, false));
}
