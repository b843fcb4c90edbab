use loading_system::encoder::{Encoder17Bit, ENCODER_17BIT_MAX_RAW, ENCODER_17BIT_RESOLUTION};

#[test]
fn test_new_encoder_defaults() {
    let enc = Encoder17Bit::new();
    assert_eq!(enc.get_raw_position(), 0);
    assert_eq!(enc.get_turn_count(), 0);
}

#[test]
fn test_update_position_valid() {
    let mut enc = Encoder17Bit::new();
    assert!(enc.update_position(32_768).is_ok());
    assert_eq!(enc.get_raw_position(), 32_768);
}

#[test]
fn test_update_position_overflow_rejected() {
    let mut enc = Encoder17Bit::new();
    assert!(enc.update_position(131_072).is_err());
    assert!(enc.update_position(200_000).is_err());
}

#[test]
fn test_wrap_around_clockwise() {
    let mut enc = Encoder17Bit::new();
    enc.update_position(130_000).unwrap();
    enc.update_position(500).unwrap();
    assert_eq!(enc.get_turn_count(), 1);
}

#[test]
fn test_wrap_around_counter_clockwise() {
    let mut enc = Encoder17Bit::new();
    enc.update_position(500).unwrap();
    enc.update_position(130_000).unwrap();
    assert_eq!(enc.get_turn_count(), -1);
}

#[test]
fn test_decode_from_registers() {
    let mut enc = Encoder17Bit::new();
    enc.decode_from_registers(0x8000, 0x0000).unwrap();
    assert_eq!(enc.get_raw_position(), 32_768);
}

#[test]
fn test_decode_from_registers_17th_bit() {
    let mut enc = Encoder17Bit::new();
    enc.decode_from_registers(0x0000, 0x0001).unwrap();
    assert_eq!(enc.get_raw_position(), 65_536);
}

#[test]
fn test_reset() {
    let mut enc = Encoder17Bit::new();
    enc.update_position(50_000).unwrap();
    enc.update_position(130_000).unwrap();
    enc.reset();
    assert_eq!(enc.get_raw_position(), 0);
    assert_eq!(enc.get_turn_count(), 0);
}

#[test]
fn encoder_new_starts_uninitialised() {
    let enc = Encoder17Bit::new();
    assert_eq!(enc.get_raw_position(), 0);
    assert_eq!(enc.get_turn_count(), 0);
    assert!(!enc.is_initialized());
    let d = Encoder17Bit::default();
    assert_eq!(d.get_raw_position(), 0);
    assert!(!d.is_initialized());
}

#[test]
fn encoder_error_message_and_state_kept() {
    let mut enc = Encoder17Bit::new();
    enc.update_position(1234).unwrap();
    let err = enc.update_position(131_072).unwrap_err();
    assert_eq!(err, "Encoder raw value 131072 exceeds 17-bit range [0, 131071]");
    assert_eq!(enc.get_raw_position(), 1234);
    assert_eq!(enc.get_turn_count(), 0);
}

#[test]
fn encoder_boundary_values() {
    let mut enc = Encoder17Bit::new();
    assert!(enc.update_position(ENCODER_17BIT_MAX_RAW).is_ok());
    assert_eq!(enc.get_raw_position(), 131_071);
    assert_eq!(ENCODER_17BIT_RESOLUTION, 131_072);
    // exactly half a turn is not a wrap
    let mut enc = Encoder17Bit::new();
    enc.update_position(0).unwrap();
    enc.update_position(65_536).unwrap();
    assert_eq!(enc.get_turn_count(), 0);
    // one more than half a turn upwards is a counter-clockwise wrap
    let mut enc = Encoder17Bit::new();
    enc.update_position(0).unwrap();
    enc.update_position(65_537).unwrap();
    assert_eq!(enc.get_turn_count(), -1);
}

#[test]
fn encoder_first_reading_never_wraps() {
    let mut enc = Encoder17Bit::new();
    enc.update_position(130_000).unwrap();
    assert_eq!(enc.get_turn_count(), 0);
    assert!(enc.is_initialized());
}

#[test]
fn encoder_back_and_forth_keeps_turns() {
    let mut enc = Encoder17Bit::new();
    enc.update_position(100).unwrap();
    enc.update_position(131_000).unwrap();
    assert_eq!(enc.get_turn_count(), -1);
    enc.update_position(100).unwrap();
    assert_eq!(enc.get_turn_count(), 0);
}

#[test]
fn encoder_multi_turn_accumulates() {
    let mut enc = Encoder17Bit::new();
    enc.update_position(130_000).unwrap();
    enc.update_position(10).unwrap();
    for _ in 0..2 {
        enc.update_position(60_000).unwrap();
        enc.update_position(120_000).unwrap();
        enc.update_position(10).unwrap();
    }
    assert_eq!(enc.get_turn_count(), 3);
}

#[test]
fn encoder_decode_masks_upper_bits() {
    let mut enc = Encoder17Bit::new();
    // only bit 0 of the high register counts
    enc.decode_from_registers(0x1234, 0xFFFE).unwrap();
    assert_eq!(enc.get_raw_position(), 0x1234);
    enc.decode_from_registers(0xFFFF, 0xFFFF).unwrap();
    assert_eq!(enc.get_raw_position(), 131_071);
}

#[test]
fn encoder_absolute_position_moves_shortest_way() {
    let mut enc = Encoder17Bit::new();
    enc.update_position(131_000).unwrap();
    let before = enc.get_turn_count() as i64 * 131_072 + enc.get_raw_position() as i64;
    enc.update_position(200).unwrap();
    let after = enc.get_turn_count() as i64 * 131_072 + enc.get_raw_position() as i64;
    assert_eq!(after - before, 272);
    enc.update_position(131_000).unwrap();
    let back = enc.get_turn_count() as i64 * 131_072 + enc.get_raw_position() as i64;
    assert_eq!(back, before);
}

#[test]
fn encoder_turn_count_is_net_wraps() {
    let readings: [u32; 8] = [5, 131_000, 70_000, 1_000, 120_000, 3, 66_000, 131_071];
    let mut enc = Encoder17Bit::new();
    let mut expected: i32 = 0;
    let mut prev: Option<u32> = None;
    for &r in readings.iter() {
        enc.update_position(r).unwrap();
        if let Some(p) = prev {
            let d = r as i64 - p as i64;
            if d < -65_536 {
                expected += 1;
            } else if d > 65_536 {
                expected -= 1;
            }
        }
        prev = Some(r);
    }
    assert_eq!(enc.get_turn_count(), expected);
    assert_eq!(enc.get_turn_count(), -1);
}
