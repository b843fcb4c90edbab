use loading_system::registers::{
    combine_i32_words, decode_register_pair, first_coil, first_register, split_i32_words,
    split_u32_words, ADDR_D1343_RAMP_TIME_MS, ADDR_D10_TARGET_PULSES_32, ADDR_M10_PULSE_TRIGGER,
};

#[test]
fn split_and_combine_words() {
    assert_eq!(split_i32_words(0x0001_8000), (0x8000, 0x0001));
    assert_eq!(split_i32_words(-1), (0xFFFF, 0xFFFF));
    assert_eq!(split_i32_words(-10_000), (0xD8F0, 0xFFFF));
    assert_eq!(split_u32_words(100_000), (0x86A0, 0x0001));
    assert_eq!(combine_i32_words(0xD8F0, 0xFFFF), -10_000);
    assert_eq!(combine_i32_words(0x0000, 0x8000), i32::MIN);
}

#[test]
fn words_roundtrip() {
    for v in [0, 1, -1, 999_999, -999_999, i32::MAX, i32::MIN, 65_535, 65_536] {
        let (lo, hi) = split_i32_words(v);
        assert_eq!(combine_i32_words(lo, hi), v);
    }
}

#[test]
fn register_pair_decoding() {
    assert_eq!(decode_register_pair(&vec![]), None);
    assert_eq!(decode_register_pair(&vec![5]), None);
    assert_eq!(decode_register_pair(&vec![0x4240, 0x000F, 7]), Some(1_000_000));
    assert!(first_coil(&vec![true, false]));
    assert!(!first_coil(&vec![]));
    assert_eq!(first_register(&vec![42]), 42);
    assert_eq!(first_register(&vec![]), 0);
}

#[test]
fn register_addresses() {
    assert_eq!(ADDR_M10_PULSE_TRIGGER, 2048 + 10);
    assert_eq!(ADDR_D10_TARGET_PULSES_32, 4096 + 10);
    assert_eq!(ADDR_D1343_RAMP_TIME_MS, 5096 + 343);
}
