//! Modbus address map of the Delta DVP-28SS2 PLC, its hardware limits, and
//! the encoding of 32-bit values into pairs of 16-bit registers (low word
//! first, as the PLC stores them).
//!
//! Address rules of the Delta DVP series: M coils start at 0x0800 (2048),
//! D0-D999 at 0x1000 (4096), D1000-D1999 at 0x13E8 (5096).

use vstd::prelude::*;

verus! {

/// M0: system enable (Servo-ON output Y5).
pub const ADDR_M0_SYSTEM_ENABLE: u16 = 2048;

/// M2: emergency stop.
pub const ADDR_M2_EMERGENCY_STOP: u16 = 2050;

/// M10: start of a pulse train on the rotating disc (DDRVI).
pub const ADDR_M10_PULSE_TRIGGER: u16 = 2058;

/// M11: the system is busy emitting pulses.
pub const ADDR_M11_SYSTEM_BUSY: u16 = 2059;

/// M80: watchdog heartbeat fault, set by the PLC when heartbeats stop.
pub const ADDR_M80_WATCHDOG_FAULT: u16 = 2128;

/// M100: automatic cyclic mode.
pub const ADDR_M100_AUTO_MODE: u16 = 2148;

/// D10-D11: signed 32-bit target pulse count (positive = clockwise).
pub const ADDR_D10_TARGET_PULSES_32: u16 = 4106;

/// D14-D15: 32-bit target pulse frequency.
pub const ADDR_D14_TARGET_SPEED_32: u16 = 4110;

/// D100: count of bottles rotated into place (16-bit).
pub const ADDR_D100_BOTTLE_COUNT: u16 = 4196;

/// D1000: watchdog heartbeat counter written by the host.
pub const ADDR_D1000_WATCHDOG_HEARTBEAT: u16 = 5096;

/// D1343: ramp time of acceleration and deceleration (ms); 5096 + (1343 - 1000).
pub const ADDR_D1343_RAMP_TIME_MS: u16 = 5439;

/// Highest pulse frequency of output Y0 of the DVP-28SS2 (Hz).
pub const MAX_SAFE_FREQUENCY_HZ: i32 = 10_000;

/// Lowest pulse frequency used (Hz).
pub const MIN_SAFE_FREQUENCY_HZ: i32 = 100;

/// Longest ramp time allowed (ms).
pub const MAX_RAMP_TIME_MS: u16 = 5000;

/// Shortest ramp time allowed (ms).
pub const MIN_RAMP_TIME_MS: u16 = 10;

/// Baud rate of the RS-485 link.
pub const MODBUS_BAUD_RATE: u32 = 38_400;

/// Modbus slave id of the PLC.
pub const MODBUS_SLAVE_ID: u8 = 1;

/// Time-out of the host side of the link (ms).
pub const MODBUS_TIMEOUT_MS: u64 = 1000;

/// Period of the watchdog heartbeat (ms).
pub const WATCHDOG_INTERVAL_MS: u64 = 400;

/// Period of polling while waiting for the disc to stop (ms).
pub const POLL_INTERVAL_MS: u64 = 350;

/// The 32-bit two's complement pattern of `v`, as a natural number.
pub open spec fn bit_pattern(v: i32) -> int {
    if v < 0 {
        v + 0x1_0000_0000
    } else {
        v as int
    }
}

/// The signed 32-bit value whose pattern is `pattern` (in `[0, 2^32)`).
pub open spec fn signed_of_pattern(pattern: int) -> int {
    if pattern >= 0x8000_0000 {
        pattern - 0x1_0000_0000
    } else {
        pattern
    }
}

/// Low word of the pattern of `v`.
pub open spec fn low_word(v: i32) -> int {
    bit_pattern(v) % 0x1_0000
}

/// High word of the pattern of `v`.
pub open spec fn high_word(v: i32) -> int {
    bit_pattern(v) / 0x1_0000
}

/// Splits a signed 32-bit value into its low and high 16-bit words.
pub fn split_i32_words(value: i32) -> (words: (u16, u16))
    ensures
        words.0 == low_word(value),
        words.1 == high_word(value),
{
    let low: u16 = (value & 0xFFFF) as u16;
    let high: u16 = ((value >> 16u32) & 0xFFFF) as u16;
    assert(low == low_word(value) && high == high_word(value)) by (bit_vector)
        requires
            low == (value & 0xFFFF) as u16,
            high == ((value >> 16u32) & 0xFFFF) as u16,
    ;
    (low, high)
}

/// Joins a low and a high 16-bit word into a signed 32-bit value.
pub fn combine_i32_words(low: u16, high: u16) -> (v: i32)
    ensures
        v == signed_of_pattern(high * 0x1_0000 + low),
{
    let combined: u32 = ((high as u32) << 16u32) | (low as u32);
    let v: i32 = combined as i32;
    assert(v == signed_of_pattern(high * 0x1_0000 + low)) by (bit_vector)
        requires
            combined == ((high as u32) << 16u32) | (low as u32),
            v == combined as i32,
    ;
    v
}

/// Splits an unsigned 32-bit value into its low and high 16-bit words.
pub fn split_u32_words(value: u32) -> (words: (u16, u16))
    ensures
        words.0 == value % 0x1_0000,
        words.1 == value / 0x1_0000,
{
    let low: u16 = (value & 0xFFFF) as u16;
    let high: u16 = ((value >> 16u32) & 0xFFFF) as u16;
    assert(low == value % 0x1_0000 && high == value / 0x1_0000) by (bit_vector)
        requires
            low == (value & 0xFFFF) as u16,
            high == ((value >> 16u32) & 0xFFFF) as u16,
    ;
    (low, high)
}

/// The signed 32-bit value held in the first two registers of a read
/// response (low word first), or `None` when fewer than two came back.
pub fn decode_register_pair(regs: &Vec<u16>) -> (r: Option<i32>)
    ensures
        regs@.len() < 2 <==> r is None,
        r matches Some(v) ==> v == signed_of_pattern(regs@[1] * 0x1_0000 + regs@[0]),
{
    if regs.len() < 2 {
        return None;
    }
    Some(combine_i32_words(regs[0], regs[1]))
}

/// The first coil of a read response, `false` when the response is empty.
pub fn first_coil(coils: &Vec<bool>) -> (r: bool)
    ensures
        r == (coils@.len() > 0 && coils@[0]),
{
    if coils.len() > 0 {
        coils[0]
    } else {
        false
    }
}

/// The first register of a read response, 0 when the response is empty.
pub fn first_register(regs: &Vec<u16>) -> (r: u16)
    ensures
        r == (if regs@.len() > 0 {
            regs@[0]
        } else {
            0
        }),
{
    if regs.len() > 0 {
        regs[0]
    } else {
        0
    }
}

/// Writing a signed 32-bit value as two words and reading the two words back
/// gives the value again.
pub proof fn lemma_words_roundtrip(v: i32)
    ensures
        0 <= low_word(v) < 0x1_0000,
        0 <= high_word(v) < 0x1_0000,
        signed_of_pattern(high_word(v) * 0x1_0000 + low_word(v)) == v,
{
}

/// Any pair of words read back and written again gives the same two words.
pub proof fn lemma_combine_then_split(low: u16, high: u16)
    ensures
        ({
            let v = signed_of_pattern(high * 0x1_0000 + low);
            &&& i32::MIN <= v <= i32::MAX
            &&& low_word(v as i32) == low
            &&& high_word(v as i32) == high
        }),
{
}

/// The two words of a value are its 32-bit two's complement pattern: each is
/// a 16-bit word, and high word × 65536 + low word equals the value modulo
/// 2^32.
pub proof fn lemma_words_are_the_pattern(v: i32)
    ensures
        0 <= low_word(v) < 0x1_0000,
        0 <= high_word(v) < 0x1_0000,
        (high_word(v) * 0x1_0000 + low_word(v) - v) % 0x1_0000_0000 == 0,
        v >= 0 ==> high_word(v) * 0x1_0000 + low_word(v) == v,
{
}

/// Reading a pattern as a signed value gives the one `i32` with that
/// pattern: within the range of `i32` and equal to it modulo 2^32.
pub proof fn lemma_signed_of_pattern_is_i32(pattern: int)
    requires
        0 <= pattern < 0x1_0000_0000,
    ensures
        i32::MIN <= signed_of_pattern(pattern) <= i32::MAX,
        (signed_of_pattern(pattern) - pattern) % 0x1_0000_0000 == 0,
{
}

} // verus!
