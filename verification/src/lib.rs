//! Verified core of the rotating-disc loading system: encoder decoding,
//! backlash tracking, motion-profile pulse allocation, Modbus register
//! encoding and the decision logic of the PLC and servo drivers.

pub mod encoder;
pub mod backlash;
pub mod registers;
pub mod motion;
pub mod disc;
pub mod plc;
pub mod servo;
