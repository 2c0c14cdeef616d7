use vstd::prelude::*;

verus! {

/// Logical port that carries the whole logging service.
pub const CRTP_LOGGING_PORT: u8 = 0x5;

/// Channel for browsing the variable directory.
pub const CRTP_TOC_CHANNEL: u8 = 0x0;
/// Channel for creating and starting logging blocks.
pub const CRTP_SETTINGS_CHANNEL: u8 = 0x1;
/// Channel on which the device streams logging data.
pub const CRTP_LOGDATA_CHANNEL: u8 = 0x2;

/// Command tag of a directory-info request and its reply.
pub const CRTP_CMD_TOC_INFO: u8 = 0x3;
/// Command tag of a directory-item request and its reply.
pub const CRTP_CMD_TOC_ITEM: u8 = 0x2;
/// Command tag of a create-block request and its acknowledgement.
pub const CRTP_CMD_CREATE_BLOCK: u8 = 0x6;
/// Command tag of a start-logging request and its acknowledgement.
pub const CRTP_CMD_START_LOGGING: u8 = 0x3;

/// Storage-type tag marking a logged variable as a 32-bit float.
pub const CRTP_LOG_TYPE_FLOAT: u8 = 0x07;

/// Block identifier this application uses for its one logging block.
pub const CRAZYMOUSE_ID: u8 = 0x42;

/// Sample period of the logging block, in milliseconds. The wire encoding
/// divides it by ten with truncation; the device counts in 10 ms ticks.
pub const CRTP_LOGGING_PERIOD_MS: u8 = 10;

/// The 16-bit value two little-endian bytes carry.
pub open spec fn le_u16(lo: u8, hi: u8) -> u16 {
    (lo + hi * 0x100) as u16
}

/// The low byte of a 16-bit value in little-endian order.
pub open spec fn u16_lo(x: u16) -> u8 {
    (x % 0x100) as u8
}

/// The high byte of a 16-bit value in little-endian order.
pub open spec fn u16_hi(x: u16) -> u8 {
    (x / 0x100) as u8
}

/// The 32-bit value four little-endian bytes carry.
pub open spec fn le_u32(b0: u8, b1: u8, b2: u8, b3: u8) -> u32 {
    (b0 + b1 * 0x100 + b2 * 0x1_0000 + b3 * 0x100_0000) as u32
}

/// Reads a 16-bit value from its two little-endian bytes.
pub fn read_le_u16(lo: u8, hi: u8) -> (x: u16)
    ensures
        x == le_u16(lo, hi),
{
    lo as u16 + hi as u16 * 0x100
}

/// Reads a 32-bit value from its four little-endian bytes.
pub fn read_le_u32(b0: u8, b1: u8, b2: u8, b3: u8) -> (x: u32)
    ensures
        x == le_u32(b0, b1, b2, b3),
{
    b0 as u32 + b1 as u32 * 0x100 + b2 as u32 * 0x1_0000 + b3 as u32 * 0x100_0000
}

} // verus!
