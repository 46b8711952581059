//! Plain records and constants shared by several parameter structures.

use vstd::prelude::*;
use crate::buffer::BufferType;

verus! {

/// Number of reserved 32-bit words at the end of small structures.
pub const VA_PADDING_LOW: usize = 4;

/// Number of reserved 32-bit words at the end of medium structures.
pub const VA_PADDING_MEDIUM: usize = 8;

/// Number of reserved 32-bit words at the end of large structures.
pub const VA_PADDING_HIGH: usize = 16;

/// Number of reserved 32-bit words at the end of very large structures.
pub const VA_PADDING_LARGE: usize = 32;

/// The timeout value that means "wait forever".
pub const VA_TIMEOUT_INFINITE: u64 = 0xFFFFFFFFFFFFFFFF;

/// A rectangle in surface coordinates.
///
/// Layout: `x` and `y` (signed 16-bit), then `width` and `height`
/// (unsigned 16-bit); 8 bytes, no padding.
#[derive(Clone, Copy, Debug, PartialEq, Eq, Structural)]
pub struct Rectangle {
    pub x: i16,
    pub y: i16,
    pub width: u16,
    pub height: u16,
}

impl Rectangle {
    /// The rectangle with all four fields zero.
    pub fn zeroed() -> (r: Self)
        ensures
            r == (Rectangle { x: 0, y: 0, width: 0, height: 0 }),
    {
        Rectangle { x: 0, y: 0, width: 0, height: 0 }
    }
}

/// Processing-rate parameters of an encoder.
///
/// Layout: `level_idc` (1 byte), 3 reserved bytes, then three 32-bit words.
#[derive(Clone, Copy)]
pub struct VAProcessingRateParameterEnc {
    pub level_idc: u8,
    pub reserved0: [u8; 3],
    pub quality_level: u32,
    pub intra_period: u32,
    pub ip_period: u32,
}

/// Processing-rate parameters of a decoder.
///
/// Layout: `level_idc` (1 byte), 3 reserved bytes, one reserved 32-bit word.
#[derive(Clone, Copy)]
pub struct VAProcessingRateParameterDec {
    pub level_idc: u8,
    pub reserved0: [u8; 3],
    pub reserved: u32,
}

/// Describes the memory behind an exported buffer.
///
/// Layout: `handle` (pointer-sized), `type_` and `mem_type` (32-bit each),
/// `mem_size` (pointer-sized), then `VA_PADDING_LOW` reserved words.
pub struct VABufferInfo {
    pub handle: usize,
    pub type_: BufferType,
    pub mem_type: u32,
    pub mem_size: usize,
    pub va_reserved: [u32; VA_PADDING_LOW],
}

} // verus!
