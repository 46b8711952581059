//! FourCC pixel format codes.

use vstd::prelude::*;
use crate::surface::RTFormat;

verus! {

/// The 32-bit value whose little-endian byte representation is `bytes`.
pub open spec fn fourcc_value(bytes: Seq<u8>) -> int {
    bytes[0] as int + bytes[1] as int * 0x100 + bytes[2] as int * 0x1_0000 + bytes[3] as int
        * 0x100_0000
}

/// The little-endian byte representation of a 32-bit value.
pub open spec fn fourcc_bytes(value: u32) -> Seq<u8> {
    seq![
        (value % 0x100) as u8,
        (value / 0x100 % 0x100) as u8,
        (value / 0x1_0000 % 0x100) as u8,
        (value / 0x100_0000) as u8,
    ]
}

/// A FourCC code identifying a pixel format.
#[derive(Clone, Copy, Debug, PartialEq, Eq, Hash, Structural)]
pub struct PixelFormat(pub u32);

impl PixelFormat {
    /// Planar YUV 4:2:0 standard pixel format.
    ///
    /// All samples are 8 bits in size. The plane containing Y samples comes first, followed by a
    /// plane storing packed U and V samples (with U samples in the first byte and V samples in the
    /// second byte).
    ///
    /// This format is widely supported by hardware codecs (and often the *only* supported format),
    /// so it should be supported by all software, and may be used as the default format.
    pub const NV12: u32 = 0x3231564e;

    /// Planar YUV 4:2:0 pixel format, with U and V swapped compared to `NV12`.
    pub const NV21: u32 = 0x3132564e;

    /// Interleaved YUV 4:2:2, stored in memory as `yyyyyyyy uuuuuuuu YYYYYYYY vvvvvvvv`.
    ///
    /// `uuuuuuuu` and `vvvvvvvv` are shared by 2 neighboring pixels.
    pub const YUY2: u32 = 0x32595559;

    /// Interleaved YUV 4:2:2, stored in memory as `uuuuuuuu yyyyyyyy vvvvvvvv YYYYYYYY`.
    ///
    /// `uuuuuuuu` and `vvvvvvvv` are shared by 2 neighboring pixels.
    pub const UYVY: u32 = 0x56595655;

    /// `RGBA`: Packed 8-bit RGBA, stored in memory as `aaaaaaaa bbbbbbbb gggggggg rrrrrrrr`.
    pub const RGBA: u32 = 0x41424752;

    /// `ARGB`: Packed 8-bit RGBA, stored in memory as `bbbbbbbb gggggggg rrrrrrrr aaaaaaaa`.
    pub const ARGB: u32 = 0x42475241;

    /// Packed 8-bit RGBX.
    ///
    /// The X channel has unspecified values.
    pub const RGBX: u32 = 0x58424752;

    /// Packed 8-bit BGRA.
    pub const BGRA: u32 = 0x41524742;

    /// Packed 8-bit BGRX.
    ///
    /// The X channel has unspecified values.
    pub const BGRX: u32 = 0x58524742;

    /// The pixel format whose code is spelled by the four bytes of `fourcc`,
    /// first byte lowest.
    pub fn from_bytes(fourcc: [u8; 4]) -> (r: Self)
        ensures
            r.0 == fourcc_value(fourcc@),
    {
        PixelFormat(
            fourcc[0] as u32 + fourcc[1] as u32 * 0x100 + fourcc[2] as u32 * 0x1_0000
                + fourcc[3] as u32 * 0x100_0000,
        )
    }

    /// The pixel format with the given code.
    pub fn from_u32_le(fourcc: u32) -> (r: Self)
        ensures
            r.0 == fourcc,
    {
        PixelFormat(fourcc)
    }

    /// The four bytes that spell the code, lowest byte first.
    pub fn to_bytes(self) -> (r: [u8; 4])
        ensures
            r@ == fourcc_bytes(self.0),
    {
        let v = self.0;
        let r = [
            (v % 0x100) as u8,
            (v / 0x100 % 0x100) as u8,
            (v / 0x1_0000 % 0x100) as u8,
            (v / 0x100_0000) as u8,
        ];
        proof {
            assert(r@ =~= fourcc_bytes(self.0));
        }
        r
    }

    /// The code as a 32-bit value.
    pub fn to_u32_le(self) -> (r: u32)
        ensures
            r == self.0,
    {
        self.0
    }

    /// The surface format compatible with a pixel format code, if the code
    /// is a known one.
    pub open spec fn rtformat_of(fourcc: u32) -> Option<RTFormat> {
        if fourcc == PixelFormat::NV12 || fourcc == PixelFormat::NV21 {
            Some(RTFormat(RTFormat::YUV420))
        } else if fourcc == PixelFormat::YUY2 || fourcc == PixelFormat::UYVY {
            Some(RTFormat(RTFormat::YUV422))
        } else if fourcc == PixelFormat::RGBA || fourcc == PixelFormat::RGBX || fourcc
            == PixelFormat::ARGB || fourcc == PixelFormat::BGRA || fourcc == PixelFormat::BGRX {
            Some(RTFormat(RTFormat::RGB32))
        } else {
            None
        }
    }

    /// Returns a surface [`RTFormat`] compatible with this [`PixelFormat`].
    ///
    /// Returns [`None`] when `self` is an unknown or unhandled [`PixelFormat`].
    pub fn to_rtformat(self) -> (r: Option<RTFormat>)
        ensures
            r == PixelFormat::rtformat_of(self.0),
    {
        let v = self.0;
        if v == PixelFormat::NV12 || v == PixelFormat::NV21 {
            Some(RTFormat(RTFormat::YUV420))
        } else if v == PixelFormat::YUY2 || v == PixelFormat::UYVY {
            Some(RTFormat(RTFormat::YUV422))
        } else if v == PixelFormat::RGBA || v == PixelFormat::RGBX || v == PixelFormat::ARGB || v
            == PixelFormat::BGRA || v == PixelFormat::BGRX {
            Some(RTFormat(RTFormat::RGB32))
        } else {
            None
        }
    }
}

/// Spelling a code out in bytes and reading the bytes back gives the code.
pub proof fn lemma_fourcc_value_round_trip(value: u32)
    ensures
        fourcc_value(fourcc_bytes(value)) == value,
{
    let v = value as int;
    let q1 = v / 0x100;
    let q2 = q1 / 0x100;
    let q3 = q2 / 0x100;
    assert(v == q1 * 0x100 + v % 0x100);
    assert(q1 == q2 * 0x100 + q1 % 0x100);
    assert(q2 == q3 * 0x100 + q2 % 0x100);
    assert(q2 == v / 0x1_0000);
    assert(q3 == v / 0x100_0000);
    assert(0 <= q3 < 0x100);
}

/// Reading four bytes as a code and spelling the code out gives the bytes.
pub proof fn lemma_fourcc_bytes_round_trip(bytes: Seq<u8>)
    requires
        bytes.len() == 4,
    ensures
        0 <= fourcc_value(bytes) <= u32::MAX,
        fourcc_bytes(fourcc_value(bytes) as u32) == bytes,
{
    let b0 = bytes[0] as int;
    let b1 = bytes[1] as int;
    let b2 = bytes[2] as int;
    let b3 = bytes[3] as int;
    let v = fourcc_value(bytes);
    assert(v == b0 + 0x100 * (b1 + 0x100 * (b2 + 0x100 * b3)));
    assert(v % 0x100 == b0);
    assert(v / 0x100 == b1 + 0x100 * (b2 + 0x100 * b3));
    assert(v / 0x1_0000 == b2 + 0x100 * b3);
    assert(v / 0x100_0000 == b3);
    assert(fourcc_bytes(v as u32) =~= bytes);
}

} // verus!
