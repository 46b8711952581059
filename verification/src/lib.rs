//! Data model of the VA-API, with a verified baseline-JPEG front end.
//!
//! The [`jpeg`] module parses a JPEG byte stream into marker segments and
//! derives the parameter records a hardware decoder expects. The other modules
//! hold the plain data records that travel across the VA-API boundary.

#![allow(non_upper_case_globals)]

pub mod buffer;
pub mod config;
pub mod display;
pub mod error;
pub mod image;
pub mod jpeg;
pub mod pixelformat;
pub mod raw;
pub mod subpicture;
pub mod surface;
pub mod vpp;

pub use pixelformat::PixelFormat;

use vstd::prelude::*;

verus! {

/// A codec profile that may be accelerated with libva.
///
/// The wrapped value is the code the driver interface uses; the associated
/// constants name the known codes.
#[derive(Clone, Copy, Debug, PartialEq, Eq, Structural)]
pub struct Profile(pub i32);

impl Profile {
    /// "Misc" profile for format-independent operations.
    pub const NONE: i32 = -1;
    pub const MPEG2Simple: i32 = 0;
    pub const MPEG2Main: i32 = 1;
    pub const MPEG4Simple: i32 = 2;
    pub const MPEG4AdvancedSimple: i32 = 3;
    pub const MPEG4Main: i32 = 4;
    pub const H264Baseline: i32 = 5;
    pub const H264Main: i32 = 6;
    pub const H264High: i32 = 7;
    pub const VC1Simple: i32 = 8;
    pub const VC1Main: i32 = 9;
    pub const VC1Advanced: i32 = 10;
    pub const H263Baseline: i32 = 11;
    pub const JPEGBaseline: i32 = 12;
    pub const H264ConstrainedBaseline: i32 = 13;
    pub const VP8Version0_3: i32 = 14;
    pub const H264MultiviewHigh: i32 = 15;
    pub const H264StereoHigh: i32 = 16;
    pub const HEVCMain: i32 = 17;
    pub const HEVCMain10: i32 = 18;
    pub const VP9Profile0: i32 = 19;
    pub const VP9Profile1: i32 = 20;
    pub const VP9Profile2: i32 = 21;
    pub const VP9Profile3: i32 = 22;
    pub const HEVCMain12: i32 = 23;
    pub const HEVCMain422_10: i32 = 24;
    pub const HEVCMain422_12: i32 = 25;
    pub const HEVCMain444: i32 = 26;
    pub const HEVCMain444_10: i32 = 27;
    pub const HEVCMain444_12: i32 = 28;
    pub const HEVCSccMain: i32 = 29;
    pub const HEVCSccMain10: i32 = 30;
    pub const HEVCSccMain444: i32 = 31;
    pub const AV1Profile0: i32 = 32;
    pub const AV1Profile1: i32 = 33;
    pub const HEVCSccMain444_10: i32 = 34;
    pub const Protected: i32 = 35;

    /// The name of a code, if the code is a known one.
    pub open spec fn name_of(code: i32) -> Option<&'static str> {
        if code == Profile::NONE {
            Some("None")
        } else if code == Profile::MPEG2Simple {
            Some("MPEG2Simple")
        } else if code == Profile::MPEG2Main {
            Some("MPEG2Main")
        } else if code == Profile::MPEG4Simple {
            Some("MPEG4Simple")
        } else if code == Profile::MPEG4AdvancedSimple {
            Some("MPEG4AdvancedSimple")
        } else if code == Profile::MPEG4Main {
            Some("MPEG4Main")
        } else if code == Profile::H264Baseline {
            Some("H264Baseline")
        } else if code == Profile::H264Main {
            Some("H264Main")
        } else if code == Profile::H264High {
            Some("H264High")
        } else if code == Profile::VC1Simple {
            Some("VC1Simple")
        } else if code == Profile::VC1Main {
            Some("VC1Main")
        } else if code == Profile::VC1Advanced {
            Some("VC1Advanced")
        } else if code == Profile::H263Baseline {
            Some("H263Baseline")
        } else if code == Profile::JPEGBaseline {
            Some("JPEGBaseline")
        } else if code == Profile::H264ConstrainedBaseline {
            Some("H264ConstrainedBaseline")
        } else if code == Profile::VP8Version0_3 {
            Some("VP8Version0_3")
        } else if code == Profile::H264MultiviewHigh {
            Some("H264MultiviewHigh")
        } else if code == Profile::H264StereoHigh {
            Some("H264StereoHigh")
        } else if code == Profile::HEVCMain {
            Some("HEVCMain")
        } else if code == Profile::HEVCMain10 {
            Some("HEVCMain10")
        } else if code == Profile::VP9Profile0 {
            Some("VP9Profile0")
        } else if code == Profile::VP9Profile1 {
            Some("VP9Profile1")
        } else if code == Profile::VP9Profile2 {
            Some("VP9Profile2")
        } else if code == Profile::VP9Profile3 {
            Some("VP9Profile3")
        } else if code == Profile::HEVCMain12 {
            Some("HEVCMain12")
        } else if code == Profile::HEVCMain422_10 {
            Some("HEVCMain422_10")
        } else if code == Profile::HEVCMain422_12 {
            Some("HEVCMain422_12")
        } else if code == Profile::HEVCMain444 {
            Some("HEVCMain444")
        } else if code == Profile::HEVCMain444_10 {
            Some("HEVCMain444_10")
        } else if code == Profile::HEVCMain444_12 {
            Some("HEVCMain444_12")
        } else if code == Profile::HEVCSccMain {
            Some("HEVCSccMain")
        } else if code == Profile::HEVCSccMain10 {
            Some("HEVCSccMain10")
        } else if code == Profile::HEVCSccMain444 {
            Some("HEVCSccMain444")
        } else if code == Profile::AV1Profile0 {
            Some("AV1Profile0")
        } else if code == Profile::AV1Profile1 {
            Some("AV1Profile1")
        } else if code == Profile::HEVCSccMain444_10 {
            Some("HEVCSccMain444_10")
        } else if code == Profile::Protected {
            Some("Protected")
        } else {
            None
        }
    }

    /// The name of the code, if it is a known one.
    pub fn name(&self) -> (r: Option<&'static str>)
        ensures
            r == Profile::name_of(self.0),
    {
        if self.0 == Profile::NONE {
            Some("None")
        } else if self.0 == Profile::MPEG2Simple {
            Some("MPEG2Simple")
        } else if self.0 == Profile::MPEG2Main {
            Some("MPEG2Main")
        } else if self.0 == Profile::MPEG4Simple {
            Some("MPEG4Simple")
        } else if self.0 == Profile::MPEG4AdvancedSimple {
            Some("MPEG4AdvancedSimple")
        } else if self.0 == Profile::MPEG4Main {
            Some("MPEG4Main")
        } else if self.0 == Profile::H264Baseline {
            Some("H264Baseline")
        } else if self.0 == Profile::H264Main {
            Some("H264Main")
        } else if self.0 == Profile::H264High {
            Some("H264High")
        } else if self.0 == Profile::VC1Simple {
            Some("VC1Simple")
        } else if self.0 == Profile::VC1Main {
            Some("VC1Main")
        } else if self.0 == Profile::VC1Advanced {
            Some("VC1Advanced")
        } else if self.0 == Profile::H263Baseline {
            Some("H263Baseline")
        } else if self.0 == Profile::JPEGBaseline {
            Some("JPEGBaseline")
        } else if self.0 == Profile::H264ConstrainedBaseline {
            Some("H264ConstrainedBaseline")
        } else if self.0 == Profile::VP8Version0_3 {
            Some("VP8Version0_3")
        } else if self.0 == Profile::H264MultiviewHigh {
            Some("H264MultiviewHigh")
        } else if self.0 == Profile::H264StereoHigh {
            Some("H264StereoHigh")
        } else if self.0 == Profile::HEVCMain {
            Some("HEVCMain")
        } else if self.0 == Profile::HEVCMain10 {
            Some("HEVCMain10")
        } else if self.0 == Profile::VP9Profile0 {
            Some("VP9Profile0")
        } else if self.0 == Profile::VP9Profile1 {
            Some("VP9Profile1")
        } else if self.0 == Profile::VP9Profile2 {
            Some("VP9Profile2")
        } else if self.0 == Profile::VP9Profile3 {
            Some("VP9Profile3")
        } else if self.0 == Profile::HEVCMain12 {
            Some("HEVCMain12")
        } else if self.0 == Profile::HEVCMain422_10 {
            Some("HEVCMain422_10")
        } else if self.0 == Profile::HEVCMain422_12 {
            Some("HEVCMain422_12")
        } else if self.0 == Profile::HEVCMain444 {
            Some("HEVCMain444")
        } else if self.0 == Profile::HEVCMain444_10 {
            Some("HEVCMain444_10")
        } else if self.0 == Profile::HEVCMain444_12 {
            Some("HEVCMain444_12")
        } else if self.0 == Profile::HEVCSccMain {
            Some("HEVCSccMain")
        } else if self.0 == Profile::HEVCSccMain10 {
            Some("HEVCSccMain10")
        } else if self.0 == Profile::HEVCSccMain444 {
            Some("HEVCSccMain444")
        } else if self.0 == Profile::AV1Profile0 {
            Some("AV1Profile0")
        } else if self.0 == Profile::AV1Profile1 {
            Some("AV1Profile1")
        } else if self.0 == Profile::HEVCSccMain444_10 {
            Some("HEVCSccMain444_10")
        } else if self.0 == Profile::Protected {
            Some("Protected")
        } else {
            None
        }
    }
}

/// An entrypoint represents a specific operation on image or video data.
///
/// The wrapped value is the code the driver interface uses; the associated
/// constants name the known codes.
#[derive(Clone, Copy, Debug, PartialEq, Eq, Structural)]
pub struct Entrypoint(pub i32);

impl Entrypoint {
    /// Variable-length decoding (of video slices or pictures).
    pub const VLD: i32 = 1;
    pub const IZZ: i32 = 2;
    pub const IDCT: i32 = 3;
    pub const MoComp: i32 = 4;
    pub const Deblocking: i32 = 5;
    /// Video slice encoding.
    pub const EncSlice: i32 = 6;
    /// Picture encoding (eg. for JPEGs)
    pub const EncPicture: i32 = 7;
    pub const EncSliceLP: i32 = 8;
    /// The video processing API. See [`crate::vpp`] for more info.
    pub const VideoProc: i32 = 10;
    /// Flexible Encoding Infrastructure
    pub const FEI: i32 = 11;
    pub const Stats: i32 = 12;
    pub const ProtectedTEEComm: i32 = 13;
    pub const ProtectedContent: i32 = 14;

    /// The name of a code, if the code is a known one.
    pub open spec fn name_of(code: i32) -> Option<&'static str> {
        if code == Entrypoint::VLD {
            Some("VLD")
        } else if code == Entrypoint::IZZ {
            Some("IZZ")
        } else if code == Entrypoint::IDCT {
            Some("IDCT")
        } else if code == Entrypoint::MoComp {
            Some("MoComp")
        } else if code == Entrypoint::Deblocking {
            Some("Deblocking")
        } else if code == Entrypoint::EncSlice {
            Some("EncSlice")
        } else if code == Entrypoint::EncPicture {
            Some("EncPicture")
        } else if code == Entrypoint::EncSliceLP {
            Some("EncSliceLP")
        } else if code == Entrypoint::VideoProc {
            Some("VideoProc")
        } else if code == Entrypoint::FEI {
            Some("FEI")
        } else if code == Entrypoint::Stats {
            Some("Stats")
        } else if code == Entrypoint::ProtectedTEEComm {
            Some("ProtectedTEEComm")
        } else if code == Entrypoint::ProtectedContent {
            Some("ProtectedContent")
        } else {
            None
        }
    }

    /// The name of the code, if it is a known one.
    pub fn name(&self) -> (r: Option<&'static str>)
        ensures
            r == Entrypoint::name_of(self.0),
    {
        if self.0 == Entrypoint::VLD {
            Some("VLD")
        } else if self.0 == Entrypoint::IZZ {
            Some("IZZ")
        } else if self.0 == Entrypoint::IDCT {
            Some("IDCT")
        } else if self.0 == Entrypoint::MoComp {
            Some("MoComp")
        } else if self.0 == Entrypoint::Deblocking {
            Some("Deblocking")
        } else if self.0 == Entrypoint::EncSlice {
            Some("EncSlice")
        } else if self.0 == Entrypoint::EncPicture {
            Some("EncPicture")
        } else if self.0 == Entrypoint::EncSliceLP {
            Some("EncSliceLP")
        } else if self.0 == Entrypoint::VideoProc {
            Some("VideoProc")
        } else if self.0 == Entrypoint::FEI {
            Some("FEI")
        } else if self.0 == Entrypoint::Stats {
            Some("Stats")
        } else if self.0 == Entrypoint::ProtectedTEEComm {
            Some("ProtectedTEEComm")
        } else if self.0 == Entrypoint::ProtectedContent {
            Some("ProtectedContent")
        } else {
            None
        }
    }
}

/// Mirroring directions.
///
/// The wrapped value holds the flag bits; the associated constants name the
/// known flags.
#[derive(Clone, Copy, Debug, PartialEq, Eq, Structural)]
pub struct Mirror(pub u32);

impl Mirror {
    pub const NONE: u32 = 0;
    pub const HORIZONTAL: u32 = 0x00000001;
    pub const VERTICAL: u32 = 0x00000002;

    /// The set with no flag.
    pub fn empty() -> (r: Self)
        ensures
            r.0 == 0,
    {
        Mirror(0)
    }

    /// The raw flag bits.
    pub fn bits(&self) -> (r: u32)
        ensures
            r == self.0,
    {
        self.0
    }

    /// Whether every flag set in `other` is also set in `self`.
    pub fn contains(&self, other: Mirror) -> (r: bool)
        ensures
            r == (self.0 & other.0 == other.0),
    {
        self.0 & other.0 == other.0
    }

    /// The flags set in `self` or in `other`.
    pub fn union(&self, other: Mirror) -> (r: Self)
        ensures
            r.0 == self.0 | other.0,
    {
        Mirror(self.0 | other.0)
    }
}

/// Image rotation values.
///
/// The wrapped value is the code the driver interface uses; the associated
/// constants name the known codes.
#[derive(Clone, Copy, Debug, PartialEq, Eq, Structural)]
pub struct Rotation(pub u32);

impl Rotation {
    pub const NONE: u32 = 0x00000000;
    pub const R90: u32 = 0x00000001;
    pub const R180: u32 = 0x00000002;
    pub const R270: u32 = 0x00000003;
}

/// Indicates what part of a slice is being submitted.
///
/// Typically, the whole slice is submitted at once ([`SliceDataFlags::ALL`]).
#[derive(Clone, Copy, Debug, PartialEq, Eq, Structural)]
pub struct SliceDataFlags(pub u32);

impl SliceDataFlags {
    /// The entire slice is being submitted at once.
    pub const ALL: u32 = 0x00;
    pub const BEGIN: u32 = 0x01;
    pub const MIDDLE: u32 = 0x02;
    pub const END: u32 = 0x04;

    /// The raw flag bits.
    pub fn bits(&self) -> (r: u32)
        ensures
            r == self.0,
    {
        self.0
    }

    /// Whether every flag set in `other` is also set in `self`.
    pub fn contains(&self, other: SliceDataFlags) -> (r: bool)
        ensures
            r == (self.0 & other.0 == other.0),
    {
        self.0 & other.0 == other.0
    }
}

/// Codec-independent slice parameters.
///
/// Layout: three 32-bit words, in field order.
#[derive(Clone, Copy, Debug, PartialEq, Eq, Structural)]
pub struct SliceParameterBufferBase {
    pub slice_data_size: u32,
    pub slice_data_offset: u32,
    pub slice_data_flags: SliceDataFlags,
}

impl SliceParameterBufferBase {
    /// Parameters for a slice of `slice_data_size` bytes that starts at
    /// offset 0 of its data buffer and is submitted whole.
    #[inline]
    pub fn new(slice_data_size: u32) -> (r: Self)
        ensures
            r == (SliceParameterBufferBase {
                slice_data_size,
                slice_data_offset: 0,
                slice_data_flags: SliceDataFlags(SliceDataFlags::ALL),
            }),
    {
        Self {
            slice_data_size,
            slice_data_offset: 0,
            slice_data_flags: SliceDataFlags(SliceDataFlags::ALL),
        }
    }

    #[inline]
    pub fn slice_data_size(&self) -> (r: u32)
        ensures
            r == self.slice_data_size,
    {
        self.slice_data_size
    }

    #[inline]
    pub fn slice_data_offset(&self) -> (r: u32)
        ensures
            r == self.slice_data_offset,
    {
        self.slice_data_offset
    }

    #[inline]
    pub fn set_slice_data_offset(&mut self, slice_data_offset: u32)
        ensures
            *final(self) == (SliceParameterBufferBase { slice_data_offset, ..*old(self) }),
    {
        self.slice_data_offset = slice_data_offset;
    }

    #[inline]
    pub fn slice_data_flags(&self) -> (r: SliceDataFlags)
        ensures
            r == self.slice_data_flags,
    {
        self.slice_data_flags
    }

    #[inline]
    pub fn set_slice_data_flags(&mut self, flags: SliceDataFlags)
        ensures
            *final(self) == (SliceParameterBufferBase { slice_data_flags: flags, ..*old(self) }),
    {
        self.slice_data_flags = flags;
    }
}

/// A list of [`Profile`]s.
#[derive(Clone)]
pub struct Profiles {
    pub vec: Vec<Profile>,
}

impl View for Profiles {
    type V = Seq<Profile>;

    open spec fn view(&self) -> Seq<Profile> {
        self.vec@
    }
}

impl Profiles {
    pub fn len(&self) -> (r: usize)
        ensures
            r == self@.len(),
    {
        self.vec.len()
    }

    pub fn is_empty(&self) -> (r: bool)
        ensures
            r == (self@.len() == 0),
    {
        self.vec.len() == 0
    }

    /// Whether `profile` is in the list.
    pub fn contains(&self, profile: Profile) -> (r: bool)
        ensures
            r == self@.contains(profile),
    {
        let mut i: usize = 0;
        while i < self.vec.len()
            invariant
                i <= self.vec.len(),
                forall|j: int| 0 <= j < i ==> self@[j] != profile,
            decreases self.vec.len() - i,
        {
            if self.vec[i].0 == profile.0 {
                return true;
            }
            i += 1;
        }
        false
    }

    /// The profiles, in order.
    pub fn into_vec(self) -> (r: Vec<Profile>)
        ensures
            r@ == self@,
    {
        self.vec
    }
}

/// A list of [`Entrypoint`]s.
#[derive(Clone)]
pub struct Entrypoints {
    pub vec: Vec<Entrypoint>,
}

impl View for Entrypoints {
    type V = Seq<Entrypoint>;

    open spec fn view(&self) -> Seq<Entrypoint> {
        self.vec@
    }
}

impl Entrypoints {
    /// Whether `entrypoint` is in the list.
    pub fn contains(&self, entrypoint: Entrypoint) -> (r: bool)
        ensures
            r == self@.contains(entrypoint),
    {
        let mut i: usize = 0;
        while i < self.vec.len()
            invariant
                i <= self.vec.len(),
                forall|j: int| 0 <= j < i ==> self@[j] != entrypoint,
            decreases self.vec.len() - i,
        {
            if self.vec[i].0 == entrypoint.0 {
                return true;
            }
            i += 1;
        }
        false
    }

    /// The entrypoints, in order.
    pub fn into_vec(self) -> (r: Vec<Entrypoint>)
        ensures
            r@ == self@,
    {
        self.vec
    }
}

} // verus!
