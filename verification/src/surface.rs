//! Surface formats and surface attributes.

#![allow(non_upper_case_globals)]

pub mod drm;

use vstd::prelude::*;
use crate::error::{CallError, VAError, VAStatus};
use crate::pixelformat::PixelFormat;

verus! {

/// Flags for configuring how a [`Surface`] should be exported.
///
/// The wrapped value holds the flag bits; the associated constants name the
/// known flags.
#[derive(Clone, Copy, Debug, PartialEq, Eq, Structural)]
pub struct ExportSurfaceFlags(pub u32);

impl ExportSurfaceFlags {
    /// Export the surface to be read by an external consumer.
    pub const READ: u32 = 0x0001;
    /// Export the surface to be written to by an external application.
    pub const WRITE: u32 = 0x0002;
    /// Export the surface's layers separately.
    pub const SEPARATE_LAYERS: u32 = 0x0004;
    /// Export all layers of the surface in one object.
    pub const COMPOSED_LAYERS: u32 = 0x0008;

    /// The set with no flag.
    pub fn empty() -> (r: Self)
        ensures
            r.0 == 0,
    {
        ExportSurfaceFlags(0)
    }

    /// The raw flag bits.
    pub fn bits(&self) -> (r: u32)
        ensures
            r == self.0,
    {
        self.0
    }

    /// Whether every flag set in `other` is also set in `self`.
    pub fn contains(&self, other: ExportSurfaceFlags) -> (r: bool)
        ensures
            r == (self.0 & other.0 == other.0),
    {
        self.0 & other.0 == other.0
    }

    /// The flags set in `self` or in `other`.
    pub fn union(&self, other: ExportSurfaceFlags) -> (r: Self)
        ensures
            r.0 == self.0 | other.0,
    {
        ExportSurfaceFlags(self.0 | other.0)
    }
}

/// Surface pixel formats.
///
/// The wrapped value holds the flag bits; the associated constants name the
/// known flags.
#[derive(Clone, Copy, Debug, PartialEq, Eq, Structural)]
pub struct RTFormat(pub u32);

impl RTFormat {
    pub const YUV420: u32 = 0x00000001;
    pub const YUV422: u32 = 0x00000002;
    pub const YUV444: u32 = 0x00000004;
    pub const YUV411: u32 = 0x00000008;
    pub const YUV400: u32 = 0x00000010;
    pub const YUV420_10: u32 = 0x00000100;
    pub const YUV422_10: u32 = 0x00000200;
    pub const YUV444_10: u32 = 0x00000400;
    pub const YUV420_12: u32 = 0x00001000;
    pub const YUV422_12: u32 = 0x00002000;
    pub const YUV444_12: u32 = 0x00004000;
    pub const RGB16: u32 = 0x00010000;
    pub const RGB32: u32 = 0x00020000;
    pub const RGBP: u32 = 0x00100000;
    pub const RGB32_10: u32 = 0x00200000;
    pub const PROTECTED: u32 = 0x80000000;

    /// The set with no flag.
    pub fn empty() -> (r: Self)
        ensures
            r.0 == 0,
    {
        RTFormat(0)
    }

    /// The raw flag bits.
    pub fn bits(&self) -> (r: u32)
        ensures
            r == self.0,
    {
        self.0
    }

    /// Whether every flag set in `other` is also set in `self`.
    pub fn contains(&self, other: RTFormat) -> (r: bool)
        ensures
            r == (self.0 & other.0 == other.0),
    {
        self.0 & other.0 == other.0
    }

    /// The flags set in `self` or in `other`.
    pub fn union(&self, other: RTFormat) -> (r: Self)
        ensures
            r.0 == self.0 | other.0,
    {
        RTFormat(self.0 | other.0)
    }
}

/// Enumeration of the available surface attribute types.
///
/// The wrapped value is the code the driver interface uses; the associated
/// constants name the known codes.
#[derive(Clone, Copy, Debug, PartialEq, Eq, Structural)]
pub struct SurfaceAttribType(pub i32);

impl SurfaceAttribType {
    pub const NONE: i32 = 0;
    pub const PixelFormat: i32 = 1;
    pub const MinWidth: i32 = 2;
    pub const MaxWidth: i32 = 3;
    pub const MinHeight: i32 = 4;
    pub const MaxHeight: i32 = 5;
    pub const MemoryType: i32 = 6;
    pub const ExternalBufferDescriptor: i32 = 7;
    pub const UsageHint: i32 = 8;
    pub const DRMFormatModifiers: i32 = 9;
    pub const AlignmentSize: i32 = 10;
}

/// Surface rendering status.
///
/// The wrapped value is the code the driver interface uses; the associated
/// constants name the known codes.
#[derive(Clone, Copy, Debug, PartialEq, Eq, Structural)]
pub struct SurfaceStatus(pub i32);

impl SurfaceStatus {
    /// The surface is being rendered to (or from).
    pub const Rendering: i32 = 1;
    /// The surface is being displayed.
    pub const Displaying: i32 = 2;
    /// The surface is unused and idle.
    pub const Ready: i32 = 4;
    pub const Skipped: i32 = 8;
}

/// The kind of a decode error.
///
/// The wrapped value is the code the driver interface uses; the associated
/// constants name the known codes.
#[derive(Clone, Copy, Debug, PartialEq, Eq, Structural)]
pub struct DecodeErrorType(pub i32);

impl DecodeErrorType {
    pub const SliceMissing: i32 = 0;
    /// Macroblock decoding error.
    pub const MBError: i32 = 1;
}

/// Flags associated with a queried [`SurfaceAttrib`].
///
/// The wrapped value holds the flag bits; the associated constants name the
/// known flags.
#[derive(Clone, Copy, Debug, PartialEq, Eq, Structural)]
pub struct SurfaceAttribFlags(pub i32);

impl SurfaceAttribFlags {
    pub const GETTABLE: i32 = 0x00000001;
    pub const SETTABLE: i32 = 0x00000002;

    /// The set with no flag.
    pub fn empty() -> (r: Self)
        ensures
            r.0 == 0,
    {
        SurfaceAttribFlags(0)
    }

    /// The raw flag bits.
    pub fn bits(&self) -> (r: i32)
        ensures
            r == self.0,
    {
        self.0
    }

    /// Whether every flag set in `other` is also set in `self`.
    pub fn contains(&self, other: SurfaceAttribFlags) -> (r: bool)
        ensures
            r == (self.0 & other.0 == other.0),
    {
        self.0 & other.0 == other.0
    }

    /// The flags set in `self` or in `other`.
    pub fn union(&self, other: SurfaceAttribFlags) -> (r: Self)
        ensures
            r.0 == self.0 | other.0,
    {
        SurfaceAttribFlags(self.0 | other.0)
    }
}

/// The kinds of memory that can back a surface.
///
/// The wrapped value holds the flag bits; the associated constants name the
/// known flags.
#[derive(Clone, Copy, Debug, PartialEq, Eq, Structural)]
pub struct SurfaceAttribMemoryType(pub u32);

impl SurfaceAttribMemoryType {
    pub const VA: u32 = 0x00000001;
    pub const V4L2: u32 = 0x00000002;
    pub const USER_PTR: u32 = 0x00000004;
    pub const KERNEL_DRM: u32 = 0x10000000;
    pub const DRM_PRIME: u32 = 0x20000000;
    pub const DRM_PRIME_2: u32 = 0x40000000;
    /// Every bit that names a known kind of memory.
    pub const ALL_BITS: u32 = 0x70000007;

    /// The set with no flag.
    pub fn empty() -> (r: Self)
        ensures
            r.0 == 0,
    {
        SurfaceAttribMemoryType(0)
    }

    /// The raw flag bits.
    pub fn bits(&self) -> (r: u32)
        ensures
            r == self.0,
    {
        self.0
    }

    /// Whether every flag set in `other` is also set in `self`.
    pub fn contains(&self, other: SurfaceAttribMemoryType) -> (r: bool)
        ensures
            r == (self.0 & other.0 == other.0),
    {
        self.0 & other.0 == other.0
    }

    /// The flags set in `self` or in `other`.
    pub fn union(&self, other: SurfaceAttribMemoryType) -> (r: Self)
        ensures
            r.0 == self.0 | other.0,
    {
        SurfaceAttribMemoryType(self.0 | other.0)
    }
}

impl Default for RTFormat {
    #[inline]
    fn default() -> (r: Self)
        ensures
            r == RTFormat(RTFormat::YUV420),
    {
        RTFormat(RTFormat::YUV420)
    }
}

/// The macroblock range that a decode error affected.
///
/// Layout, in field order: the status and the first and last macroblock
/// (32 bits each), the error type (32-bit), the macroblock count (32-bit),
/// then 3 reserved 32-bit words.
#[derive(Clone, Copy, Debug)]
pub struct SurfaceDecodeMBErrors {
    pub status: i32,
    pub start_mb: u32,
    pub end_mb: u32,
    pub decode_error_type: DecodeErrorType,
    pub num_mb: u32,
    pub va_reserved: [u32; 3],
}

/// Enumeration of supported [`SurfaceAttrib`]utes.
#[derive(Clone, Copy, Debug)]
#[non_exhaustive]
pub enum SurfaceAttribEnum {
    PixelFormat(PixelFormat),
    MemoryType(SurfaceAttribMemoryType),
}

/// Dynamically typed value of a [`SurfaceAttrib`].
///
/// A floating-point value is carried as its 32 bits, a pointer or function
/// as its address.
#[derive(Clone, Copy, Debug, PartialEq, Eq, Structural)]
pub enum GenericValue {
    /// A 32-bit signed integer.
    Integer(i32),
    /// A 32-bit floating-point value, as its bit pattern.
    Float(u32),
    /// A generic pointer, as its address.
    Pointer(usize),
    /// A function pointer, as its address.
    Func(usize),
}

impl GenericValue {
    /// An integer value.
    pub fn integer(i: i32) -> (r: Self)
        ensures
            r == GenericValue::Integer(i),
    {
        GenericValue::Integer(i)
    }

    /// The integer, if the value is one.
    pub fn as_int(self) -> (r: Option<i32>)
        ensures
            r == (match self {
                GenericValue::Integer(i) => Some(i),
                _ => None,
            }),
    {
        match self {
            GenericValue::Integer(i) => Some(i),
            _ => None,
        }
    }

    /// The bit pattern of the floating-point value, if the value is one.
    pub fn as_float_bits(self) -> (r: Option<u32>)
        ensures
            r == (match self {
                GenericValue::Float(bits) => Some(bits),
                _ => None,
            }),
    {
        match self {
            GenericValue::Float(bits) => Some(bits),
            _ => None,
        }
    }

    /// The address of the pointer, if the value is one.
    pub fn as_pointer(self) -> (r: Option<usize>)
        ensures
            r == (match self {
                GenericValue::Pointer(p) => Some(p),
                _ => None,
            }),
    {
        match self {
            GenericValue::Pointer(p) => Some(p),
            _ => None,
        }
    }

    /// The address of the function, if the value is one.
    pub fn as_func(self) -> (r: Option<usize>)
        ensures
            r == (match self {
                GenericValue::Func(p) => Some(p),
                _ => None,
            }),
    {
        match self {
            GenericValue::Func(p) => Some(p),
            _ => None,
        }
    }
}

/// A surface attribute can be used to request a specific property or configuration during
/// surface creation.
///
/// It can be created [`From`] a [`SurfaceAttribEnum`], or queried from a configuration.
#[derive(Clone, Copy, Debug)]
pub struct SurfaceAttrib {
    pub type_: SurfaceAttribType,
    pub flags: SurfaceAttribFlags,
    pub value: GenericValue,
}

/// The 32 bits of `i`, read as an unsigned value.
pub open spec fn bits_of(i: i32) -> u32 {
    if i >= 0 {
        i as u32
    } else {
        (i + 0x1_0000_0000) as u32
    }
}

/// The 32 bits of `u`, read as a signed value.
pub open spec fn signed_of(u: u32) -> i32 {
    if u <= i32::MAX {
        u as i32
    } else {
        (u - 0x1_0000_0000) as i32
    }
}

/// Reads the 32 bits of a signed value as an unsigned one.
fn reinterpret_unsigned(i: i32) -> (r: u32)
    ensures
        r == bits_of(i),
{
    if i >= 0 {
        i as u32
    } else {
        (i as i64 + 0x1_0000_0000) as u32
    }
}

/// Reads the 32 bits of an unsigned value as a signed one.
fn reinterpret_signed(u: u32) -> (r: i32)
    ensures
        r == signed_of(u),
{
    if u <= 0x7fff_ffff {
        u as i32
    } else {
        (u as i64 - 0x1_0000_0000) as i32
    }
}

/// The typed form of an attribute with the given type and value, if the
/// type is a known one and the value an integer. Memory type bits that name
/// no known kind of memory are dropped.
pub open spec fn attrib_enum(type_: SurfaceAttribType, value: GenericValue) -> Option<
    SurfaceAttribEnum,
> {
    if type_.0 == SurfaceAttribType::PixelFormat && value is Integer {
        Some(SurfaceAttribEnum::PixelFormat(PixelFormat(bits_of(value->Integer_0))))
    } else if type_.0 == SurfaceAttribType::MemoryType && value is Integer {
        Some(
            SurfaceAttribEnum::MemoryType(
                SurfaceAttribMemoryType(
                    bits_of(value->Integer_0) & SurfaceAttribMemoryType::ALL_BITS,
                ),
            ),
        )
    } else {
        None
    }
}

impl SurfaceAttrib {
    #[inline]
    pub fn ty(&self) -> (r: SurfaceAttribType)
        ensures
            r == self.type_,
    {
        self.type_
    }

    #[inline]
    pub fn flags(&self) -> (r: SurfaceAttribFlags)
        ensures
            r == self.flags,
    {
        self.flags
    }

    /// Whether the attribute can be queried.
    pub fn is_readable(&self) -> (r: bool)
        ensures
            r == (self.flags.0 & SurfaceAttribFlags::GETTABLE == SurfaceAttribFlags::GETTABLE),
    {
        self.flags.contains(SurfaceAttribFlags(SurfaceAttribFlags::GETTABLE))
    }

    /// Whether the attribute can be set.
    pub fn is_writable(&self) -> (r: bool)
        ensures
            r == (self.flags.0 & SurfaceAttribFlags::SETTABLE == SurfaceAttribFlags::SETTABLE),
    {
        self.flags.contains(SurfaceAttribFlags(SurfaceAttribFlags::SETTABLE))
    }

    #[inline]
    pub fn raw_value(&self) -> (r: GenericValue)
        ensures
            r == self.value,
    {
        self.value
    }

    /// The typed form of the attribute, if its type is a known one.
    pub fn as_enum(&self) -> (r: Option<SurfaceAttribEnum>)
        ensures
            r == attrib_enum(self.type_, self.value),
    {
        let value = match self.value.as_int() {
            Some(value) => value,
            None => {
                return None;
            },
        };
        if self.type_.0 == SurfaceAttribType::PixelFormat {
            Some(
                SurfaceAttribEnum::PixelFormat(
                    PixelFormat::from_u32_le(reinterpret_unsigned(value)),
                ),
            )
        } else if self.type_.0 == SurfaceAttribType::MemoryType {
            Some(
                SurfaceAttribEnum::MemoryType(
                    SurfaceAttribMemoryType(
                        reinterpret_unsigned(value) & SurfaceAttribMemoryType::ALL_BITS,
                    ),
                ),
            )
        } else {
            None
        }
    }
}

/// The settable attribute that requests what `value` names.
pub open spec fn attrib_from_enum(value: SurfaceAttribEnum) -> SurfaceAttrib {
    match value {
        SurfaceAttribEnum::PixelFormat(format) => SurfaceAttrib {
            type_: SurfaceAttribType(SurfaceAttribType::PixelFormat),
            flags: SurfaceAttribFlags(SurfaceAttribFlags::SETTABLE),
            value: GenericValue::Integer(signed_of(format.0)),
        },
        SurfaceAttribEnum::MemoryType(ty) => SurfaceAttrib {
            type_: SurfaceAttribType(SurfaceAttribType::MemoryType),
            flags: SurfaceAttribFlags(SurfaceAttribFlags::SETTABLE),
            value: GenericValue::Integer(signed_of(ty.0)),
        },
    }
}

impl From<SurfaceAttribEnum> for SurfaceAttrib {
    fn from(value: SurfaceAttribEnum) -> (r: Self) {
        match value {
            SurfaceAttribEnum::PixelFormat(format) => SurfaceAttrib {
                type_: SurfaceAttribType(SurfaceAttribType::PixelFormat),
                flags: SurfaceAttribFlags(SurfaceAttribFlags::SETTABLE),
                value: GenericValue::integer(reinterpret_signed(format.to_u32_le())),
            },
            SurfaceAttribEnum::MemoryType(ty) => SurfaceAttrib {
                type_: SurfaceAttribType(SurfaceAttribType::MemoryType),
                flags: SurfaceAttribFlags(SurfaceAttribFlags::SETTABLE),
                value: GenericValue::integer(reinterpret_signed(ty.bits())),
            },
        }
    }
}

impl vstd::std_specs::convert::FromSpecImpl<SurfaceAttribEnum> for SurfaceAttrib {
    open spec fn obeys_from_spec() -> bool {
        true
    }

    open spec fn from_spec(value: SurfaceAttribEnum) -> Self {
        attrib_from_enum(value)
    }
}

/// The pixel formats named by the pixel format attributes among
/// `attribs`, in order.
pub open spec fn pixel_formats_of(attribs: Seq<SurfaceAttrib>) -> Seq<PixelFormat>
    decreases attribs.len(),
{
    if attribs.len() == 0 {
        Seq::empty()
    } else {
        match attrib_enum(attribs.last().type_, attribs.last().value) {
            Some(SurfaceAttribEnum::PixelFormat(format)) => pixel_formats_of(
                attribs.drop_last(),
            ).push(format),
            _ => pixel_formats_of(attribs.drop_last()),
        }
    }
}

/// Collection of supported [`SurfaceAttrib`]s.
#[derive(Clone)]
pub struct SurfaceAttributes {
    pub vec: Vec<SurfaceAttrib>,
}

impl View for SurfaceAttributes {
    type V = Seq<SurfaceAttrib>;

    open spec fn view(&self) -> Seq<SurfaceAttrib> {
        self.vec@
    }
}

impl SurfaceAttributes {
    #[inline]
    pub fn len(&self) -> (r: usize)
        ensures
            r == self@.len(),
    {
        self.vec.len()
    }

    #[inline]
    pub fn is_empty(&self) -> (r: bool)
        ensures
            r == (self@.len() == 0),
    {
        self.vec.len() == 0
    }

    /// Returns all [`PixelFormat`] attributes in the attribute list, in order.
    ///
    /// When querying surface attributes, this is the list of supported pixel formats.
    pub fn pixel_formats(&self) -> (r: Vec<PixelFormat>)
        ensures
            r@ == pixel_formats_of(self@),
    {
        let mut formats: Vec<PixelFormat> = Vec::new();
        let mut i: usize = 0;
        while i < self.vec.len()
            invariant
                i <= self.vec.len(),
                formats@ == pixel_formats_of(self@.take(i as int)),
            decreases self.vec.len() - i,
        {
            proof {
                assert(self@.take(i + 1).drop_last() =~= self@.take(i as int));
            }
            match self.vec[i].as_enum() {
                Some(SurfaceAttribEnum::PixelFormat(format)) => {
                    formats.push(format);
                },
                _ => {},
            }
            i += 1;
        }
        proof {
            assert(self@.take(self.vec.len() as int) =~= self@);
        }
        formats
    }

    /// The attributes, in order.
    pub fn into_vec(self) -> (r: Vec<SurfaceAttrib>)
        ensures
            r@ == self@,
    {
        self.vec
    }
}

/// How the pixels of a surface are reached.
#[derive(Clone, Copy, Debug, PartialEq, Eq, Structural)]
pub enum ImageAccess {
    /// Through an image derived from the surface, which shares its memory.
    Derived,
    /// Through a separate image that the surface is copied to.
    Copied,
}

/// Decides how to reach the pixels of a surface from the status of the
/// attempt to derive an image from it: a derived image if the attempt
/// succeeded, a separate image if the driver said the operation failed,
/// and an error for every other status.
pub fn image_access(location: &'static str, status: VAStatus) -> (r: Result<ImageAccess, CallError>)
    ensures
        r == (if status.0 == VAStatus::SUCCESS {
            Ok::<ImageAccess, CallError>(ImageAccess::Derived)
        } else if status.0 == VAError::ERROR_OPERATION_FAILED {
            Ok::<ImageAccess, CallError>(ImageAccess::Copied)
        } else {
            Err::<ImageAccess, CallError>(CallError { location, error: VAError(status.0) })
        }),
{
    if status.0 == VAStatus::SUCCESS {
        Ok(ImageAccess::Derived)
    } else if status.0 == VAError::ERROR_OPERATION_FAILED {
        Ok(ImageAccess::Copied)
    } else {
        Err(CallError { location, error: VAError(status.0) })
    }
}

} // verus!
