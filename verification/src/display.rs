//! Display attributes.

#![allow(non_upper_case_globals)]

use vstd::prelude::*;
use crate::raw::VA_PADDING_LOW;

verus! {

/// The kind of a display attribute.
///
/// The wrapped value is the code the driver interface uses; the associated
/// constants name the known codes.
#[derive(Clone, Copy, Debug, PartialEq, Eq, Structural)]
pub struct DisplayAttribType(pub i32);

impl DisplayAttribType {
    pub const Brightness: i32 = 0;
    pub const Contrast: i32 = 1;
    pub const Hue: i32 = 2;
    pub const Saturation: i32 = 3;
    pub const BackgroundColor: i32 = 4;
    pub const DirectSurface: i32 = 5;
    pub const Rotation: i32 = 6;
    pub const OutofLoopDeblock: i32 = 7;
    pub const BLEBlackMode: i32 = 8;
    pub const BLEWhiteMode: i32 = 9;
    pub const BlueStretch: i32 = 10;
    pub const SkinColorCorrection: i32 = 11;
    pub const CSCMatrix: i32 = 12;
    pub const BlendColor: i32 = 13;
    pub const OverlayAutoPaintColorKey: i32 = 14;
    pub const OverlayColorKey: i32 = 15;
    pub const RenderMode: i32 = 16;
    pub const RenderDevice: i32 = 17;
    pub const RenderRect: i32 = 18;
    pub const SubDevice: i32 = 19;
    pub const Copy: i32 = 20;
    pub const PCIID: i32 = 21;
}

/// What can be done with a display attribute.
///
/// The wrapped value holds the flag bits; the associated constants name the
/// known flags.
#[derive(Clone, Copy, Debug, PartialEq, Eq, Structural)]
pub struct DisplayAttribFlags(pub u32);

impl DisplayAttribFlags {
    pub const GETTABLE: u32 = 0x0001;
    pub const SETTABLE: u32 = 0x0002;

    /// The set with no flag.
    pub fn empty() -> (r: Self)
        ensures
            r.0 == 0,
    {
        DisplayAttribFlags(0)
    }

    /// The raw flag bits.
    pub fn bits(&self) -> (r: u32)
        ensures
            r == self.0,
    {
        self.0
    }

    /// Whether every flag set in `other` is also set in `self`.
    pub fn contains(&self, other: DisplayAttribFlags) -> (r: bool)
        ensures
            r == (self.0 & other.0 == other.0),
    {
        self.0 & other.0 == other.0
    }

    /// The flags set in `self` or in `other`.
    pub fn union(&self, other: DisplayAttribFlags) -> (r: Self)
        ensures
            r.0 == self.0 | other.0,
    {
        DisplayAttribFlags(self.0 | other.0)
    }
}

/// One attribute of a display: its type, its range, its value and what can
/// be done with it.
///
/// Layout, in field order: the type code, the least and the greatest value,
/// the value and the flags (32 bits each), then `VA_PADDING_LOW` reserved
/// 32-bit words.
#[derive(Clone, Copy, Debug)]
pub struct DisplayAttribute {
    pub type_: DisplayAttribType,
    pub min_value: i32,
    pub max_value: i32,
    pub value: i32,
    pub flags: DisplayAttribFlags,
    pub va_reserved: [u32; VA_PADDING_LOW],
}

impl DisplayAttribute {
    /// The attribute of type `ty` with value `value` and every other field
    /// zero.
    pub open spec fn of(ty: DisplayAttribType, value: i32) -> Self {
        DisplayAttribute {
            type_: ty,
            min_value: 0,
            max_value: 0,
            value,
            flags: DisplayAttribFlags(0),
            va_reserved: [0u32; VA_PADDING_LOW],
        }
    }

    /// The attribute with type code 0 and every other field zero.
    pub fn zeroed() -> (r: Self)
        ensures
            r == DisplayAttribute::of(DisplayAttribType(0), 0),
    {
        Self::new(DisplayAttribType(0), 0)
    }

    /// An attribute of type `ty` to be set to `value`.
    pub fn new(ty: DisplayAttribType, value: i32) -> (r: Self)
        ensures
            r == DisplayAttribute::of(ty, value),
    {
        DisplayAttribute {
            type_: ty,
            min_value: 0,
            max_value: 0,
            value,
            flags: DisplayAttribFlags(0),
            va_reserved: [0u32; VA_PADDING_LOW],
        }
    }

    pub fn ty(&self) -> (r: DisplayAttribType)
        ensures
            r == self.type_,
    {
        self.type_
    }

    pub fn min_value(&self) -> (r: i32)
        ensures
            r == self.min_value,
    {
        self.min_value
    }

    pub fn max_value(&self) -> (r: i32)
        ensures
            r == self.max_value,
    {
        self.max_value
    }

    pub fn value(&self) -> (r: i32)
        ensures
            r == self.value,
    {
        self.value
    }

    pub fn flags(&self) -> (r: DisplayAttribFlags)
        ensures
            r == self.flags,
    {
        self.flags
    }
}

/// A list of display attributes.
#[derive(Clone)]
pub struct DisplayAttributes {
    pub vec: Vec<DisplayAttribute>,
}

impl View for DisplayAttributes {
    type V = Seq<DisplayAttribute>;

    open spec fn view(&self) -> Seq<DisplayAttribute> {
        self.vec@
    }
}

impl DisplayAttributes {
    pub fn len(&self) -> (r: usize)
        ensures
            r == self@.len(),
    {
        self.vec.len()
    }

    pub fn is_empty(&self) -> (r: bool)
        ensures
            r == (self@.len() == 0),
    {
        self.vec.len() == 0
    }

    /// The attributes, in order.
    pub fn into_vec(self) -> (r: Vec<DisplayAttribute>)
        ensures
            r@ == self@,
    {
        self.vec
    }
}

/// The windowing interface a display was opened through.
#[derive(Debug, Clone, Copy, PartialEq, Eq, Structural)]
#[non_exhaustive]
pub enum DisplayApi {
    Xlib,
    Wayland,
    Drm,
}

/// `name` as the driver interface wants it: ending in a zero byte, which
/// is appended unless `name` already ends in one.
pub open spec fn terminated(name: Seq<u8>) -> Seq<u8> {
    if name.len() > 0 && name.last() == 0 {
        name
    } else {
        name.push(0)
    }
}

/// Returns `name` with a terminating zero byte, appending one unless
/// `name` already ends in one.
pub fn driver_name_bytes(name: &[u8]) -> (r: Vec<u8>)
    ensures
        r@ == terminated(name@),
{
    let mut buf: Vec<u8> = Vec::new();
    buf.extend_from_slice(name);
    if name.len() == 0 || name[name.len() - 1] != 0 {
        buf.push(0);
    }
    proof {
        assert(buf@ =~= terminated(name@));
    }
    buf
}

} // verus!
