//! Image formats.

#![allow(non_upper_case_globals)]

use vstd::prelude::*;
use crate::pixelformat::PixelFormat;
use crate::raw::VA_PADDING_LOW;

verus! {

/// The byte order of the pixels of an image.
///
/// The wrapped value is the code the driver interface uses; the associated
/// constants name the known codes.
#[derive(Clone, Copy, Debug, PartialEq, Eq, Structural)]
pub struct ByteOrder(pub u32);

impl ByteOrder {
    pub const NONE: u32 = 0;
    pub const LsbFirst: u32 = 1;
    pub const MsbFirst: u32 = 2;
}

/// Describes how the pixels of an image are stored.
///
/// Layout, in field order: the pixel format code, the byte order, bits per
/// pixel, depth and the four channel masks (32 bits each), then
/// `VA_PADDING_LOW` reserved 32-bit words.
#[derive(Clone, Copy, Debug)]
pub struct ImageFormat {
    pub fourcc: PixelFormat,
    pub byte_order: ByteOrder,
    pub bits_per_pixel: u32,
    pub depth: u32,
    pub red_mask: u32,
    pub green_mask: u32,
    pub blue_mask: u32,
    pub alpha_mask: u32,
    pub va_reserved: [u32; VA_PADDING_LOW],
}

impl ImageFormat {
    /// The format with the pixel format code 0 and every other field zero.
    pub fn zeroed() -> (r: Self)
        ensures
            r == ImageFormat::of(PixelFormat(0)),
    {
        Self::new(PixelFormat(0))
    }

    /// The format with the given pixel format and every other field zero.
    pub open spec fn of(pixel_format: PixelFormat) -> Self {
        ImageFormat {
            fourcc: pixel_format,
            byte_order: ByteOrder(ByteOrder::NONE),
            bits_per_pixel: 0,
            depth: 0,
            red_mask: 0,
            green_mask: 0,
            blue_mask: 0,
            alpha_mask: 0,
            va_reserved: [0u32; VA_PADDING_LOW],
        }
    }

    /// The format with the given pixel format and every other field zero.
    pub fn new(pixel_format: PixelFormat) -> (r: Self)
        ensures
            r == ImageFormat::of(pixel_format),
    {
        ImageFormat {
            fourcc: pixel_format,
            byte_order: ByteOrder(ByteOrder::NONE),
            bits_per_pixel: 0,
            depth: 0,
            red_mask: 0,
            green_mask: 0,
            blue_mask: 0,
            alpha_mask: 0,
            va_reserved: [0u32; VA_PADDING_LOW],
        }
    }

    #[inline]
    pub fn pixel_format(&self) -> (r: PixelFormat)
        ensures
            r == self.fourcc,
    {
        self.fourcc
    }

    #[inline]
    pub fn set_pixel_format(&mut self, fmt: PixelFormat)
        ensures
            *final(self) == (ImageFormat { fourcc: fmt, ..*old(self) }),
    {
        self.fourcc = fmt;
    }

    #[inline]
    pub fn byte_order(&self) -> (r: ByteOrder)
        ensures
            r == self.byte_order,
    {
        self.byte_order
    }

    #[inline]
    pub fn set_byte_order(&mut self, byte_order: ByteOrder)
        ensures
            *final(self) == (ImageFormat { byte_order, ..*old(self) }),
    {
        self.byte_order = byte_order;
    }

    #[inline]
    pub fn bits_per_pixel(&self) -> (r: u32)
        ensures
            r == self.bits_per_pixel,
    {
        self.bits_per_pixel
    }

    #[inline]
    pub fn set_bits_per_pixel(&mut self, bits_per_pixel: u32)
        ensures
            *final(self) == (ImageFormat { bits_per_pixel, ..*old(self) }),
    {
        self.bits_per_pixel = bits_per_pixel;
    }

    #[inline]
    pub fn depth(&self) -> (r: u32)
        ensures
            r == self.depth,
    {
        self.depth
    }

    #[inline]
    pub fn set_depth(&mut self, depth: u32)
        ensures
            *final(self) == (ImageFormat { depth, ..*old(self) }),
    {
        self.depth = depth;
    }

    #[inline]
    pub fn red_mask(&self) -> (r: u32)
        ensures
            r == self.red_mask,
    {
        self.red_mask
    }

    #[inline]
    pub fn set_red_mask(&mut self, red_mask: u32)
        ensures
            *final(self) == (ImageFormat { red_mask, ..*old(self) }),
    {
        self.red_mask = red_mask;
    }

    #[inline]
    pub fn green_mask(&self) -> (r: u32)
        ensures
            r == self.green_mask,
    {
        self.green_mask
    }

    #[inline]
    pub fn set_green_mask(&mut self, green_mask: u32)
        ensures
            *final(self) == (ImageFormat { green_mask, ..*old(self) }),
    {
        self.green_mask = green_mask;
    }

    #[inline]
    pub fn blue_mask(&self) -> (r: u32)
        ensures
            r == self.blue_mask,
    {
        self.blue_mask
    }

    #[inline]
    pub fn set_blue_mask(&mut self, blue_mask: u32)
        ensures
            *final(self) == (ImageFormat { blue_mask, ..*old(self) }),
    {
        self.blue_mask = blue_mask;
    }

    #[inline]
    pub fn alpha_mask(&self) -> (r: u32)
        ensures
            r == self.alpha_mask,
    {
        self.alpha_mask
    }

    #[inline]
    pub fn set_alpha_mask(&mut self, alpha_mask: u32)
        ensures
            *final(self) == (ImageFormat { alpha_mask, ..*old(self) }),
    {
        self.alpha_mask = alpha_mask;
    }
}

impl From<PixelFormat> for ImageFormat {
    fn from(value: PixelFormat) -> (r: Self) {
        ImageFormat::new(value)
    }
}

impl vstd::std_specs::convert::FromSpecImpl<PixelFormat> for ImageFormat {
    open spec fn obeys_from_spec() -> bool {
        true
    }

    open spec fn from_spec(value: PixelFormat) -> Self {
        ImageFormat::of(value)
    }
}

/// A list of image formats.
#[derive(Clone)]
pub struct ImageFormats {
    pub vec: Vec<ImageFormat>,
}

impl View for ImageFormats {
    type V = Seq<ImageFormat>;

    open spec fn view(&self) -> Seq<ImageFormat> {
        self.vec@
    }
}

impl ImageFormats {
    pub fn len(&self) -> (r: usize)
        ensures
            r == self@.len(),
    {
        self.vec.len()
    }

    pub fn is_empty(&self) -> (r: bool)
        ensures
            r == (self@.len() == 0),
    {
        self.vec.len() == 0
    }

    /// The formats, in order.
    pub fn into_vec(self) -> (r: Vec<ImageFormat>)
        ensures
            r@ == self@,
    {
        self.vec
    }
}

} // verus!
