//! Records of the video processing interface.

#![allow(non_upper_case_globals)]

use vstd::prelude::*;
use crate::pixelformat::PixelFormat;
use crate::Mirror;

verus! {

/// Enumeration of all known filter types.
///
/// The wrapped value is the code the driver interface uses; the associated
/// constants name the known codes.
#[derive(Clone, Copy, Debug, PartialEq, Eq, Structural)]
pub struct FilterType(pub u32);

impl FilterType {
    pub const NONE: u32 = 0;
    pub const NoiseReduction: u32 = 1;
    pub const Deinterlacing: u32 = 2;
    pub const Sharpening: u32 = 3;
    pub const ColorBalance: u32 = 4;
    pub const SkinToneEnhancement: u32 = 5;
    pub const TotalColorCorrection: u32 = 6;
    pub const HVSNoiseReduction: u32 = 7;
    pub const HighDynamicRangeToneMapping: u32 = 8;
    pub const LUT3D: u32 = 9;
}

/// Enumeration of the deinterlacing algorithm types.
///
/// The wrapped value is the code the driver interface uses; the associated
/// constants name the known codes.
#[derive(Clone, Copy, Debug, PartialEq, Eq, Structural)]
pub struct DeinterlacingType(pub u32);

impl DeinterlacingType {
    pub const NONE: u32 = 0;
    pub const Bob: u32 = 1;
    pub const Weave: u32 = 2;
    pub const MotionAdaptive: u32 = 3;
    pub const MotionCompensated: u32 = 4;
}

/// Enumeration of the color balance attributes.
///
/// The wrapped value is the code the driver interface uses; the associated
/// constants name the known codes.
#[derive(Clone, Copy, Debug, PartialEq, Eq, Structural)]
pub struct ColorBalanceType(pub u32);

impl ColorBalanceType {
    pub const NONE: u32 = 0;
    pub const Hue: u32 = 1;
    pub const Saturation: u32 = 2;
    pub const Brightness: u32 = 3;
    pub const Contrast: u32 = 4;
    pub const AutoSaturation: u32 = 5;
    pub const AutoBrightness: u32 = 6;
    pub const AutoContrast: u32 = 7;
}

/// Enumeration of the known color standards.
///
/// The wrapped value is the code the driver interface uses; the associated
/// constants name the known codes.
#[derive(Clone, Copy, Debug, PartialEq, Eq, Structural)]
pub struct ColorStandardType(pub u32);

impl ColorStandardType {
    /// Unknown/Arbitrary.
    pub const NONE: u32 = 0;
    /// ITU-R BT.601. The color standard used by JPEG/JFIF images.
    pub const BT601: u32 = 1;
    /// ITU-R BT.709.
    pub const BT709: u32 = 2;
    /// ITU-R BT.470-2 System M.
    pub const BT470M: u32 = 3;
    /// ITU-R BT.470-2 System B, G.
    pub const BT470BG: u32 = 4;
    /// SMPTE-170M.
    pub const SMPTE170M: u32 = 5;
    /// SMPTE-240M.
    pub const SMPTE240M: u32 = 6;
    pub const GenericFilm: u32 = 7;
    pub const SRGB: u32 = 8;
    pub const STRGB: u32 = 9;
    pub const XVYCC601: u32 = 10;
    pub const XVYCC709: u32 = 11;
    /// ITU-R BT.2020.
    pub const BT2020: u32 = 12;
    pub const Explicit: u32 = 13;
}

/// Enumeration of the colors that total color correction can adjust.
///
/// The wrapped value is the code the driver interface uses; the associated
/// constants name the known codes.
#[derive(Clone, Copy, Debug, PartialEq, Eq, Structural)]
pub struct TotalColorCorrectionType(pub u32);

impl TotalColorCorrectionType {
    pub const NONE: u32 = 0;
    pub const Red: u32 = 1;
    pub const Green: u32 = 2;
    pub const Blue: u32 = 3;
    pub const Cyan: u32 = 4;
    pub const Magenta: u32 = 5;
    pub const Yellow: u32 = 6;
}

/// Enumeration of the kinds of high dynamic range metadata.
///
/// The wrapped value is the code the driver interface uses; the associated
/// constants name the known codes.
#[derive(Clone, Copy, Debug, PartialEq, Eq, Structural)]
pub struct HighDynamicRangeMetadataType(pub u32);

impl HighDynamicRangeMetadataType {
    pub const NONE: u32 = 0;
    pub const HDR10: u32 = 1;
}

/// Video processing performance mode.
///
/// The wrapped value is the code the driver interface uses; the associated
/// constants name the known codes.
#[derive(Clone, Copy, Debug, PartialEq, Eq, Structural)]
pub struct ProcMode(pub u32);

impl ProcMode {
    pub const DefaultMode: u32 = 0;
    pub const PowerSavingMode: u32 = 1;
    pub const PerformanceMode: u32 = 2;
}

/// Flags that control how a surface is blended onto its target.
///
/// The wrapped value holds the flag bits; the associated constants name the
/// known flags.
#[derive(Clone, Copy, Debug, PartialEq, Eq, Structural)]
pub struct BlendFlags(pub u32);

impl BlendFlags {
    pub const GLOBAL_ALPHA: u32 = 0x0001;
    pub const PREMULTIPLIED_ALPHA: u32 = 0x0002;
    pub const LUMA_KEY: u32 = 0x0010;

    /// The set with no flag.
    pub fn empty() -> (r: Self)
        ensures
            r.0 == 0,
    {
        BlendFlags(0)
    }

    /// The raw flag bits.
    pub fn bits(&self) -> (r: u32)
        ensures
            r == self.0,
    {
        self.0
    }

    /// Whether every flag set in `other` is also set in `self`.
    pub fn contains(&self, other: BlendFlags) -> (r: bool)
        ensures
            r == (self.0 & other.0 == other.0),
    {
        self.0 & other.0 == other.0
    }

    /// The flags set in `self` or in `other`.
    pub fn union(&self, other: BlendFlags) -> (r: Self)
        ensures
            r.0 == self.0 | other.0,
    {
        BlendFlags(self.0 | other.0)
    }
}

/// Flags that may be applied to a video processing pipeline.
///
/// The wrapped value holds the flag bits; the associated constants name the
/// known flags.
#[derive(Clone, Copy, Debug, PartialEq, Eq, Structural)]
pub struct PipelineFlags(pub u32);

impl PipelineFlags {
    pub const SUBPICTURES: u32 = 0x00000001;
    pub const FAST: u32 = 0x00000002;
    pub const END: u32 = 0x00000004;

    /// The set with no flag.
    pub fn empty() -> (r: Self)
        ensures
            r.0 == 0,
    {
        PipelineFlags(0)
    }

    /// The raw flag bits.
    pub fn bits(&self) -> (r: u32)
        ensures
            r == self.0,
    {
        self.0
    }

    /// Whether every flag set in `other` is also set in `self`.
    pub fn contains(&self, other: PipelineFlags) -> (r: bool)
        ensures
            r == (self.0 & other.0 == other.0),
    {
        self.0 & other.0 == other.0
    }

    /// The flags set in `self` or in `other`.
    pub fn union(&self, other: PipelineFlags) -> (r: Self)
        ensures
            r.0 == self.0 | other.0,
    {
        PipelineFlags(self.0 | other.0)
    }
}

/// Flags and properties that may be applied to each individual filter stage.
///
/// The wrapped value holds the flag bits; the associated constants name the
/// known flags.
#[derive(Clone, Copy, Debug, PartialEq, Eq, Structural)]
pub struct FilterFlags(pub u32);

impl FilterFlags {
    pub const MANDATORY: u32 = 0x00000001;
    pub const FRAME_PICTURE: u32 = 0x00000000;
    pub const TOP_FIELD: u32 = 0x00000001;
    pub const BOTTOM_FIELD: u32 = 0x00000002;
    pub const SRC_BT601: u32 = 0x00000010;
    pub const SRC_BT709: u32 = 0x00000020;
    pub const SRC_SMPTE_240: u32 = 0x00000040;
    pub const FILTER_SCALING_DEFAULT: u32 = 0x00000000;
    pub const FILTER_SCALING_FAST: u32 = 0x00000100;
    pub const FILTER_SCALING_HQ: u32 = 0x00000200;
    pub const FILTER_SCALING_NL_ANAMORPHIC: u32 = 0x00000300;
    pub const FILTER_INTERPOLATION_DEFAULT: u32 = 0x00000000;
    pub const FILTER_INTERPOLATION_NEAREST_NEIGHBOR: u32 = 0x00001000;
    pub const FILTER_INTERPOLATION_BILINEAR: u32 = 0x00002000;
    pub const FILTER_INTERPOLATION_ADVANCED: u32 = 0x00003000;

    /// The set with no flag.
    pub fn empty() -> (r: Self)
        ensures
            r.0 == 0,
    {
        FilterFlags(0)
    }

    /// The raw flag bits.
    pub fn bits(&self) -> (r: u32)
        ensures
            r == self.0,
    {
        self.0
    }

    /// Whether every flag set in `other` is also set in `self`.
    pub fn contains(&self, other: FilterFlags) -> (r: bool)
        ensures
            r == (self.0 & other.0 == other.0),
    {
        self.0 & other.0 == other.0
    }

    /// The flags set in `self` or in `other`.
    pub fn union(&self, other: FilterFlags) -> (r: Self)
        ensures
            r.0 == self.0 | other.0,
    {
        FilterFlags(self.0 | other.0)
    }
}

/// The supported [`Rotation`]s.
///
/// The wrapped value holds the flag bits; the associated constants name the
/// known flags.
#[derive(Clone, Copy, Debug, PartialEq, Eq, Structural)]
pub struct RotationFlags(pub u32);

impl RotationFlags {
    pub const R90: u32 = 0x2;
    pub const R180: u32 = 0x4;
    pub const R270: u32 = 0x8;

    /// The set with no flag.
    pub fn empty() -> (r: Self)
        ensures
            r.0 == 0,
    {
        RotationFlags(0)
    }

    /// The raw flag bits.
    pub fn bits(&self) -> (r: u32)
        ensures
            r == self.0,
    {
        self.0
    }

    /// Whether every flag set in `other` is also set in `self`.
    pub fn contains(&self, other: RotationFlags) -> (r: bool)
        ensures
            r == (self.0 & other.0 == other.0),
    {
        self.0 & other.0 == other.0
    }

    /// The flags set in `self` or in `other`.
    pub fn union(&self, other: RotationFlags) -> (r: Self)
        ensures
            r.0 == self.0 | other.0,
    {
        RotationFlags(self.0 | other.0)
    }
}

/// The location of the chroma samples.
///
/// The wrapped value is the code the driver interface uses; the associated
/// constants name the known codes.
#[derive(Clone, Copy, Debug, PartialEq, Eq, Structural)]
pub struct ChromaSiting(pub u8);

impl ChromaSiting {
    pub const UNKNOWN: u8 = 0x00;
    pub const VERTICAL_TOP: u8 = 0x01;
    pub const VERTICAL_CENTER: u8 = 0x02;
    pub const VERTICAL_BOTTOM: u8 = 0x03;
    pub const HORIZONTAL_LEFT: u8 = 0x04;
    pub const HORIZONTAL_CENTER: u8 = 0x08;
}

/// Input or output color range.
///
/// The wrapped value is the code the driver interface uses; the associated
/// constants name the known codes.
#[derive(Clone, Copy, Debug, PartialEq, Eq, Structural)]
pub struct SourceRange(pub u8);

impl SourceRange {
    /// Unknown, Arbitrary color range.
    pub const UNKNOWN: u8 = 0;
    /// Color components use a limited range.
    ///
    /// Y is in range 16-235, Cb/Cr are in range 16-240.
    pub const REDUCED: u8 = 1;
    /// Color components use the full 0-255 range.
    ///
    /// This is used, among other things, in JPEG images.
    pub const FULL: u8 = 2;
}

/// The tone mapping conversions a pipeline supports.
///
/// The wrapped value holds the flag bits; the associated constants name the
/// known flags.
#[derive(Clone, Copy, Debug, PartialEq, Eq, Structural)]
pub struct ToneMapping(pub u16);

impl ToneMapping {
    pub const HDR_TO_HDR: u16 = 0x0001;
    pub const HDR_TO_SDR: u16 = 0x0002;
    pub const HDR_TO_EDR: u16 = 0x0004;
    pub const SDR_TO_HDR: u16 = 0x0008;

    /// The set with no flag.
    pub fn empty() -> (r: Self)
        ensures
            r.0 == 0,
    {
        ToneMapping(0)
    }

    /// The raw flag bits.
    pub fn bits(&self) -> (r: u16)
        ensures
            r == self.0,
    {
        self.0
    }

    /// Whether every flag set in `other` is also set in `self`.
    pub fn contains(&self, other: ToneMapping) -> (r: bool)
        ensures
            r == (self.0 & other.0 == other.0),
    {
        self.0 & other.0 == other.0
    }

    /// The flags set in `self` or in `other`.
    pub fn union(&self, other: ToneMapping) -> (r: Self)
        ensures
            r.0 == self.0 | other.0,
    {
        ToneMapping(self.0 | other.0)
    }
}

/// Number of reserved bytes at the end of [`ColorProperties`].
pub const COLOR_PROPERTIES_RESERVED: usize = 3;

/// Color-related properties of a video processing pipeline.
///
/// Layout: eight bytes, in field order; the last three are reserved.
#[derive(Clone, Copy, Debug)]
pub struct ColorProperties {
    pub chroma_sample_location: ChromaSiting,
    pub color_range: SourceRange,
    pub colour_primaries: u8,
    pub transfer_characteristics: u8,
    pub matrix_coefficients: u8,
    pub reserved: [u8; COLOR_PROPERTIES_RESERVED],
}

impl ColorProperties {
    /// The properties with every field zero.
    pub open spec fn zeroed() -> Self {
        ColorProperties {
            chroma_sample_location: ChromaSiting(ChromaSiting::UNKNOWN),
            color_range: SourceRange(SourceRange::UNKNOWN),
            colour_primaries: 0,
            transfer_characteristics: 0,
            matrix_coefficients: 0,
            reserved: [0u8; COLOR_PROPERTIES_RESERVED],
        }
    }

    /// The properties with every field zero: unknown siting and range.
    pub fn new() -> (r: Self)
        ensures
            r == ColorProperties::zeroed(),
    {
        ColorProperties {
            chroma_sample_location: ChromaSiting(ChromaSiting::UNKNOWN),
            color_range: SourceRange(SourceRange::UNKNOWN),
            colour_primaries: 0,
            transfer_characteristics: 0,
            matrix_coefficients: 0,
            reserved: [0u8; COLOR_PROPERTIES_RESERVED],
        }
    }

    #[inline]
    pub fn chroma_sample_location(&self) -> (r: ChromaSiting)
        ensures
            r == self.chroma_sample_location,
    {
        self.chroma_sample_location
    }

    #[inline]
    pub fn set_chroma_sample_location(&mut self, chroma_sample_location: ChromaSiting)
        ensures
            *final(self) == (ColorProperties { chroma_sample_location, ..*old(self) }),
    {
        self.chroma_sample_location = chroma_sample_location;
    }

    #[inline]
    pub fn color_range(&self) -> (r: SourceRange)
        ensures
            r == self.color_range,
    {
        self.color_range
    }

    #[inline]
    pub fn set_color_range(&mut self, color_range: SourceRange)
        ensures
            *final(self) == (ColorProperties { color_range, ..*old(self) }),
    {
        self.color_range = color_range;
    }

    #[inline]
    pub fn with_chroma_sample_location(self, chroma_sample_location: ChromaSiting) -> (r: Self)
        ensures
            r == (ColorProperties { chroma_sample_location, ..self }),
    {
        ColorProperties { chroma_sample_location, ..self }
    }

    #[inline]
    pub fn with_color_range(self, color_range: SourceRange) -> (r: Self)
        ensures
            r == (ColorProperties { color_range, ..self }),
    {
        ColorProperties { color_range, ..self }
    }
}

/// Collection of supported [`FilterType`]s.
#[derive(Clone)]
pub struct FilterTypes {
    pub filters: Vec<FilterType>,
}

impl View for FilterTypes {
    type V = Seq<FilterType>;

    open spec fn view(&self) -> Seq<FilterType> {
        self.filters@
    }
}

impl FilterTypes {
    pub fn len(&self) -> (r: usize)
        ensures
            r == self@.len(),
    {
        self.filters.len()
    }

    pub fn is_empty(&self) -> (r: bool)
        ensures
            r == (self@.len() == 0),
    {
        self.filters.len() == 0
    }

    /// The filter types, in order.
    pub fn into_vec(self) -> (r: Vec<FilterType>)
        ensures
            r@ == self@,
    {
        self.filters
    }
}

/// The head that every filter parameter record starts with.
///
/// Layout: the filter type code (32-bit).
#[derive(Clone, Copy, Debug, PartialEq, Eq, Structural)]
pub struct FilterParameterBufferBase {
    pub type_: FilterType,
}

/// The flags and limits of a video processing pipeline, as the driver
/// reports them.
#[derive(Clone, Copy, Debug, PartialEq, Eq, Structural)]
pub struct VAProcPipelineCaps {
    pub pipeline_flags: PipelineFlags,
    pub filter_flags: FilterFlags,
    pub num_forward_references: u32,
    pub num_backward_references: u32,
    pub rotation_flags: RotationFlags,
    pub blend_flags: BlendFlags,
    pub mirror_flags: Mirror,
    pub num_additional_outputs: u32,
    pub max_input_width: u32,
    pub max_input_height: u32,
    pub min_input_width: u32,
    pub min_input_height: u32,
    pub max_output_width: u32,
    pub max_output_height: u32,
    pub min_output_width: u32,
    pub min_output_height: u32,
}

/// Capabilities of a video processing pipeline.
#[derive(Clone)]
pub struct ProcPipelineCaps {
    pub raw: VAProcPipelineCaps,
    pub input_color_standards: Vec<ColorStandardType>,
    pub output_color_standards: Vec<ColorStandardType>,
    pub input_pixel_formats: Vec<PixelFormat>,
    pub output_pixel_formats: Vec<PixelFormat>,
}

/// The first `reported` items of `items`, or all of them if there are
/// fewer.
pub open spec fn reported_items<T>(items: Seq<T>, reported: u32) -> Seq<T> {
    if reported < items.len() {
        items.take(reported as int)
    } else {
        items
    }
}

/// The pixel formats a driver reported: drivers that do not report pixel
/// formats leave the count at the capacity of the list, which then says
/// nothing.
pub open spec fn reported_pixel_formats(formats: Seq<PixelFormat>, reported: u32) -> Seq<
    PixelFormat,
> {
    if reported == formats.len() {
        Seq::empty()
    } else {
        reported_items(formats, reported)
    }
}

/// Cuts `items` down to the `reported` first ones.
fn keep_reported<T>(items: &mut Vec<T>, reported: u32)
    ensures
        final(items)@ == reported_items(old(items)@, reported),
{
    if (reported as usize) < items.len() {
        items.truncate(reported as usize);
    }
}

impl ProcPipelineCaps {
    /// Puts together the capabilities from what a driver query filled in:
    /// the flags and limits, and for each list the buffer handed to the
    /// driver with the count the driver reported for it.
    pub fn from_query(
        raw: VAProcPipelineCaps,
        input_color_standards: Vec<ColorStandardType>,
        num_input_color_standards: u32,
        output_color_standards: Vec<ColorStandardType>,
        num_output_color_standards: u32,
        input_pixel_formats: Vec<PixelFormat>,
        num_input_pixel_formats: u32,
        output_pixel_formats: Vec<PixelFormat>,
        num_output_pixel_formats: u32,
    ) -> (r: Self)
        ensures
            r.raw == raw,
            r.input_color_standards@ == reported_items(
                input_color_standards@,
                num_input_color_standards,
            ),
            r.output_color_standards@ == reported_items(
                output_color_standards@,
                num_output_color_standards,
            ),
            r.input_pixel_formats@ == reported_pixel_formats(
                input_pixel_formats@,
                num_input_pixel_formats,
            ),
            r.output_pixel_formats@ == reported_pixel_formats(
                output_pixel_formats@,
                num_output_pixel_formats,
            ),
    {
        let mut input_color_standards = input_color_standards;
        let mut output_color_standards = output_color_standards;
        let mut input_pixel_formats = input_pixel_formats;
        let mut output_pixel_formats = output_pixel_formats;
        if num_input_pixel_formats as usize == input_pixel_formats.len() {
            input_pixel_formats.clear();
        } else {
            keep_reported(&mut input_pixel_formats, num_input_pixel_formats);
        }
        if num_output_pixel_formats as usize == output_pixel_formats.len() {
            output_pixel_formats.clear();
        } else {
            keep_reported(&mut output_pixel_formats, num_output_pixel_formats);
        }
        keep_reported(&mut input_color_standards, num_input_color_standards);
        keep_reported(&mut output_color_standards, num_output_color_standards);
        ProcPipelineCaps {
            raw,
            input_color_standards,
            output_color_standards,
            input_pixel_formats,
            output_pixel_formats,
        }
    }

    #[inline]
    pub fn pipeline_flags(&self) -> (r: PipelineFlags)
        ensures
            r == self.raw.pipeline_flags,
    {
        self.raw.pipeline_flags
    }

    #[inline]
    pub fn filter_flags(&self) -> (r: FilterFlags)
        ensures
            r == self.raw.filter_flags,
    {
        self.raw.filter_flags
    }

    #[inline]
    pub fn num_forward_references(&self) -> (r: u32)
        ensures
            r == self.raw.num_forward_references,
    {
        self.raw.num_forward_references
    }

    #[inline]
    pub fn num_backward_references(&self) -> (r: u32)
        ensures
            r == self.raw.num_backward_references,
    {
        self.raw.num_backward_references
    }

    #[inline]
    pub fn input_color_standards(&self) -> (r: &[ColorStandardType])
        ensures
            r@ == self.input_color_standards@,
    {
        self.input_color_standards.as_slice()
    }

    #[inline]
    pub fn output_color_standards(&self) -> (r: &[ColorStandardType])
        ensures
            r@ == self.output_color_standards@,
    {
        self.output_color_standards.as_slice()
    }

    #[inline]
    pub fn input_pixel_formats(&self) -> (r: &[PixelFormat])
        ensures
            r@ == self.input_pixel_formats@,
    {
        self.input_pixel_formats.as_slice()
    }

    #[inline]
    pub fn output_pixel_formats(&self) -> (r: &[PixelFormat])
        ensures
            r@ == self.output_pixel_formats@,
    {
        self.output_pixel_formats.as_slice()
    }
}

} // verus!
