use fev::buffer::BufferType;
use fev::config::{ConfigAttrib, ConfigAttribEnum, ConfigAttribType, ConfigAttributes};
use fev::display::{driver_name_bytes, DisplayApi, DisplayAttribFlags, DisplayAttribType, DisplayAttribute, DisplayAttributes};
use fev::error::{check, check_count, VAError, VAStatus};
use fev::image::{ByteOrder, ImageFormat, ImageFormats};
use fev::raw::{Rectangle, VABufferInfo, VA_PADDING_LOW};
use fev::subpicture::{SubpictureFlags, SubpictureFormats};
use fev::surface::drm::{PrimeLayer, PrimeObject, PrimePlane, PrimeSurfaceDescriptor};
use fev::surface::{
    image_access, ImageAccess, GenericValue, RTFormat, SurfaceAttrib, SurfaceAttribEnum, SurfaceAttribFlags,
    SurfaceAttribMemoryType, SurfaceAttribType, SurfaceAttributes,
};
use fev::vpp::{
    ChromaSiting, ColorProperties, ColorStandardType, FilterFlags, FilterType, FilterTypes,
    PipelineFlags, ProcPipelineCaps, RotationFlags, SourceRange, VAProcPipelineCaps, BlendFlags,
};
use fev::{Entrypoint, Entrypoints, Mirror, PixelFormat, Profile, Profiles};

#[test]
fn pixel_format_codes_spell_their_names() {
    assert_eq!(PixelFormat::from_bytes(*b"NV12"), PixelFormat(PixelFormat::NV12));
    assert_eq!(PixelFormat::from_bytes(*b"NV21"), PixelFormat(PixelFormat::NV21));
    assert_eq!(PixelFormat::from_bytes(*b"YUY2"), PixelFormat(PixelFormat::YUY2));
    assert_eq!(PixelFormat::from_bytes(*b"UVYV"), PixelFormat(PixelFormat::UYVY));
    assert_eq!(PixelFormat::from_bytes(*b"RGBA"), PixelFormat(PixelFormat::RGBA));
    assert_eq!(PixelFormat::from_bytes(*b"ARGB"), PixelFormat(PixelFormat::ARGB));
    assert_eq!(PixelFormat::from_bytes(*b"RGBX"), PixelFormat(PixelFormat::RGBX));
    assert_eq!(PixelFormat::from_bytes(*b"BGRA"), PixelFormat(PixelFormat::BGRA));
    assert_eq!(PixelFormat::from_bytes(*b"BGRX"), PixelFormat(PixelFormat::BGRX));
}

#[test]
fn pixel_format_bytes_round_trip() {
    for code in [0u32, 1, 0xFF, 0x100, 0x12345678, 0xFFFFFFFF, PixelFormat::NV12] {
        let f = PixelFormat::from_u32_le(code);
        assert_eq!(f.to_u32_le(), code);
        assert_eq!(f.to_bytes(), code.to_le_bytes());
        assert_eq!(PixelFormat::from_bytes(f.to_bytes()), f);
    }
    assert_eq!(PixelFormat::from_bytes([0x78, 0x56, 0x34, 0x12]).to_u32_le(), 0x12345678);
    assert_eq!(PixelFormat::from_bytes([1, 2, 3, 4]).to_bytes(), [1, 2, 3, 4]);
}

#[test]
fn pixel_format_maps_to_surface_format() {
    let yuv420 = Some(RTFormat(RTFormat::YUV420));
    let yuv422 = Some(RTFormat(RTFormat::YUV422));
    let rgb32 = Some(RTFormat(RTFormat::RGB32));
    assert_eq!(PixelFormat(PixelFormat::NV12).to_rtformat(), yuv420);
    assert_eq!(PixelFormat(PixelFormat::NV21).to_rtformat(), yuv420);
    assert_eq!(PixelFormat(PixelFormat::YUY2).to_rtformat(), yuv422);
    assert_eq!(PixelFormat(PixelFormat::UYVY).to_rtformat(), yuv422);
    for code in [PixelFormat::RGBA, PixelFormat::RGBX, PixelFormat::ARGB, PixelFormat::BGRA, PixelFormat::BGRX] {
        assert_eq!(PixelFormat(code).to_rtformat(), rgb32);
    }
    assert_eq!(PixelFormat(0).to_rtformat(), None);
    assert_eq!(PixelFormat::from_bytes(*b"I420").to_rtformat(), None);
    assert_eq!(RTFormat::default(), RTFormat(RTFormat::YUV420));
}

#[test]
fn image_format_accessors() {
    let mut f = ImageFormat::new(PixelFormat(PixelFormat::RGBA));
    assert_eq!(f.pixel_format(), PixelFormat(PixelFormat::RGBA));
    assert_eq!(f.byte_order(), ByteOrder(ByteOrder::NONE));
    assert_eq!(
        (f.bits_per_pixel(), f.depth(), f.red_mask(), f.green_mask(), f.blue_mask(), f.alpha_mask()),
        (0, 0, 0, 0, 0, 0)
    );
    assert_eq!(f.va_reserved, [0; VA_PADDING_LOW]);
    f.set_pixel_format(PixelFormat(PixelFormat::BGRA));
    f.set_byte_order(ByteOrder(ByteOrder::LsbFirst));
    f.set_bits_per_pixel(32);
    f.set_depth(24);
    f.set_red_mask(0x00FF0000);
    f.set_green_mask(0x0000FF00);
    f.set_blue_mask(0x000000FF);
    f.set_alpha_mask(0xFF000000);
    assert_eq!(f.pixel_format(), PixelFormat(PixelFormat::BGRA));
    assert_eq!(f.byte_order(), ByteOrder(1));
    assert_eq!(f.bits_per_pixel(), 32);
    assert_eq!(f.depth(), 24);
    assert_eq!(f.red_mask(), 0x00FF0000);
    assert_eq!(f.green_mask(), 0x0000FF00);
    assert_eq!(f.blue_mask(), 0x000000FF);
    assert_eq!(f.alpha_mask(), 0xFF000000);
    let from: ImageFormat = PixelFormat(PixelFormat::NV12).into();
    assert_eq!(from.pixel_format(), PixelFormat(PixelFormat::NV12));
    assert_eq!(from.depth(), 0);
    assert_eq!(ImageFormat::zeroed().pixel_format(), PixelFormat(0));
}

#[test]
fn image_formats_list() {
    let empty = ImageFormats { vec: vec![] };
    assert_eq!(empty.len(), 0);
    assert!(empty.is_empty());
    let two = ImageFormats {
        vec: vec![ImageFormat::new(PixelFormat(1)), ImageFormat::new(PixelFormat(2))],
    };
    assert_eq!(two.len(), 2);
    assert!(!two.is_empty());
    let v = two.into_vec();
    assert_eq!(v[1].pixel_format(), PixelFormat(2));
}

#[test]
fn profile_and_entrypoint_lists() {
    let profiles = Profiles {
        vec: vec![Profile(Profile::NONE), Profile(Profile::JPEGBaseline), Profile(Profile::H264Main)],
    };
    assert_eq!(profiles.len(), 3);
    assert!(!profiles.is_empty());
    assert!(profiles.contains(Profile(Profile::JPEGBaseline)));
    assert!(profiles.contains(Profile(-1)));
    assert!(!profiles.contains(Profile(Profile::VP9Profile0)));
    assert_eq!(profiles.into_vec().len(), 3);
    let none = Profiles { vec: vec![] };
    assert!(none.is_empty());
    assert!(!none.contains(Profile(Profile::JPEGBaseline)));
    let entrypoints = Entrypoints { vec: vec![Entrypoint(Entrypoint::VLD), Entrypoint(Entrypoint::VideoProc)] };
    assert!(entrypoints.contains(Entrypoint(10)));
    assert!(!entrypoints.contains(Entrypoint(Entrypoint::EncSlice)));
    assert_eq!(entrypoints.into_vec(), vec![Entrypoint(1), Entrypoint(10)]);
    assert_eq!(Profile::JPEGBaseline, 12);
}

#[test]
fn status_check() {
    assert!(check("vaInitialize", VAStatus(VAStatus::SUCCESS)).is_ok());
    let err = check("vaCreateConfig", VAStatus(VAError::ERROR_UNSUPPORTED_PROFILE)).unwrap_err();
    assert_eq!(err.location, "vaCreateConfig");
    assert_eq!(err.error, VAError(0x0c));
    let unknown = check("vaSyncSurface", VAStatus(-1)).unwrap_err();
    assert_eq!(unknown.error, VAError(VAError::ERROR_UNKNOWN));
    assert_eq!(VAStatus::from(VAError(VAError::ERROR_TIMEDOUT)), VAStatus(0x26));
    assert!(VAStatus(0).is_success());
    assert!(!VAStatus(1).is_success());
}

#[test]
fn config_attributes() {
    let attr: ConfigAttrib = ConfigAttribEnum::RTFormat(RTFormat(RTFormat::YUV420 | RTFormat::RGB32)).into();
    assert_eq!(attr.attrib_type(), ConfigAttribType(ConfigAttribType::RTFormat));
    assert_eq!(attr.raw_value(), 0x00020001);
    assert_eq!(ConfigAttrib::zeroed(), ConfigAttrib { type_: ConfigAttribType(0), value: 0 });
    let attrs = ConfigAttributes {
        profile: Profile(Profile::JPEGBaseline),
        entrypoint: Entrypoint(Entrypoint::VLD),
        attribs: vec![attr, ConfigAttrib { type_: ConfigAttribType(ConfigAttribType::DecJPEG), value: 7 }],
    };
    assert_eq!(attrs.profile(), Profile(12));
    assert_eq!(attrs.entrypoint(), Entrypoint(1));
    assert_eq!(attrs.len(), 2);
    assert_eq!(attrs.into_vec()[1].raw_value(), 7);
}

#[test]
fn display_attributes() {
    let a = DisplayAttribute::new(DisplayAttribType(DisplayAttribType::Brightness), -5);
    assert_eq!(a.ty(), DisplayAttribType(0));
    assert_eq!(a.value(), -5);
    assert_eq!((a.min_value(), a.max_value()), (0, 0));
    assert_eq!(a.flags(), DisplayAttribFlags(0));
    let z = DisplayAttribute::zeroed();
    assert_eq!((z.ty(), z.value()), (DisplayAttribType(0), 0));
    let flagged = DisplayAttribute {
        flags: DisplayAttribFlags(DisplayAttribFlags::GETTABLE | DisplayAttribFlags::SETTABLE),
        min_value: -10,
        max_value: 10,
        ..a
    };
    assert!(flagged.flags().contains(DisplayAttribFlags(DisplayAttribFlags::SETTABLE)));
    assert_eq!((flagged.min_value(), flagged.max_value()), (-10, 10));
    let list = DisplayAttributes { vec: vec![a, flagged] };
    assert_eq!(list.len(), 2);
    assert!(!list.is_empty());
    assert!(DisplayAttributes { vec: vec![] }.is_empty());
    assert_eq!(list.into_vec().len(), 2);
    assert_ne!(DisplayApi::Xlib, DisplayApi::Wayland);
    assert_ne!(DisplayApi::Wayland, DisplayApi::Drm);
}

#[test]
fn flag_sets() {
    let both = Mirror(Mirror::HORIZONTAL).union(Mirror(Mirror::VERTICAL));
    assert_eq!(both.bits(), 3);
    assert!(both.contains(Mirror(Mirror::HORIZONTAL)));
    assert!(both.contains(Mirror(Mirror::NONE)));
    assert!(!Mirror(Mirror::HORIZONTAL).contains(both));
    assert_eq!(Mirror::empty().bits(), 0);
    assert!(Mirror::empty().contains(Mirror::empty()));
    assert_eq!(RotationFlags::R90, 2);
    assert_eq!(RotationFlags::R180, 4);
    assert_eq!(RotationFlags::R270, 8);
    assert_eq!(PipelineFlags(PipelineFlags::FAST).union(PipelineFlags(PipelineFlags::END)).bits(), 6);
    assert!(FilterFlags(0x2100).contains(FilterFlags(FilterFlags::FILTER_SCALING_FAST)));
    assert_eq!(BlendFlags::LUMA_KEY, 0x10);
    assert_eq!(SubpictureFlags::empty().bits(), 0);
    assert_eq!(RTFormat::PROTECTED, 0x80000000);
    assert_eq!(BufferType::SliceData, 5);
    assert_eq!(BufferType(BufferType::HuffmanTable), BufferType(12));
}

#[test]
fn surface_attributes() {
    let pixel: SurfaceAttrib = SurfaceAttribEnum::PixelFormat(PixelFormat(PixelFormat::NV12)).into();
    assert_eq!(pixel.ty(), SurfaceAttribType(SurfaceAttribType::PixelFormat));
    assert_eq!(pixel.flags(), SurfaceAttribFlags(SurfaceAttribFlags::SETTABLE));
    assert!(pixel.is_writable());
    assert!(!pixel.is_readable());
    assert_eq!(pixel.raw_value(), GenericValue::Integer(0x3231564e));
    assert!(matches!(pixel.as_enum(), Some(SurfaceAttribEnum::PixelFormat(PixelFormat(0x3231564e)))));

    let high: SurfaceAttrib = SurfaceAttribEnum::PixelFormat(PixelFormat(0xFFFFFFFE)).into();
    assert_eq!(high.raw_value(), GenericValue::Integer(-2));
    assert!(matches!(high.as_enum(), Some(SurfaceAttribEnum::PixelFormat(PixelFormat(0xFFFFFFFE)))));

    let memory: SurfaceAttrib =
        SurfaceAttribEnum::MemoryType(SurfaceAttribMemoryType(SurfaceAttribMemoryType::DRM_PRIME_2)).into();
    assert_eq!(memory.ty(), SurfaceAttribType(6));
    assert!(matches!(
        memory.as_enum(),
        Some(SurfaceAttribEnum::MemoryType(SurfaceAttribMemoryType(0x40000000)))
    ));
    let noisy = SurfaceAttrib { value: GenericValue::integer(-1), ..memory };
    assert!(matches!(
        noisy.as_enum(),
        Some(SurfaceAttribEnum::MemoryType(SurfaceAttribMemoryType(0x70000007)))
    ));
    let not_int = SurfaceAttrib { value: GenericValue::Pointer(16), ..pixel };
    assert!(not_int.as_enum().is_none());
    let other = SurfaceAttrib { type_: SurfaceAttribType(SurfaceAttribType::MaxWidth), ..pixel };
    assert!(other.as_enum().is_none());
    let readable = SurfaceAttrib { flags: SurfaceAttribFlags(3), ..pixel };
    assert!(readable.is_readable() && readable.is_writable());
}

#[test]
fn generic_values() {
    assert_eq!(GenericValue::integer(7).as_int(), Some(7));
    assert_eq!(GenericValue::integer(7).as_pointer(), None);
    assert_eq!(GenericValue::Float(0x3f800000).as_float_bits(), Some(0x3f800000));
    assert_eq!(GenericValue::Float(0x3f800000).as_int(), None);
    assert_eq!(GenericValue::Pointer(8).as_pointer(), Some(8));
    assert_eq!(GenericValue::Func(9).as_func(), Some(9));
    assert_eq!(GenericValue::Func(9).as_pointer(), None);
    assert_eq!(f32::from_bits(GenericValue::Float(0x3f800000).as_float_bits().unwrap()), 1.0);
}

#[test]
fn surface_attribute_list_names_its_pixel_formats() {
    let nv12: SurfaceAttrib = SurfaceAttribEnum::PixelFormat(PixelFormat(PixelFormat::NV12)).into();
    let rgba: SurfaceAttrib = SurfaceAttribEnum::PixelFormat(PixelFormat(PixelFormat::RGBA)).into();
    let memory: SurfaceAttrib = SurfaceAttribEnum::MemoryType(SurfaceAttribMemoryType(1)).into();
    let width = SurfaceAttrib {
        type_: SurfaceAttribType(SurfaceAttribType::MaxWidth),
        flags: SurfaceAttribFlags(SurfaceAttribFlags::GETTABLE),
        value: GenericValue::integer(4096),
    };
    let list = SurfaceAttributes { vec: vec![width, nv12, memory, rgba, nv12] };
    assert_eq!(list.len(), 5);
    assert!(!list.is_empty());
    assert_eq!(
        list.pixel_formats(),
        vec![PixelFormat(PixelFormat::NV12), PixelFormat(PixelFormat::RGBA), PixelFormat(PixelFormat::NV12)]
    );
    assert!(SurfaceAttributes { vec: vec![] }.pixel_formats().is_empty());
    assert_eq!(list.into_vec().len(), 5);
}

fn layer() -> PrimeLayer {
    PrimeLayer {
        drm_format: PixelFormat(PixelFormat::NV12),
        num_planes: 2,
        object_index: [0, 1, 9, 9],
        offset: [0, 4096, 9, 9],
        pitch: [64, 32, 9, 9],
    }
}

#[test]
fn prime_layer_planes() {
    let l = layer();
    assert_eq!(l.drm_format(), PixelFormat(PixelFormat::NV12));
    assert_eq!(l.num_planes(), 2);
    let p = l.plane(1);
    assert_eq!((p.object_index(), p.offset(), p.pitch()), (1, 4096, 32));
    assert_eq!(
        l.planes(),
        vec![
            PrimePlane { object_index: 0, offset: 0, pitch: 64 },
            PrimePlane { object_index: 1, offset: 4096, pitch: 32 },
        ]
    );
    let none = PrimeLayer { num_planes: 0, ..l };
    assert!(none.planes().is_empty());
    let all = PrimeLayer { num_planes: 4, ..l };
    assert_eq!(all.planes().len(), 4);
    assert_eq!(all.plane(3), PrimePlane { object_index: 9, offset: 9, pitch: 9 });
}

#[test]
fn prime_descriptor_lists() {
    let object = PrimeObject { fd: 5, size: 1 << 20, drm_format_modifier: 0x0100000000000001 };
    let unused = PrimeObject { fd: -1, size: 0, drm_format_modifier: 0 };
    let d = PrimeSurfaceDescriptor {
        fourcc: PixelFormat(PixelFormat::NV12),
        width: 640,
        height: 480,
        num_objects: 1,
        objects: [object, unused, unused, unused],
        num_layers: 2,
        layers: [layer(), layer(), layer(), layer()],
    };
    assert_eq!(d.fourcc(), PixelFormat(PixelFormat::NV12));
    assert_eq!((d.width(), d.height()), (640, 480));
    assert_eq!(d.objects(), &[object]);
    assert_eq!(d.object(0), &object);
    assert_eq!((d.object(0).fd(), d.object(0).size()), (5, 1 << 20));
    assert_eq!(d.object(0).drm_format_modifier(), 0x0100000000000001);
    assert_eq!(d.layers().len(), 2);
    assert_eq!(d.layers()[1].num_planes(), 2);
}

#[test]
fn subpicture_formats_pair_up() {
    let formats = SubpictureFormats {
        formats: vec![ImageFormat::new(PixelFormat(1)), ImageFormat::new(PixelFormat(2)), ImageFormat::new(PixelFormat(3))],
        flags: vec![SubpictureFlags(SubpictureFlags::CHROMA_KEYING), SubpictureFlags(SubpictureFlags::GLOBAL_ALPHA)],
    };
    assert_eq!(formats.len(), 3);
    assert!(!formats.is_empty());
    let mut iter = formats.into_iter();
    let first = iter.next().unwrap();
    assert_eq!(first.image_format().pixel_format(), PixelFormat(1));
    assert_eq!(first.flags(), SubpictureFlags(1));
    let second = iter.next().unwrap();
    assert_eq!(second.image_format().pixel_format(), PixelFormat(2));
    assert_eq!(second.flags(), SubpictureFlags(2));
    assert!(iter.next().is_none());
    assert!(iter.next().is_none());
    assert!(SubpictureFormats { formats: vec![], flags: vec![] }.is_empty());
}

#[test]
fn color_properties() {
    let p = ColorProperties::new();
    assert_eq!(p.chroma_sample_location(), ChromaSiting(ChromaSiting::UNKNOWN));
    assert_eq!(p.color_range(), SourceRange(SourceRange::UNKNOWN));
    assert_eq!((p.colour_primaries, p.transfer_characteristics, p.matrix_coefficients), (0, 0, 0));
    let full = p.with_color_range(SourceRange(SourceRange::FULL));
    assert_eq!(full.color_range(), SourceRange(2));
    assert_eq!(full.chroma_sample_location(), ChromaSiting(0));
    let sited = full.with_chroma_sample_location(ChromaSiting(ChromaSiting::VERTICAL_CENTER | ChromaSiting::HORIZONTAL_LEFT));
    assert_eq!(sited.chroma_sample_location(), ChromaSiting(6));
    assert_eq!(sited.color_range(), SourceRange(2));
    let mut m = ColorProperties::new();
    m.set_color_range(SourceRange(SourceRange::REDUCED));
    m.set_chroma_sample_location(ChromaSiting(ChromaSiting::HORIZONTAL_CENTER));
    assert_eq!(m.color_range(), SourceRange(1));
    assert_eq!(m.chroma_sample_location(), ChromaSiting(8));
}

#[test]
fn pipeline_capabilities() {
    let raw = VAProcPipelineCaps {
        pipeline_flags: PipelineFlags(PipelineFlags::FAST),
        filter_flags: FilterFlags(FilterFlags::FILTER_SCALING_HQ),
        num_forward_references: 1,
        num_backward_references: 2,
        rotation_flags: RotationFlags(0),
        blend_flags: BlendFlags(0),
        mirror_flags: Mirror(0),
        num_additional_outputs: 0,
        max_input_width: 4096,
        max_input_height: 4096,
        min_input_width: 16,
        min_input_height: 16,
        max_output_width: 4096,
        max_output_height: 4096,
        min_output_width: 16,
        min_output_height: 16,
    };
    let caps = ProcPipelineCaps {
        raw,
        input_color_standards: vec![ColorStandardType(ColorStandardType::BT601)],
        output_color_standards: vec![ColorStandardType(ColorStandardType::SRGB), ColorStandardType(ColorStandardType::BT709)],
        input_pixel_formats: vec![],
        output_pixel_formats: vec![PixelFormat(PixelFormat::RGBA)],
    };
    assert_eq!(caps.pipeline_flags(), PipelineFlags(2));
    assert_eq!(caps.filter_flags(), FilterFlags(0x200));
    assert_eq!(caps.num_forward_references(), 1);
    assert_eq!(caps.num_backward_references(), 2);
    assert_eq!(caps.input_color_standards(), &[ColorStandardType(1)]);
    assert_eq!(caps.output_color_standards(), &[ColorStandardType(8), ColorStandardType(2)]);
    assert!(caps.input_pixel_formats().is_empty());
    assert_eq!(caps.output_pixel_formats(), &[PixelFormat(PixelFormat::RGBA)]);
    let filters = FilterTypes { filters: vec![FilterType(FilterType::Sharpening)] };
    assert_eq!(filters.len(), 1);
    assert!(!filters.is_empty());
    assert_eq!(filters.into_vec(), vec![FilterType(3)]);
}

#[test]
fn raw_records() {
    assert_eq!(Rectangle::zeroed(), Rectangle { x: 0, y: 0, width: 0, height: 0 });
    let info = VABufferInfo {
        handle: 1,
        type_: BufferType(BufferType::Image),
        mem_type: 2,
        mem_size: 3,
        va_reserved: [0; VA_PADDING_LOW],
    };
    assert_eq!(info.type_, BufferType(9));
    assert_eq!(VA_PADDING_LOW, 4);
}

#[test]
fn count_queries_accept_the_overflow_status() {
    assert!(check_count("vaQuerySurfaceAttributes", VAStatus(VAStatus::SUCCESS)).is_ok());
    assert!(check_count("vaQuerySurfaceAttributes", VAStatus(VAError::ERROR_MAX_NUM_EXCEEDED)).is_ok());
    let err = check_count("vaQuerySurfaceAttributes", VAStatus(VAError::ERROR_INVALID_CONFIG)).unwrap_err();
    assert_eq!(err.location, "vaQuerySurfaceAttributes");
    assert_eq!(err.error, VAError(4));
    assert!(check("vaQuerySurfaceAttributes", VAStatus(VAError::ERROR_MAX_NUM_EXCEEDED)).is_err());
}

#[test]
fn image_access_follows_the_derive_status() {
    assert_eq!(image_access("vaDeriveImage", VAStatus(0)), Ok(ImageAccess::Derived));
    assert_eq!(
        image_access("vaDeriveImage", VAStatus(VAError::ERROR_OPERATION_FAILED)),
        Ok(ImageAccess::Copied)
    );
    let err = image_access("vaDeriveImage", VAStatus(VAError::ERROR_INVALID_SURFACE)).unwrap_err();
    assert_eq!(err.location, "vaDeriveImage");
    assert_eq!(err.error, VAError(VAError::ERROR_INVALID_SURFACE));
    assert!(image_access("vaDeriveImage", VAStatus(VAError::ERROR_UNIMPLEMENTED)).is_err());
}

#[test]
fn driver_names_end_in_one_zero_byte() {
    assert_eq!(driver_name_bytes(b"iHD"), b"iHD\0");
    assert_eq!(driver_name_bytes(b"iHD\0"), b"iHD\0");
    assert_eq!(driver_name_bytes(b""), b"\0");
    assert_eq!(driver_name_bytes(b"\0"), b"\0");
    assert_eq!(driver_name_bytes(b"a\0b"), b"a\0b\0");
}

fn no_caps() -> VAProcPipelineCaps {
    VAProcPipelineCaps {
        pipeline_flags: PipelineFlags(0),
        filter_flags: FilterFlags(0),
        num_forward_references: 0,
        num_backward_references: 0,
        rotation_flags: RotationFlags(0),
        blend_flags: BlendFlags(0),
        mirror_flags: Mirror(0),
        num_additional_outputs: 0,
        max_input_width: 0,
        max_input_height: 0,
        min_input_width: 0,
        min_input_height: 0,
        max_output_width: 0,
        max_output_height: 0,
        min_output_width: 0,
        min_output_height: 0,
    }
}

#[test]
fn pipeline_capabilities_from_a_query() {
    let standards: Vec<ColorStandardType> = (0..4).map(ColorStandardType).collect();
    let formats: Vec<PixelFormat> = (10..14).map(PixelFormat).collect();
    let caps = ProcPipelineCaps::from_query(
        no_caps(),
        standards.clone(),
        2,
        standards.clone(),
        9,
        formats.clone(),
        4,
        formats.clone(),
        1,
    );
    assert_eq!(caps.input_color_standards(), &standards[..2]);
    assert_eq!(caps.output_color_standards(), &standards[..]);
    // A count left at the capacity means that the driver reported nothing.
    assert!(caps.input_pixel_formats().is_empty());
    assert_eq!(caps.output_pixel_formats(), &formats[..1]);
    assert_eq!(caps.raw, no_caps());

    let caps = ProcPipelineCaps::from_query(
        no_caps(),
        standards.clone(),
        0,
        standards.clone(),
        4,
        formats.clone(),
        0,
        formats.clone(),
        7,
    );
    assert!(caps.input_color_standards().is_empty());
    assert_eq!(caps.output_color_standards().len(), 4);
    assert!(caps.input_pixel_formats().is_empty());
    assert_eq!(caps.output_pixel_formats(), &formats[..]);
}

#[test]
fn codes_have_names() {
    assert_eq!(Profile(Profile::JPEGBaseline).name(), Some("JPEGBaseline"));
    assert_eq!(Profile(Profile::NONE).name(), Some("None"));
    assert_eq!(Profile(-1).name(), Some("None"));
    assert_eq!(Profile(Profile::Protected).name(), Some("Protected"));
    assert_eq!(Profile(1000).name(), None);
    assert_eq!(Entrypoint(Entrypoint::VLD).name(), Some("VLD"));
    assert_eq!(Entrypoint(Entrypoint::VideoProc).name(), Some("VideoProc"));
    assert_eq!(Entrypoint(9).name(), None);
    assert_eq!(Entrypoint(0).name(), None);
    assert_eq!(VAError(VAError::ERROR_OPERATION_FAILED).name(), Some("ERROR_OPERATION_FAILED"));
    assert_eq!(VAError(VAError::ERROR_UNKNOWN).name(), Some("ERROR_UNKNOWN"));
    assert_eq!(VAError(0x1a).name(), None);
    assert_eq!(VAError(0).name(), None);
}
