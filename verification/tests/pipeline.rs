use fbscreenshot::capture::{
    classify_source, frame_buffer_len, image_buffer_len, plan_capture, process_frame,
    validate_output_path, Args, SourceKind,
};
use fbscreenshot::error::{CaptureError, ParamKind};
use fbscreenshot::format::resolve_format;
use fbscreenshot::frame::{apply_rotation, assemble, RgbaImage, Rotation};
use fbscreenshot::geometry::{
    geometry_from_device, geometry_from_params, BitsPerPixel, ChannelLayout, FbBitfield,
    FbVarScreeninfo, Geometry,
};
use fbscreenshot::pixel::{PixelFormat, Rgba};

fn bitfield(offset: u32, length: u32) -> FbBitfield {
    FbBitfield {
        offset,
        length,
        msb_right: 0,
    }
}

fn screeninfo(xres: u32, yres: u32, xres_virtual: u32, bpp: u32, lengths: (u32, u32, u32)) -> FbVarScreeninfo {
    FbVarScreeninfo {
        xres,
        yres,
        xres_virtual,
        yres_virtual: yres,
        xoffset: 0,
        yoffset: 0,
        bits_per_pixel: bpp,
        grayscale: 0,
        red: bitfield(11, lengths.0),
        green: bitfield(5, lengths.1),
        blue: bitfield(0, lengths.2),
        transp: bitfield(0, 0),
    }
}

fn raw_args(width: Option<i32>, height: Option<i32>, bit_depth: BitsPerPixel, pixel_format: Option<PixelFormat>) -> Args {
    Args {
        output: String::from("shot.png"),
        input: String::from("dump.bin"),
        rotation: Rotation::Rotate0,
        bit_depth,
        pixel_format,
        width,
        height,
    }
}

#[test]
fn rotation_parses_angles() {
    assert_eq!(Rotation::from_str("0"), Some(Rotation::Rotate0));
    assert_eq!(Rotation::from_str("90"), Some(Rotation::Rotate90));
    assert_eq!(Rotation::from_str("180"), Some(Rotation::Rotate180));
    assert_eq!(Rotation::from_str("270"), Some(Rotation::Rotate270));
    assert_eq!(Rotation::from_str("45"), None);
    assert_eq!(Rotation::from_str(""), None);
}

#[test]
fn bit_depth_parses_named_depths() {
    assert_eq!(BitsPerPixel::from_str("16"), Some(BitsPerPixel::Sixteen));
    assert_eq!(BitsPerPixel::from_str("24"), Some(BitsPerPixel::TwentyFour));
    assert_eq!(BitsPerPixel::from_str("32"), Some(BitsPerPixel::ThirtyTwo));
    assert_eq!(BitsPerPixel::from_str("8"), None);
}

#[test]
fn pixel_format_parses_named_formats() {
    assert_eq!(PixelFormat::from_str("rgb565"), Some(PixelFormat::RGB565));
    assert_eq!(PixelFormat::from_str("argb1555"), Some(PixelFormat::ARGB1555));
    assert_eq!(PixelFormat::from_str("rgb888"), Some(PixelFormat::RGB888));
    assert_eq!(PixelFormat::from_str("rgba888"), Some(PixelFormat::RGBA8888));
    assert_eq!(PixelFormat::from_str("bgr233"), None);
}

#[test]
fn geometry_from_device_reports() {
    let info = screeninfo(1280, 720, 1344, 32, (8, 8, 8));
    let g = geometry_from_device(&info).unwrap();
    assert_eq!(
        g,
        Geometry {
            width: 1280,
            height: 720,
            stride_width: 1344,
            bits_per_pixel: 32,
        }
    );
}

#[test]
fn geometry_from_device_rejects_unusable_descriptor() {
    // virtual width below the visible width cannot form a geometry
    let narrow = screeninfo(1280, 720, 1000, 32, (8, 8, 8));
    assert_eq!(geometry_from_device(&narrow), Err(CaptureError::DeviceQueryFailed));
    let zero = screeninfo(0, 720, 0, 32, (8, 8, 8));
    assert_eq!(geometry_from_device(&zero), Err(CaptureError::DeviceQueryFailed));
}

#[test]
fn geometry_from_params_requires_each_parameter() {
    assert_eq!(
        geometry_from_params(None, Some(4), BitsPerPixel::ThirtyTwo),
        Err(CaptureError::MissingParameter(ParamKind::Width))
    );
    assert_eq!(
        geometry_from_params(Some(4), None, BitsPerPixel::ThirtyTwo),
        Err(CaptureError::MissingParameter(ParamKind::Height))
    );
    assert_eq!(
        geometry_from_params(Some(4), Some(3), BitsPerPixel::Auto),
        Err(CaptureError::MissingParameter(ParamKind::BitDepth))
    );
    assert_eq!(
        geometry_from_params(Some(-4), Some(3), BitsPerPixel::ThirtyTwo),
        Err(CaptureError::MissingParameter(ParamKind::Width))
    );
    assert_eq!(
        geometry_from_params(Some(4), Some(0), BitsPerPixel::ThirtyTwo),
        Err(CaptureError::MissingParameter(ParamKind::Height))
    );
}

#[test]
fn geometry_from_params_strides_at_width() {
    let g = geometry_from_params(Some(4), Some(3), BitsPerPixel::Sixteen).unwrap();
    assert_eq!(
        g,
        Geometry {
            width: 4,
            height: 3,
            stride_width: 4,
            bits_per_pixel: 16,
        }
    );
}

#[test]
fn resolve_format_by_depth() {
    assert_eq!(resolve_format(32, None, None), Ok(PixelFormat::RGBA8888));
    assert_eq!(resolve_format(24, None, None), Ok(PixelFormat::RGB888));
    assert_eq!(resolve_format(8, None, None), Err(CaptureError::UnsupportedDepth));
    assert_eq!(resolve_format(15, None, None), Err(CaptureError::UnsupportedDepth));
}

#[test]
fn resolve_format_16bit_device_layouts() {
    let five = ChannelLayout {
        red_bits: 5,
        green_bits: 5,
        blue_bits: 5,
    };
    assert_eq!(resolve_format(16, Some(five), None), Ok(PixelFormat::ARGB1555));
    let five_six_five = ChannelLayout {
        red_bits: 5,
        green_bits: 6,
        blue_bits: 5,
    };
    assert_eq!(resolve_format(16, Some(five_six_five), None), Ok(PixelFormat::RGB565));
}

#[test]
fn resolve_format_16bit_raw_needs_explicit_format() {
    assert_eq!(
        resolve_format(16, None, None),
        Err(CaptureError::MissingParameter(ParamKind::PixelFormat))
    );
    assert_eq!(
        resolve_format(16, None, Some(PixelFormat::RGB888)),
        Err(CaptureError::InvalidFormat)
    );
    assert_eq!(
        resolve_format(16, None, Some(PixelFormat::RGBA8888)),
        Err(CaptureError::InvalidFormat)
    );
    assert_eq!(resolve_format(16, None, Some(PixelFormat::RGB565)), Ok(PixelFormat::RGB565));
    assert_eq!(
        resolve_format(16, None, Some(PixelFormat::ARGB1555)),
        Ok(PixelFormat::ARGB1555)
    );
}

#[test]
fn raw_16bit_capture_without_format_is_missing_parameter() {
    let args = raw_args(Some(4), Some(3), BitsPerPixel::Sixteen, None);
    assert_eq!(
        plan_capture(&args, None),
        Err(CaptureError::MissingParameter(ParamKind::PixelFormat))
    );
}

#[test]
fn device_capture_with_8bit_depth_is_unsupported() {
    let args = raw_args(None, None, BitsPerPixel::Auto, None);
    let info = screeninfo(8, 4, 8, 8, (3, 3, 2));
    assert_eq!(plan_capture(&args, Some(info)), Err(CaptureError::UnsupportedDepth));
}

#[test]
fn oversized_geometry_overflows_buffer_lengths() {
    let g = Geometry {
        width: u32::MAX,
        height: u32::MAX,
        stride_width: u32::MAX,
        bits_per_pixel: 32,
    };
    assert_eq!(frame_buffer_len(&g, PixelFormat::RGBA8888), None);
    assert_eq!(image_buffer_len(&g), None);
}

#[test]
fn device_capture_plans_from_descriptor() {
    let args = raw_args(None, None, BitsPerPixel::Auto, None);
    let info = screeninfo(8, 4, 8, 16, (5, 5, 5));
    let plan = plan_capture(&args, Some(info)).unwrap();
    assert_eq!(plan.format, PixelFormat::ARGB1555);
    assert_eq!(plan.geometry.width, 8);
    assert_eq!(plan.geometry.height, 4);
}

#[test]
fn output_extension_is_checked() {
    assert_eq!(
        validate_output_path("shot.jpg"),
        Err(CaptureError::OutputExtensionInvalid)
    );
    assert_eq!(validate_output_path("shot.png"), Ok(()));
    assert_eq!(validate_output_path("png"), Err(CaptureError::OutputExtensionInvalid));
    assert_eq!(validate_output_path(".png"), Ok(()));
}

#[test]
fn source_paths_classify_by_device_prefix() {
    assert_eq!(classify_source("/dev/fb0"), SourceKind::Device);
    assert_eq!(classify_source("/dev/fb"), SourceKind::Device);
    assert_eq!(classify_source("/dev/f"), SourceKind::RawFile);
    assert_eq!(classify_source("dump.bin"), SourceKind::RawFile);
    assert_eq!(classify_source("/tmp/dev/fb0"), SourceKind::RawFile);
}

#[test]
fn buffer_lengths_follow_geometry() {
    let g = Geometry {
        width: 4,
        height: 3,
        stride_width: 5,
        bits_per_pixel: 16,
    };
    assert_eq!(frame_buffer_len(&g, PixelFormat::RGB565), Some(5 * 2 * 3));
    assert_eq!(frame_buffer_len(&g, PixelFormat::RGBA8888), Some(5 * 4 * 3));
    assert_eq!(image_buffer_len(&g), Some(4 * 4 * 3));
}

#[test]
fn assemble_respects_stride_padding() {
    // 2 visible pixels per row, stride of 3 pixels, 2 rows, RGB565.
    let g = Geometry {
        width: 2,
        height: 2,
        stride_width: 3,
        bits_per_pixel: 16,
    };
    // red, blue, padding; green, white, padding
    let data: Vec<u8> = vec![
        0x00, 0xF8, 0x1F, 0x00, 0xAA, 0xAA, // row 0
        0xE0, 0x07, 0xFF, 0xFF, 0xBB, 0xBB, // row 1
    ];
    let img = assemble(&g, PixelFormat::RGB565, &data);
    assert_eq!(img.width, 2);
    assert_eq!(img.height, 2);
    assert_eq!(img.data.len(), 4 * 2 * 2);
    assert_eq!(img.pixel(0, 0), Rgba { r: 255, g: 0, b: 0, a: 255 });
    assert_eq!(img.pixel(1, 0), Rgba { r: 0, g: 0, b: 255, a: 255 });
    assert_eq!(img.pixel(0, 1), Rgba { r: 0, g: 255, b: 0, a: 255 });
    assert_eq!(img.pixel(1, 1), Rgba { r: 255, g: 255, b: 255, a: 255 });
}

fn two_by_one() -> RgbaImage {
    // pixel (0,0) is "first", pixel (1,0) is "second"
    RgbaImage {
        width: 2,
        height: 1,
        data: vec![1, 2, 3, 4, 5, 6, 7, 8],
    }
}

#[test]
fn rotation_none_keeps_dimensions_and_pixels() {
    let img = apply_rotation(two_by_one(), Rotation::Rotate0);
    assert_eq!((img.width, img.height), (2, 1));
    assert_eq!(img.data, vec![1, 2, 3, 4, 5, 6, 7, 8]);
}

#[test]
fn rotation_90_swaps_dimensions() {
    let img = apply_rotation(two_by_one(), Rotation::Rotate90);
    assert_eq!((img.width, img.height), (1, 2));
    // clockwise: the first pixel of the top row moves to the top of the right column
    assert_eq!(img.pixel(0, 0), Rgba { r: 1, g: 2, b: 3, a: 4 });
    assert_eq!(img.pixel(0, 1), Rgba { r: 5, g: 6, b: 7, a: 8 });
}

#[test]
fn rotation_180_keeps_dimensions_reverses_pixels() {
    let img = apply_rotation(two_by_one(), Rotation::Rotate180);
    assert_eq!((img.width, img.height), (2, 1));
    assert_eq!(img.pixel(0, 0), Rgba { r: 5, g: 6, b: 7, a: 8 });
    assert_eq!(img.pixel(1, 0), Rgba { r: 1, g: 2, b: 3, a: 4 });
}

#[test]
fn rotation_270_swaps_dimensions() {
    let img = apply_rotation(two_by_one(), Rotation::Rotate270);
    assert_eq!((img.width, img.height), (1, 2));
    // counterclockwise: the last pixel of the top row moves to the top of the left column
    assert_eq!(img.pixel(0, 0), Rgba { r: 5, g: 6, b: 7, a: 8 });
    assert_eq!(img.pixel(0, 1), Rgba { r: 1, g: 2, b: 3, a: 4 });
}

#[test]
fn process_frame_decodes_and_rotates() {
    let g = Geometry {
        width: 2,
        height: 1,
        stride_width: 2,
        bits_per_pixel: 32,
    };
    // two RGBA8888 pixels stored as [B, G, R, A]
    let data: Vec<u8> = vec![0x10, 0x20, 0x30, 0x40, 0x50, 0x60, 0x70, 0x80];
    let img = process_frame(&g, PixelFormat::RGBA8888, &data, Rotation::Rotate90);
    assert_eq!((img.width, img.height), (1, 2));
    assert_eq!(img.pixel(0, 0), Rgba { r: 0x30, g: 0x20, b: 0x10, a: 0x40 });
    assert_eq!(img.pixel(0, 1), Rgba { r: 0x70, g: 0x60, b: 0x50, a: 0x80 });
}
