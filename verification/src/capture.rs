//! Orchestration of one capture operation: classifying the source path,
//! validating the output path, planning geometry and format, sizing the raw
//! buffer, and turning the raw bytes into the final (optionally rotated)
//! image. The file and device I/O around these steps lives outside the
//! library; everything decided here is verified.

use vstd::prelude::*;

use crate::error::CaptureError;
use crate::format::resolve_format;
use crate::format::resolve_format_spec;
use crate::frame::apply_rotation;
use crate::frame::assemble;
use crate::frame::assembled_pixel_spec;
use crate::frame::frame_len_spec;
use crate::frame::rotated_dims_spec;
use crate::frame::rotated_src_spec;
use crate::frame::RgbaImage;
use crate::frame::Rotation;
use crate::geometry::geometry_from_device_spec;
use crate::geometry::geometry_from_device;
use crate::geometry::geometry_from_params_spec;
use crate::geometry::geometry_from_params;
use crate::geometry::BitsPerPixel;
use crate::geometry::FbVarScreeninfo;
use crate::geometry::Geometry;
use crate::pixel::PixelFormat;

verus! {

/// How a source path is treated: a live framebuffer device that reports its
/// own geometry, or a raw dump whose geometry the user must supply. Decided
/// once at startup, never re-derived.
#[derive(Debug, Clone, Copy, PartialEq, Eq, Structural)]
pub enum SourceKind {
    Device,
    RawFile,
}

/// The capture configuration, as the command line hands it over after
/// parsing: output and input paths, rotation, and the raw-dump parameters
/// (ignored when the source is a device).
#[derive(Debug)]
pub struct Args {
    pub output: String,
    pub input: String,
    pub rotation: Rotation,
    pub bit_depth: BitsPerPixel,
    pub pixel_format: Option<PixelFormat>,
    pub width: Option<i32>,
    pub height: Option<i32>,
}

/// A path names a live framebuffer device when it starts with "/dev/fb".
pub open spec fn is_device_path_spec(s: Seq<char>) -> bool {
    s.len() >= 7 && s.subrange(0, 7) == "/dev/fb"@
}

/// Decide whether the input path is a device or a raw dump.
pub fn classify_source(path: &str) -> (k: SourceKind)
    ensures
        k == (if is_device_path_spec(path@) {
            SourceKind::Device
        } else {
            SourceKind::RawFile
        }),
{
    proof {
        reveal_strlit("/dev/fb");
    }
    let dev = "/dev/fb";
    let n = path.unicode_len();
    if n < 7 {
        return SourceKind::RawFile;
    }
    let mut i: usize = 0;
    while i < 7
        invariant
            path@.len() >= 7,
            i <= 7,
            dev@ == "/dev/fb"@,
            "/dev/fb"@.len() == 7,
            forall|j: int| 0 <= j < i ==> path@[j] == "/dev/fb"@[j],
        decreases 7 - i,
    {
        if path.get_char(i) != dev.get_char(i) {
            proof {
                if is_device_path_spec(path@) {
                    assert(path@.subrange(0, 7)[i as int] == path@[i as int]);
                    assert(false);
                }
            }
            return SourceKind::RawFile;
        }
        i += 1;
    }
    proof {
        assert(path@.subrange(0, 7) =~= "/dev/fb"@);
    }
    SourceKind::Device
}

/// The output path carries the required ".png" extension.
pub open spec fn has_png_extension_spec(s: Seq<char>) -> bool {
    s.len() >= 4 && s.subrange(s.len() - 4, s.len() as int) == ".png"@
}

/// Reject an output path that does not end in ".png", before any capture
/// work is attempted.
pub fn validate_output_path(path: &str) -> (r: Result<(), CaptureError>)
    ensures
        r is Ok <==> has_png_extension_spec(path@),
        !has_png_extension_spec(path@) ==> r == Err::<(), CaptureError>(
            CaptureError::OutputExtensionInvalid,
        ),
{
    proof {
        reveal_strlit(".png");
    }
    let ext = ".png";
    let n = path.unicode_len();
    if n < 4 {
        return Err(CaptureError::OutputExtensionInvalid);
    }
    let mut i: usize = 0;
    while i < 4
        invariant
            path@.len() == n,
            n >= 4,
            i <= 4,
            ext@ == ".png"@,
            ".png"@.len() == 4,
            forall|j: int| 0 <= j < i ==> path@[n - 4 + j] == ".png"@[j],
        decreases 4 - i,
    {
        if path.get_char(n - 4 + i) != ext.get_char(i) {
            proof {
                if has_png_extension_spec(path@) {
                    assert(path@.subrange(n - 4, n as int)[i as int] == path@[n - 4 + i]);
                    assert(false);
                }
            }
            return Err(CaptureError::OutputExtensionInvalid);
        }
        i += 1;
    }
    proof {
        assert(path@.subrange(n - 4, n as int) =~= ".png"@);
    }
    Ok(())
}

/// The resolved plan for one capture: the geometry to read with and the
/// encoding to decode with.
#[derive(Debug, Clone, Copy, PartialEq, Eq, Structural)]
pub struct FramePlan {
    pub geometry: Geometry,
    pub format: PixelFormat,
}

/// What planning resolves to: geometry from the device descriptor when one
/// is present, else from the user parameters; then the encoding from the
/// resolved depth plus either the device channel layout or the user hint.
pub open spec fn plan_capture_spec(args: Args, device_info: Option<FbVarScreeninfo>) -> Result<
    FramePlan,
    CaptureError,
> {
    let geo_r = match device_info {
        Option::Some(info) => geometry_from_device_spec(info),
        Option::None => geometry_from_params_spec(args.width, args.height, args.bit_depth),
    };
    match geo_r {
        Result::Err(e) => Err(e),
        Result::Ok(g) => {
            let layout = match device_info {
                Option::Some(info) => Option::Some(info.channel_layout_spec()),
                Option::None => Option::None,
            };
            match resolve_format_spec(g.bits_per_pixel, layout, args.pixel_format) {
                Result::Err(e) => Err(e),
                Result::Ok(f) => Ok(FramePlan { geometry: g, format: f }),
            }
        },
    }
}

/// Resolve geometry and format for one capture. `device_info` is the
/// descriptor the device reported, or `None` for a raw dump.
pub fn plan_capture(args: &Args, device_info: Option<FbVarScreeninfo>) -> (r: Result<
    FramePlan,
    CaptureError,
>)
    ensures
        r == plan_capture_spec(*args, device_info),
        r matches Ok(p) ==> p.geometry.wf(),
{
    let geo_r = match device_info {
        Some(info) => geometry_from_device(&info),
        None => geometry_from_params(args.width, args.height, args.bit_depth),
    };
    match geo_r {
        Err(e) => Err(e),
        Ok(g) => {
            let layout = match device_info {
                Some(info) => Some(info.channel_layout()),
                None => None,
            };
            match resolve_format(g.bits_per_pixel, layout, args.pixel_format) {
                Err(e) => Err(e),
                Ok(f) => Ok(FramePlan { geometry: g, format: f }),
            }
        },
    }
}

/// How many bytes the source must provide for this plan, or `None` when
/// `stride_width * bytes_per_pixel * height` does not fit in memory.
pub fn frame_buffer_len(g: &Geometry, fmt: PixelFormat) -> (r: Option<usize>)
    requires
        g.wf(),
    ensures
        match r {
            Some(n) => n == frame_len_spec(*g, fmt),
            None => frame_len_spec(*g, fmt) > usize::MAX,
        },
{
    let bpp = fmt.bytes_per_pixel();
    match (g.stride_width as usize).checked_mul(bpp) {
        None => {
            proof {
                assert((g.stride_width as int) * (fmt.bytes_per_pixel_spec() as int) * (
                g.height as int) >= (g.stride_width as int) * (fmt.bytes_per_pixel_spec() as int))
                    by (nonlinear_arith)
                    requires
                        g.height >= 1,
                        (g.stride_width as int) * (fmt.bytes_per_pixel_spec() as int) >= 0,
                ;
            }
            None
        },
        Some(a) => match a.checked_mul(g.height as usize) {
            None => None,
            Some(t) => Some(t),
        },
    }
}

/// How many bytes the decoded image needs (`4 * width * height`), or `None`
/// when that does not fit in memory.
pub fn image_buffer_len(g: &Geometry) -> (r: Option<usize>)
    requires
        g.wf(),
    ensures
        match r {
            Some(n) => n == 4 * (g.width as int) * (g.height as int),
            None => 4 * (g.width as int) * (g.height as int) > usize::MAX,
        },
{
    match 4usize.checked_mul(g.width as usize) {
        None => {
            proof {
                assert(4 * (g.width as int) * (g.height as int) >= 4 * (g.width as int))
                    by (nonlinear_arith)
                    requires
                        g.height >= 1,
                        g.width >= 0,
                ;
            }
            None
        },
        Some(a) => match a.checked_mul(g.height as usize) {
            None => None,
            Some(t) => Some(t),
        },
    }
}

/// Decode the raw buffer and apply the requested rotation: the whole pure
/// tail of the capture pipeline, from bytes read to image to save.
pub fn process_frame(g: &Geometry, fmt: PixelFormat, data: &[u8], rotation: Rotation) -> (out:
    RgbaImage)
    requires
        g.wf(),
        data@.len() == frame_len_spec(*g, fmt),
        4 * (g.width as int) * (g.height as int) <= usize::MAX,
    ensures
        out.wf(),
        out.width as int == rotated_dims_spec(rotation, g.width as int, g.height as int).0,
        out.height as int == rotated_dims_spec(rotation, g.width as int, g.height as int).1,
        forall|x: int, y: int|
            0 <= x < out.width && 0 <= y < out.height ==> #[trigger] out.pixel_spec(x, y)
                == assembled_pixel_spec(
                *g,
                fmt,
                data@,
                rotated_src_spec(rotation, g.width as int, g.height as int, x, y).0,
                rotated_src_spec(rotation, g.width as int, g.height as int, x, y).1,
            ),
{
    let img = assemble(g, fmt, data);
    apply_rotation(img, rotation)
}

} // verus!
