//! Pixel-format resolution: from the resolved bit depth plus either a
//! device-reported channel layout or a user-supplied format hint, pick the
//! concrete encoding.

use vstd::prelude::*;

use crate::error::CaptureError;
use crate::error::ParamKind;
use crate::geometry::ChannelLayout;
use crate::pixel::PixelFormat;

verus! {

/// Which encoding a bit depth resolves to.
///
/// 32 and 24 bits resolve unconditionally. At 16 bits a device layout with
/// all three channels 5 bits wide means ARGB1555 (the remaining bit is the
/// alpha flag); any other device layout means RGB565. Without a device
/// layout the caller must supply one of the two 16-bit encodings: absence
/// is a missing parameter, a non-16-bit choice is an invalid format. Any
/// other depth is unsupported.
pub open spec fn resolve_format_spec(
    bits_per_pixel: u32,
    layout: Option<ChannelLayout>,
    hint: Option<PixelFormat>,
) -> Result<PixelFormat, CaptureError> {
    if bits_per_pixel == 32 {
        Ok(PixelFormat::RGBA8888)
    } else if bits_per_pixel == 24 {
        Ok(PixelFormat::RGB888)
    } else if bits_per_pixel == 16 {
        match layout {
            Option::Some(l) => if l.red_bits == 5 && l.green_bits == 5 && l.blue_bits == 5 {
                Ok(PixelFormat::ARGB1555)
            } else {
                Ok(PixelFormat::RGB565)
            },
            Option::None => match hint {
                Option::None => Err(CaptureError::MissingParameter(ParamKind::PixelFormat)),
                Option::Some(f) => if f == PixelFormat::RGB565 || f == PixelFormat::ARGB1555 {
                    Ok(f)
                } else {
                    Err(CaptureError::InvalidFormat)
                },
            },
        }
    } else {
        Err(CaptureError::UnsupportedDepth)
    }
}

/// Resolve the concrete pixel encoding. `layout` is the device-reported
/// channel layout when the source is a device; `hint` is the user's format
/// choice for raw dumps.
pub fn resolve_format(
    bits_per_pixel: u32,
    layout: Option<ChannelLayout>,
    hint: Option<PixelFormat>,
) -> (r: Result<PixelFormat, CaptureError>)
    ensures
        r == resolve_format_spec(bits_per_pixel, layout, hint),
{
    if bits_per_pixel == 32 {
        Ok(PixelFormat::RGBA8888)
    } else if bits_per_pixel == 24 {
        Ok(PixelFormat::RGB888)
    } else if bits_per_pixel == 16 {
        match layout {
            Some(l) => if l.red_bits == 5 && l.green_bits == 5 && l.blue_bits == 5 {
                Ok(PixelFormat::ARGB1555)
            } else {
                Ok(PixelFormat::RGB565)
            },
            None => match hint {
                None => Err(CaptureError::MissingParameter(ParamKind::PixelFormat)),
                Some(f) => if f == PixelFormat::RGB565 || f == PixelFormat::ARGB1555 {
                    Ok(f)
                } else {
                    Err(CaptureError::InvalidFormat)
                },
            },
        }
    } else {
        Err(CaptureError::UnsupportedDepth)
    }
}

} // verus!
