//! Framebuffer geometry: image dimensions, row stride and bit depth,
//! resolved either from a device-reported screen descriptor or from
//! user-supplied raw-dump parameters.

use vstd::prelude::*;

use crate::error::CaptureError;
use crate::error::ParamKind;

verus! {

/// One channel's position inside a device-reported pixel word:
/// bit offset, bit length, and whether the most significant bit is right.
#[derive(Debug, Clone, Copy, PartialEq, Eq, Structural)]
pub struct FbBitfield {
    pub offset: u32,
    pub length: u32,
    pub msb_right: u32,
}

/// The variable screen information a framebuffer device reports:
/// visible and virtual resolution, panning offsets, bit depth, a grayscale
/// flag, and the bitfield descriptor of each channel.
#[derive(Debug, Clone, Copy, PartialEq, Eq, Structural)]
pub struct FbVarScreeninfo {
    pub xres: u32,
    pub yres: u32,
    pub xres_virtual: u32,
    pub yres_virtual: u32,
    pub xoffset: u32,
    pub yoffset: u32,
    pub bits_per_pixel: u32,
    pub grayscale: u32,
    pub red: FbBitfield,
    pub green: FbBitfield,
    pub blue: FbBitfield,
    pub transp: FbBitfield,
}

/// Channel bit widths, used only to disambiguate the 16-bit encodings.
#[derive(Debug, Clone, Copy, PartialEq, Eq, Structural)]
pub struct ChannelLayout {
    pub red_bits: u8,
    pub green_bits: u8,
    pub blue_bits: u8,
}

/// Resolved frame dimensions. `stride_width` is the number of pixel columns
/// per stored row, which may exceed the visible `width` when the source pads
/// rows; all row-offset arithmetic must use `stride_width`.
#[derive(Debug, Clone, Copy, PartialEq, Eq, Structural)]
pub struct Geometry {
    pub width: u32,
    pub height: u32,
    pub stride_width: u32,
    pub bits_per_pixel: u32,
}

impl Geometry {
    /// Both dimensions are positive and rows are at least as wide as the
    /// visible image.
    pub open spec fn wf(self) -> bool {
        0 < self.width <= self.stride_width && 0 < self.height
    }
}

/// The user's bit-depth choice; `Auto` defers to the device descriptor.
#[derive(Debug, Clone, Copy, PartialEq, Eq, Structural)]
pub enum BitsPerPixel {
    Auto,
    Sixteen,
    TwentyFour,
    ThirtyTwo,
}

impl BitsPerPixel {
    /// The numeric depth this choice names, if it names one.
    pub open spec fn depth_spec(self) -> Option<u32> {
        match self {
            BitsPerPixel::Auto => None,
            BitsPerPixel::Sixteen => Some(16u32),
            BitsPerPixel::TwentyFour => Some(24u32),
            BitsPerPixel::ThirtyTwo => Some(32u32),
        }
    }

    /// Which depth a command-line value names.
    pub open spec fn from_str_spec(s: Seq<char>) -> Option<BitsPerPixel> {
        if s == "16"@ {
            Some(BitsPerPixel::Sixteen)
        } else if s == "24"@ {
            Some(BitsPerPixel::TwentyFour)
        } else if s == "32"@ {
            Some(BitsPerPixel::ThirtyTwo)
        } else {
            None
        }
    }

    /// Parse a command-line bit depth: "16", "24" or "32".
    pub fn from_str(s: &str) -> (r: Option<BitsPerPixel>)
        ensures
            r == BitsPerPixel::from_str_spec(s@),
    {
        if crate::text::str_eq(s, "16") {
            Some(BitsPerPixel::Sixteen)
        } else if crate::text::str_eq(s, "24") {
            Some(BitsPerPixel::TwentyFour)
        } else if crate::text::str_eq(s, "32") {
            Some(BitsPerPixel::ThirtyTwo)
        } else {
            None
        }
    }

    /// The numeric depth this choice names, if it names one.
    pub fn depth(&self) -> (r: Option<u32>)
        ensures
            r == self.depth_spec(),
    {
        match self {
            BitsPerPixel::Auto => None,
            BitsPerPixel::Sixteen => Some(16),
            BitsPerPixel::TwentyFour => Some(24),
            BitsPerPixel::ThirtyTwo => Some(32),
        }
    }
}

/// A bit length clamped into a byte: values above 255 saturate, so the
/// tests against small widths (such as 5) are unaffected.
pub open spec fn clamp_bits_spec(v: u32) -> u8 {
    if v < 255 {
        v as u8
    } else {
        255u8
    }
}

impl FbVarScreeninfo {
    /// The channel bit widths this descriptor reports.
    pub open spec fn channel_layout_spec(self) -> ChannelLayout {
        ChannelLayout {
            red_bits: clamp_bits_spec(self.red.length),
            green_bits: clamp_bits_spec(self.green.length),
            blue_bits: clamp_bits_spec(self.blue.length),
        }
    }

    /// The channel bit widths this descriptor reports.
    pub fn channel_layout(&self) -> (r: ChannelLayout)
        ensures
            r == self.channel_layout_spec(),
    {
        ChannelLayout {
            red_bits: clamp_bits(self.red.length),
            green_bits: clamp_bits(self.green.length),
            blue_bits: clamp_bits(self.blue.length),
        }
    }
}

fn clamp_bits(v: u32) -> (r: u8)
    ensures
        r == clamp_bits_spec(v),
{
    if v < 255 {
        v as u8
    } else {
        255
    }
}

/// What geometry a device descriptor resolves to: the visible resolution,
/// the virtual width as stride, and the reported depth. A descriptor whose
/// values cannot form a well-formed geometry counts as a failed query.
pub open spec fn geometry_from_device_spec(info: FbVarScreeninfo) -> Result<Geometry, CaptureError> {
    let g = Geometry {
        width: info.xres,
        height: info.yres,
        stride_width: info.xres_virtual,
        bits_per_pixel: info.bits_per_pixel,
    };
    if g.wf() {
        Ok(g)
    } else {
        Err(CaptureError::DeviceQueryFailed)
    }
}

/// Resolve geometry from a device-reported descriptor.
pub fn geometry_from_device(info: &FbVarScreeninfo) -> (r: Result<Geometry, CaptureError>)
    ensures
        r == geometry_from_device_spec(*info),
{
    let g = Geometry {
        width: info.xres,
        height: info.yres,
        stride_width: info.xres_virtual,
        bits_per_pixel: info.bits_per_pixel,
    };
    if 0 < g.width && g.width <= g.stride_width && 0 < g.height {
        Ok(g)
    } else {
        Err(CaptureError::DeviceQueryFailed)
    }
}

/// What geometry user-supplied raw-dump parameters resolve to. Width and
/// height are mandatory and must be positive; the bit depth must be given.
/// Raw dumps have no padding concept, so the stride equals the width.
pub open spec fn geometry_from_params_spec(
    width: Option<i32>,
    height: Option<i32>,
    bit_depth: BitsPerPixel,
) -> Result<Geometry, CaptureError> {
    match width {
        Option::None => Err(CaptureError::MissingParameter(ParamKind::Width)),
        Option::Some(w) => match height {
            Option::None => Err(CaptureError::MissingParameter(ParamKind::Height)),
            Option::Some(h) => if w <= 0 {
                Err(CaptureError::MissingParameter(ParamKind::Width))
            } else if h <= 0 {
                Err(CaptureError::MissingParameter(ParamKind::Height))
            } else {
                match bit_depth.depth_spec() {
                    Option::None => Err(CaptureError::MissingParameter(ParamKind::BitDepth)),
                    Option::Some(d) => Ok(
                        Geometry {
                            width: w as u32,
                            height: h as u32,
                            stride_width: w as u32,
                            bits_per_pixel: d,
                        },
                    ),
                }
            },
        },
    }
}

/// Resolve geometry for a raw dump from user-supplied parameters.
pub fn geometry_from_params(
    width: Option<i32>,
    height: Option<i32>,
    bit_depth: BitsPerPixel,
) -> (r: Result<Geometry, CaptureError>)
    ensures
        r == geometry_from_params_spec(width, height, bit_depth),
{
    match width {
        None => Err(CaptureError::MissingParameter(ParamKind::Width)),
        Some(w) => match height {
            None => Err(CaptureError::MissingParameter(ParamKind::Height)),
            Some(h) => if w <= 0 {
                Err(CaptureError::MissingParameter(ParamKind::Width))
            } else if h <= 0 {
                Err(CaptureError::MissingParameter(ParamKind::Height))
            } else {
                match bit_depth.depth() {
                    None => Err(CaptureError::MissingParameter(ParamKind::BitDepth)),
                    Some(d) => Ok(
                        Geometry {
                            width: w as u32,
                            height: h as u32,
                            stride_width: w as u32,
                            bits_per_pixel: d,
                        },
                    ),
                }
            },
        },
    }
}

} // verus!
