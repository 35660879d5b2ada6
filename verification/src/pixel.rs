//! Pixel encodings and the per-pixel decoder.
//!
//! Each supported binary encoding is unpacked into 8-bit-per-channel RGBA.
//! Sub-byte channels widen by bit replication: the most significant bits of
//! the narrow value fill the vacated low-order positions, so 0 maps to 0 and
//! the channel maximum maps to 255 exactly.

use vstd::prelude::*;

verus! {

/// One pixel, 8 bits per channel, fully decoded.
#[derive(Debug, Clone, Copy, PartialEq, Eq, Structural)]
pub struct Rgba {
    pub r: u8,
    pub g: u8,
    pub b: u8,
    pub a: u8,
}

/// The closed set of supported pixel encodings. Each has a fixed byte width
/// and a fixed channel layout; the match in every consumer is exhaustive.
#[derive(Debug, Clone, Copy, PartialEq, Eq, Structural)]
pub enum PixelFormat {
    RGBA8888,
    RGB888,
    RGB565,
    ARGB1555,
}

/// Widen a 5-bit channel value to 8 bits by bit replication.
pub open spec fn expand5_spec(v: u8) -> u8 {
    (v << 3) | (v >> 2)
}

/// Widen a 6-bit channel value to 8 bits by bit replication.
pub open spec fn expand6_spec(v: u8) -> u8 {
    (v << 2) | (v >> 4)
}

/// The 16-bit word stored as two little-endian bytes.
pub open spec fn word_from_le_spec(lo: u8, hi: u8) -> u16 {
    (lo as u16) | ((hi as u16) << 8)
}

/// RGBA8888: bytes [B, G, R, A], the little-endian packing of an 0xAARRGGBB word.
pub open spec fn decode_rgba8888_spec(b0: u8, b1: u8, b2: u8, b3: u8) -> Rgba {
    Rgba { r: b2, g: b1, b: b0, a: b3 }
}

/// RGB888: bytes [B, G, R], fully opaque.
pub open spec fn decode_rgb888_spec(b0: u8, b1: u8, b2: u8) -> Rgba {
    Rgba { r: b2, g: b1, b: b0, a: 255 }
}

/// RGB565: 5-bit red in bits 11..=15, 6-bit green in bits 5..=10,
/// 5-bit blue in bits 0..=4, fully opaque.
pub open spec fn decode_rgb565_spec(w: u16) -> Rgba {
    Rgba {
        r: expand5_spec(((w >> 11) & 0x1f) as u8),
        g: expand6_spec(((w >> 5) & 0x3f) as u8),
        b: expand5_spec((w & 0x1f) as u8),
        a: 255,
    }
}

/// ARGB1555: alpha flag in bit 15 (set means opaque, clear means transparent),
/// 5-bit red in bits 10..=14, green in bits 5..=9, blue in bits 0..=4.
pub open spec fn decode_argb1555_spec(w: u16) -> Rgba {
    Rgba {
        r: expand5_spec(((w >> 10) & 0x1f) as u8),
        g: expand5_spec(((w >> 5) & 0x1f) as u8),
        b: expand5_spec((w & 0x1f) as u8),
        a: if w & 0x8000 != 0 { 255 } else { 0 },
    }
}

/// What decoding one pixel of `fmt` at byte offset `idx` of `bytes` yields.
pub open spec fn decode_pixel_spec(fmt: PixelFormat, bytes: Seq<u8>, idx: int) -> Rgba
    recommends
        0 <= idx,
        idx + fmt.bytes_per_pixel_spec() <= bytes.len(),
{
    match fmt {
        PixelFormat::RGBA8888 => decode_rgba8888_spec(
            bytes[idx],
            bytes[idx + 1],
            bytes[idx + 2],
            bytes[idx + 3],
        ),
        PixelFormat::RGB888 => decode_rgb888_spec(bytes[idx], bytes[idx + 1], bytes[idx + 2]),
        PixelFormat::RGB565 => decode_rgb565_spec(word_from_le_spec(bytes[idx], bytes[idx + 1])),
        PixelFormat::ARGB1555 => decode_argb1555_spec(
            word_from_le_spec(bytes[idx], bytes[idx + 1]),
        ),
    }
}

impl PixelFormat {
    /// Fixed storage width of one pixel in this encoding.
    pub open spec fn bytes_per_pixel_spec(self) -> usize {
        match self {
            PixelFormat::RGBA8888 => 4usize,
            PixelFormat::RGB888 => 3usize,
            PixelFormat::RGB565 => 2usize,
            PixelFormat::ARGB1555 => 2usize,
        }
    }

    /// Fixed storage width of one pixel in this encoding.
    pub fn bytes_per_pixel(&self) -> (n: usize)
        ensures
            n == self.bytes_per_pixel_spec(),
    {
        match self {
            PixelFormat::RGBA8888 => 4,
            PixelFormat::RGB888 => 3,
            PixelFormat::RGB565 | PixelFormat::ARGB1555 => 2,
        }
    }

    /// Which encoding a command-line value names.
    pub open spec fn from_str_spec(s: Seq<char>) -> Option<PixelFormat> {
        if s == "rgb565"@ {
            Some(PixelFormat::RGB565)
        } else if s == "argb1555"@ {
            Some(PixelFormat::ARGB1555)
        } else if s == "rgb888"@ {
            Some(PixelFormat::RGB888)
        } else if s == "rgba888"@ {
            Some(PixelFormat::RGBA8888)
        } else {
            None
        }
    }

    /// Parse a command-line pixel format: "rgb565", "argb1555", "rgb888" or
    /// "rgba888".
    pub fn from_str(s: &str) -> (r: Option<PixelFormat>)
        ensures
            r == PixelFormat::from_str_spec(s@),
    {
        if crate::text::str_eq(s, "rgb565") {
            Some(PixelFormat::RGB565)
        } else if crate::text::str_eq(s, "argb1555") {
            Some(PixelFormat::ARGB1555)
        } else if crate::text::str_eq(s, "rgb888") {
            Some(PixelFormat::RGB888)
        } else if crate::text::str_eq(s, "rgba888") {
            Some(PixelFormat::RGBA8888)
        } else {
            None
        }
    }

    /// Decode the pixel stored at byte offset `idx` of `buf`. Reads exactly
    /// `bytes_per_pixel` bytes starting at `idx`; never reads elsewhere.
    pub fn get_pixel(&self, buf: &[u8], idx: usize) -> (p: Rgba)
        requires
            idx + self.bytes_per_pixel_spec() <= buf@.len(),
        ensures
            p == decode_pixel_spec(*self, buf@, idx as int),
    {
        match self {
            PixelFormat::RGBA8888 => {
                let b = buf[idx];
                let g = buf[idx + 1];
                let r = buf[idx + 2];
                let a = buf[idx + 3];
                Rgba { r, g, b, a }
            },
            PixelFormat::RGB888 => {
                let b = buf[idx];
                let g = buf[idx + 1];
                let r = buf[idx + 2];
                Rgba { r, g, b, a: 255 }
            },
            PixelFormat::RGB565 => {
                let w: u16 = (buf[idx] as u16) | ((buf[idx + 1] as u16) << 8);
                assert((w >> 11) & 0x1f < 32 && (w >> 5) & 0x3f < 64 && w & 0x1f < 32)
                    by (bit_vector);
                let r = expand5(((w >> 11) & 0x1f) as u8);
                let g = expand6(((w >> 5) & 0x3f) as u8);
                let b = expand5((w & 0x1f) as u8);
                Rgba { r, g, b, a: 255 }
            },
            PixelFormat::ARGB1555 => {
                let w: u16 = (buf[idx] as u16) | ((buf[idx + 1] as u16) << 8);
                assert((w >> 10) & 0x1f < 32 && (w >> 5) & 0x1f < 32 && w & 0x1f < 32)
                    by (bit_vector);
                let r = expand5(((w >> 10) & 0x1f) as u8);
                let g = expand5(((w >> 5) & 0x1f) as u8);
                let b = expand5((w & 0x1f) as u8);
                let a: u8 = if w & 0x8000 != 0 { 255 } else { 0 };
                Rgba { r, g, b, a }
            },
        }
    }
}

/// Widen a 5-bit channel value to 8 bits by bit replication.
pub fn expand5(v: u8) -> (r: u8)
    requires
        v < 32,
    ensures
        r == expand5_spec(v),
{
    (v << 3) | (v >> 2)
}

/// Widen a 6-bit channel value to 8 bits by bit replication.
pub fn expand6(v: u8) -> (r: u8)
    requires
        v < 64,
    ensures
        r == expand6_spec(v),
{
    (v << 2) | (v >> 4)
}

/// The 5-bit replication expansion is exact at both ends and monotonic:
/// 0 widens to 0, 31 widens to 255, and a larger 5-bit value never widens
/// to a smaller 8-bit value.
pub proof fn lemma_expand5_monotonic()
    by (bit_vector)
    ensures
        expand5_spec(0) == 0,
        expand5_spec(31) == 255,
        forall|a: u8, b: u8|
            a <= b && b < 32 ==> #[trigger] expand5_spec(a) <= #[trigger] expand5_spec(b),
{
}

/// The 6-bit replication expansion is exact at both ends and monotonic:
/// 0 widens to 0, 63 widens to 255, and a larger 6-bit value never widens
/// to a smaller 8-bit value.
pub proof fn lemma_expand6_monotonic()
    by (bit_vector)
    ensures
        expand6_spec(0) == 0,
        expand6_spec(63) == 255,
        forall|a: u8, b: u8|
            a <= b && b < 64 ==> #[trigger] expand6_spec(a) <= #[trigger] expand6_spec(b),
{
}

} // verus!
