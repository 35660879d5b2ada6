//! Frame assembly and rotation.
//!
//! The assembler walks the 2D pixel grid of a raw buffer, applying the row
//! stride, and produces a complete RGBA image; a rotation then optionally
//! rewrites it into an image of swapped or equal dimensions.

use vstd::prelude::*;

use crate::geometry::Geometry;
use crate::pixel::decode_pixel_spec;
use crate::pixel::PixelFormat;
use crate::pixel::Rgba;

verus! {

/// A decoded image: `width * height` pixels, 4 bytes each (R, G, B, A),
/// stored row-major with the top row first.
#[derive(Debug)]
pub struct RgbaImage {
    pub width: u32,
    pub height: u32,
    pub data: Vec<u8>,
}

/// The pixel stored at (x, y) of a row-major RGBA byte sequence whose rows
/// are `width` pixels wide.
pub open spec fn pixel_at_spec(data: Seq<u8>, width: int, x: int, y: int) -> Rgba {
    let base = 4 * (y * width + x);
    Rgba { r: data[base], g: data[base + 1], b: data[base + 2], a: data[base + 3] }
}

impl RgbaImage {
    /// The byte store holds exactly `width * height` four-byte pixels.
    pub open spec fn wf(self) -> bool {
        self.data@.len() == 4 * (self.width as int) * (self.height as int)
    }

    /// The pixel stored at (x, y).
    pub open spec fn pixel_spec(self, x: int, y: int) -> Rgba
        recommends
            self.wf(),
            0 <= x < self.width,
            0 <= y < self.height,
    {
        pixel_at_spec(self.data@, self.width as int, x, y)
    }

    /// Read the pixel stored at (x, y).
    pub fn pixel(&self, x: u32, y: u32) -> (p: Rgba)
        requires
            self.wf(),
            x < self.width,
            y < self.height,
        ensures
            p == self.pixel_spec(x as int, y as int),
    {
        let n: usize = self.data.len();
        proof {
            lemma_pixel_base_bound(self.width as int, self.height as int, x as int, y as int);
            assert(4 * ((y as int) * (self.width as int) + (x as int)) < n as int);
        }
        let base: usize = 4 * ((y as usize) * (self.width as usize) + (x as usize));
        Rgba {
            r: self.data[base],
            g: self.data[base + 1],
            b: self.data[base + 2],
            a: self.data[base + 3],
        }
    }
}

/// The byte offset of pixel (x, y) inside a raw buffer laid out with the
/// given geometry and encoding: rows are `stride_width` pixels apart.
pub open spec fn pixel_offset_spec(g: Geometry, fmt: PixelFormat, x: int, y: int) -> int {
    (y * (g.stride_width as int) + x) * (fmt.bytes_per_pixel_spec() as int)
}

/// The byte count a raw buffer must hold:
/// `stride_width * bytes_per_pixel * height`.
pub open spec fn frame_len_spec(g: Geometry, fmt: PixelFormat) -> int {
    (g.stride_width as int) * (fmt.bytes_per_pixel_spec() as int) * (g.height as int)
}

/// The pixel the assembled frame shows at (x, y): the decode of the raw
/// bytes at that pixel's stride offset.
pub open spec fn assembled_pixel_spec(
    g: Geometry,
    fmt: PixelFormat,
    data: Seq<u8>,
    x: int,
    y: int,
) -> Rgba {
    decode_pixel_spec(fmt, data, pixel_offset_spec(g, fmt, x, y))
}

proof fn lemma_pixel_base_bound(w: int, h: int, x: int, y: int)
    by (nonlinear_arith)
    requires
        0 <= x < w,
        0 <= y < h,
    ensures
        0 <= y * w,
        0 <= 4 * (y * w + x),
        4 * (y * w + x) + 4 <= 4 * w * h,
{
}

proof fn lemma_offset_bound(s: int, h: int, w: int, bpp: int, x: int, y: int)
    by (nonlinear_arith)
    requires
        0 <= x < w,
        w <= s,
        0 <= y < h,
        0 < bpp,
    ensures
        0 <= y * s,
        y * s + x < s * h,
        (y * s + x) * bpp + bpp <= s * bpp * h,
        y * s <= (y * s + x) * bpp,
        (y * s + x) <= (y * s + x) * bpp,
{
}

proof fn lemma_row_mono(w: int, xx: int, yy: int, y: int, x: int)
    by (nonlinear_arith)
    requires
        0 <= xx < w,
        0 <= yy < y,
        0 <= x,
    ensures
        0 <= 4 * (yy * w + xx),
        4 * (yy * w + xx) + 4 <= 4 * (y * w + x),
{
}

/// Append one pixel's four bytes to a row-major RGBA byte store.
fn push_pixel(out: &mut Vec<u8>, p: Rgba)
    ensures
        final(out)@ == old(out)@ + seq![p.r, p.g, p.b, p.a],
{
    out.push(p.r);
    out.push(p.g);
    out.push(p.b);
    out.push(p.a);
    proof {
        assert(out@ =~= old(out)@ + seq![p.r, p.g, p.b, p.a]);
    }
}

/// Assemble the full RGBA image from a raw buffer.
///
/// Produces exactly `width * height` pixels; every read the body makes lies
/// inside the buffer, which the verifier checks against the buffer length
/// `stride_width * bytes_per_pixel * height`.
pub fn assemble(g: &Geometry, fmt: PixelFormat, data: &[u8]) -> (img: RgbaImage)
    requires
        g.wf(),
        data@.len() == frame_len_spec(*g, fmt),
        4 * (g.width as int) * (g.height as int) <= usize::MAX,
    ensures
        img.wf(),
        img.width == g.width,
        img.height == g.height,
        forall|x: int, y: int|
            0 <= x < g.width && 0 <= y < g.height ==> #[trigger] img.pixel_spec(x, y)
                == assembled_pixel_spec(*g, fmt, data@, x, y),
{
    let w = g.width;
    let h = g.height;
    let stride = g.stride_width;
    let bpp = fmt.bytes_per_pixel();
    let n: usize = data.len();
    let mut out: Vec<u8> = Vec::new();
    let mut y: u32 = 0;
    while y < h
        invariant
            g.wf(),
            w == g.width,
            h == g.height,
            stride == g.stride_width,
            bpp == fmt.bytes_per_pixel_spec(),
            data@.len() == frame_len_spec(*g, fmt),
            n == data@.len(),
            4 * (w as int) * (h as int) <= usize::MAX,
            y <= h,
            out@.len() == 4 * ((y as int) * (w as int)),
            forall|xx: int, yy: int|
                0 <= xx < w && 0 <= yy < y ==> #[trigger] pixel_at_spec(out@, w as int, xx, yy)
                    == assembled_pixel_spec(*g, fmt, data@, xx, yy),
        decreases h - y,
    {
        let mut x: u32 = 0;
        while x < w
            invariant
                g.wf(),
                w == g.width,
                h == g.height,
                stride == g.stride_width,
                bpp == fmt.bytes_per_pixel_spec(),
                data@.len() == frame_len_spec(*g, fmt),
                n == data@.len(),
                4 * (w as int) * (h as int) <= usize::MAX,
                y < h,
                x <= w,
                out@.len() == 4 * ((y as int) * (w as int) + (x as int)),
                forall|xx: int, yy: int|
                    0 <= xx < w && 0 <= yy < y ==> #[trigger] pixel_at_spec(out@, w as int, xx, yy)
                        == assembled_pixel_spec(*g, fmt, data@, xx, yy),
                forall|xx: int|
                    0 <= xx < x ==> #[trigger] pixel_at_spec(out@, w as int, xx, y as int)
                        == assembled_pixel_spec(*g, fmt, data@, xx, y as int),
            decreases w - x,
        {
            proof {
                lemma_offset_bound(
                    stride as int,
                    h as int,
                    w as int,
                    bpp as int,
                    x as int,
                    y as int,
                );
                lemma_pixel_base_bound(w as int, h as int, x as int, y as int);
            }
            let src: usize = ((y as usize) * (stride as usize) + (x as usize)) * bpp;
            let p = fmt.get_pixel(data, src);
            let ghost prev = out@;
            push_pixel(&mut out, p);
            proof {
                assert forall|xx: int, yy: int| 0 <= xx < w && 0 <= yy < y implies #[trigger]
                    pixel_at_spec(out@, w as int, xx, yy) == assembled_pixel_spec(
                    *g,
                    fmt,
                    data@,
                    xx,
                    yy,
                ) by {
                    lemma_row_mono(w as int, xx, yy, y as int, x as int);
                    assert(pixel_at_spec(out@, w as int, xx, yy) == pixel_at_spec(
                        prev,
                        w as int,
                        xx,
                        yy,
                    ));
                }
                assert forall|xx: int| 0 <= xx < x implies #[trigger] pixel_at_spec(
                    out@,
                    w as int,
                    xx,
                    y as int,
                ) == assembled_pixel_spec(*g, fmt, data@, xx, y as int) by {
                    assert(pixel_at_spec(out@, w as int, xx, y as int) == pixel_at_spec(
                        prev,
                        w as int,
                        xx,
                        y as int,
                    ));
                }
                assert(pixel_at_spec(out@, w as int, x as int, y as int) == p);
            }
            x += 1;
        }
        proof {
            assert(((y as int) + 1) * (w as int) == (y as int) * (w as int) + (w as int))
                by (nonlinear_arith);
        }
        y += 1;
    }
    proof {
        assert(4 * ((h as int) * (w as int)) == 4 * (w as int) * (h as int)) by (nonlinear_arith);
    }
    RgbaImage { width: w, height: h, data: out }
}

/// The rotation to apply to the assembled image before it is written out.
#[derive(Debug, Clone, Copy, PartialEq, Eq, Structural)]
pub enum Rotation {
    Rotate0,
    Rotate90,
    Rotate180,
    Rotate270,
}

impl Rotation {
    /// Which rotation a command-line angle names.
    pub open spec fn from_str_spec(s: Seq<char>) -> Option<Rotation> {
        if s == "0"@ {
            Some(Rotation::Rotate0)
        } else if s == "90"@ {
            Some(Rotation::Rotate90)
        } else if s == "180"@ {
            Some(Rotation::Rotate180)
        } else if s == "270"@ {
            Some(Rotation::Rotate270)
        } else {
            None
        }
    }

    /// Parse a command-line rotation angle: "0", "90", "180" or "270".
    pub fn from_str(s: &str) -> (r: Option<Rotation>)
        ensures
            r == Rotation::from_str_spec(s@),
    {
        if crate::text::str_eq(s, "0") {
            Some(Rotation::Rotate0)
        } else if crate::text::str_eq(s, "90") {
            Some(Rotation::Rotate90)
        } else if crate::text::str_eq(s, "180") {
            Some(Rotation::Rotate180)
        } else if crate::text::str_eq(s, "270") {
            Some(Rotation::Rotate270)
        } else {
            None
        }
    }
}

/// The (width, height) a rotated image has: a quarter turn either way swaps
/// the dimensions, a half turn or no turn keeps them.
pub open spec fn rotated_dims_spec(rotation: Rotation, w: int, h: int) -> (int, int) {
    match rotation {
        Rotation::Rotate0 => (w, h),
        Rotation::Rotate90 => (h, w),
        Rotation::Rotate180 => (w, h),
        Rotation::Rotate270 => (h, w),
    }
}

/// Which source pixel of a `w * h` image lands at (x, y) of the rotated
/// image. Quarter turns are clockwise.
pub open spec fn rotated_src_spec(rotation: Rotation, w: int, h: int, x: int, y: int) -> (
    int,
    int,
) {
    match rotation {
        Rotation::Rotate0 => (x, y),
        Rotation::Rotate90 => (y, h - 1 - x),
        Rotation::Rotate180 => (w - 1 - x, h - 1 - y),
        Rotation::Rotate270 => (w - 1 - y, x),
    }
}

/// Rotate the image by the requested quarter turns. 90 and 270 degrees
/// yield an image of swapped dimensions; 180 degrees and no rotation keep
/// the dimensions.
pub fn apply_rotation(img: RgbaImage, rotation: Rotation) -> (out: RgbaImage)
    requires
        img.wf(),
    ensures
        out.wf(),
        out.width as int == rotated_dims_spec(rotation, img.width as int, img.height as int).0,
        out.height as int == rotated_dims_spec(rotation, img.width as int, img.height as int).1,
        forall|x: int, y: int|
            0 <= x < out.width && 0 <= y < out.height ==> #[trigger] out.pixel_spec(x, y)
                == img.pixel_spec(
                rotated_src_spec(rotation, img.width as int, img.height as int, x, y).0,
                rotated_src_spec(rotation, img.width as int, img.height as int, x, y).1,
            ),
{
    if let Rotation::Rotate0 = rotation {
        return img;
    }
    let w = img.width;
    let h = img.height;
    let ow: u32;
    let oh: u32;
    match rotation {
        Rotation::Rotate0 | Rotation::Rotate180 => {
            ow = w;
            oh = h;
        },
        Rotation::Rotate90 | Rotation::Rotate270 => {
            ow = h;
            oh = w;
        },
    }
    let n: usize = img.data.len();
    proof {
        assert((ow as int) * (oh as int) == (w as int) * (h as int)
            && 4 * (ow as int) * (oh as int) == 4 * (w as int) * (h as int)
            && 4 * (ow as int) * (oh as int) == 4 * ((ow as int) * (oh as int)))
            by (nonlinear_arith)
            requires
                ow == w && oh == h || ow == h && oh == w,
        ;
    }
    let mut out: Vec<u8> = Vec::new();
    let mut y: u32 = 0;
    while y < oh
        invariant
            img.wf(),
            w == img.width,
            h == img.height,
            n == img.data@.len(),
            (ow as int, oh as int) == rotated_dims_spec(rotation, w as int, h as int),
            4 * (ow as int) * (oh as int) == 4 * (w as int) * (h as int),
            y <= oh,
            out@.len() == 4 * ((y as int) * (ow as int)),
            forall|xx: int, yy: int|
                0 <= xx < ow && 0 <= yy < y ==> #[trigger] pixel_at_spec(out@, ow as int, xx, yy)
                    == img.pixel_spec(
                    rotated_src_spec(rotation, w as int, h as int, xx, yy).0,
                    rotated_src_spec(rotation, w as int, h as int, xx, yy).1,
                ),
        decreases oh - y,
    {
        let mut x: u32 = 0;
        while x < ow
            invariant
                img.wf(),
                w == img.width,
                h == img.height,
                n == img.data@.len(),
                (ow as int, oh as int) == rotated_dims_spec(rotation, w as int, h as int),
                4 * (ow as int) * (oh as int) == 4 * (w as int) * (h as int),
                y < oh,
                x <= ow,
                out@.len() == 4 * ((y as int) * (ow as int) + (x as int)),
                forall|xx: int, yy: int|
                    0 <= xx < ow && 0 <= yy < y ==> #[trigger] pixel_at_spec(
                        out@,
                        ow as int,
                        xx,
                        yy,
                    ) == img.pixel_spec(
                        rotated_src_spec(rotation, w as int, h as int, xx, yy).0,
                        rotated_src_spec(rotation, w as int, h as int, xx, yy).1,
                    ),
                forall|xx: int|
                    0 <= xx < x ==> #[trigger] pixel_at_spec(out@, ow as int, xx, y as int)
                        == img.pixel_spec(
                        rotated_src_spec(rotation, w as int, h as int, xx, y as int).0,
                        rotated_src_spec(rotation, w as int, h as int, xx, y as int).1,
                    ),
            decreases ow - x,
        {
            let sx: u32;
            let sy: u32;
            match rotation {
                Rotation::Rotate0 => {
                    sx = x;
                    sy = y;
                },
                Rotation::Rotate90 => {
                    sx = y;
                    sy = h - 1 - x;
                },
                Rotation::Rotate180 => {
                    sx = w - 1 - x;
                    sy = h - 1 - y;
                },
                Rotation::Rotate270 => {
                    sx = w - 1 - y;
                    sy = x;
                },
            }
            let p = img.pixel(sx, sy);
            let ghost prev = out@;
            push_pixel(&mut out, p);
            proof {
                lemma_pixel_base_bound(ow as int, oh as int, x as int, y as int);
                assert forall|xx: int, yy: int| 0 <= xx < ow && 0 <= yy < y implies #[trigger]
                    pixel_at_spec(out@, ow as int, xx, yy) == img.pixel_spec(
                    rotated_src_spec(rotation, w as int, h as int, xx, yy).0,
                    rotated_src_spec(rotation, w as int, h as int, xx, yy).1,
                ) by {
                    lemma_row_mono(ow as int, xx, yy, y as int, x as int);
                    assert(pixel_at_spec(out@, ow as int, xx, yy) == pixel_at_spec(
                        prev,
                        ow as int,
                        xx,
                        yy,
                    ));
                }
                assert forall|xx: int| 0 <= xx < x implies #[trigger] pixel_at_spec(
                    out@,
                    ow as int,
                    xx,
                    y as int,
                ) == img.pixel_spec(
                    rotated_src_spec(rotation, w as int, h as int, xx, y as int).0,
                    rotated_src_spec(rotation, w as int, h as int, xx, y as int).1,
                ) by {
                    assert(pixel_at_spec(out@, ow as int, xx, y as int) == pixel_at_spec(
                        prev,
                        ow as int,
                        xx,
                        y as int,
                    ));
                }
                assert(pixel_at_spec(out@, ow as int, x as int, y as int) == p);
            }
            x += 1;
        }
        proof {
            assert(((y as int) + 1) * (ow as int) == (y as int) * (ow as int) + (ow as int))
                by (nonlinear_arith);
        }
        y += 1;
    }
    proof {
        assert(4 * ((oh as int) * (ow as int)) == 4 * (ow as int) * (oh as int))
            by (nonlinear_arith);
    }
    RgbaImage { width: ow, height: oh, data: out }
}

} // verus!
