//! The in-memory pixel buffer model.
//!
//! A decoded image is a flat byte vector in one of four native channel
//! layouts, or `Other` for any source layout outside those four; an `Other`
//! buffer always stores its samples expanded to RGBA. Conversions to RGBA
//! and RGB are ordinary verified code; only decoding and encoding call the
//! outside codecs.

use vstd::prelude::*;

verus! {

/// Channel layout of a pixel buffer.
#[derive(Clone, Copy, Debug, PartialEq, Eq, Structural)]
pub enum ColorLayout {
    /// One grayscale channel per pixel.
    L8,
    /// Grayscale plus alpha.
    La8,
    /// Red, green, blue.
    Rgb8,
    /// Red, green, blue, alpha.
    Rgba8,
    /// Any other source layout; the stored samples are expanded to RGBA.
    Other,
}

/// Bytes stored per pixel for a layout.
pub open spec fn channels(l: ColorLayout) -> int {
    match l {
        ColorLayout::L8 => 1,
        ColorLayout::La8 => 2,
        ColorLayout::Rgb8 => 3,
        ColorLayout::Rgba8 => 4,
        ColorLayout::Other => 4,
    }
}

/// An owned two-dimensional grid of pixels with a layout tag.
pub struct PixelBuffer {
    pub width: u32,
    pub height: u32,
    pub layout: ColorLayout,
    pub data: Vec<u8>,
}

impl PixelBuffer {
    /// The stored bytes cover exactly `width * height` pixels in the tagged
    /// layout.
    pub open spec fn wf(&self) -> bool {
        self.data@.len() == channels(self.layout) * self.width * self.height
    }
}

/// Channel `c` (in RGBA order; 3 is alpha) of pixel `p` of a buffer with
/// layout `l` and raw bytes `d`. Missing color channels replicate the
/// grayscale sample; a missing alpha channel reads as fully opaque.
pub open spec fn chan_byte(l: ColorLayout, d: Seq<u8>, p: int, c: int) -> u8 {
    match l {
        ColorLayout::L8 => if c == 3 {
            255
        } else {
            d[p]
        },
        ColorLayout::La8 => if c == 3 {
            d[2 * p + 1]
        } else {
            d[2 * p]
        },
        ColorLayout::Rgb8 => if c == 3 {
            255
        } else {
            d[3 * p + c]
        },
        ColorLayout::Rgba8 => d[4 * p + c],
        ColorLayout::Other => d[4 * p + c],
    }
}

/// The buffer's pixels expanded to RGBA, four bytes per pixel.
pub open spec fn rgba_of(b: &PixelBuffer) -> Seq<u8> {
    Seq::new((4 * b.width * b.height) as nat, |i: int| chan_byte(b.layout, b.data@, i / 4, i % 4))
}

/// The buffer's pixels reduced to RGB, three bytes per pixel: any alpha
/// channel is dropped.
pub open spec fn rgb_of(b: &PixelBuffer) -> Seq<u8> {
    Seq::new((3 * b.width * b.height) as nat, |i: int| chan_byte(b.layout, b.data@, i / 3, i % 3))
}

proof fn lemma_assoc(a: int, b: int, c: int)
    by (nonlinear_arith)
    ensures
        a * b * c == a * (b * c),
{
}

proof fn lemma_scale(k: int, p: int, n: int)
    by (nonlinear_arith)
    requires
        0 <= p < n,
        1 <= k,
    ensures
        k * p + (k - 1) < k * n,
{
}

proof fn lemma_div_mod(p: int, c: int, k: int)
    by (nonlinear_arith)
    requires
        0 <= c < k,
        0 <= p,
        1 <= k,
    ensures
        (k * p + c) / k == p,
        (k * p + c) % k == c,
{
}

impl PixelBuffer {
    /// Read one channel of one pixel, in RGBA order.
    fn chan_at(&self, p: usize, c: usize) -> (r: u8)
        requires
            self.wf(),
            p < self.width * self.height,
            c < 4,
        ensures
            r == chan_byte(self.layout, self.data@, p as int, c as int),
    {
        let _len = self.data.len();  // bounds data@.len() by usize::MAX
        proof {
            lemma_assoc(channels(self.layout), self.width as int, self.height as int);
            lemma_scale(channels(self.layout), p as int, (self.width * self.height) as int);
        }
        match self.layout {
            ColorLayout::L8 => if c == 3 {
                255
            } else {
                self.data[p]
            },
            ColorLayout::La8 => if c == 3 {
                self.data[2 * p + 1]
            } else {
                self.data[2 * p]
            },
            ColorLayout::Rgb8 => if c == 3 {
                255
            } else {
                self.data[3 * p + c]
            },
            ColorLayout::Rgba8 => self.data[4 * p + c],
            ColorLayout::Other => self.data[4 * p + c],
        }
    }

    /// Expand the buffer to RGBA bytes.
    pub fn to_rgba_data(&self) -> (r: Vec<u8>)
        requires
            self.wf(),
            4 * self.width * self.height <= usize::MAX,
        ensures
            r@ == rgba_of(self),
    {
        proof {
            lemma_assoc(4, self.width as int, self.height as int);
        }
        let n: usize = (self.width as usize) * (self.height as usize);
        let mut out: Vec<u8> = Vec::new();
        let mut p: usize = 0;
        while p < n
            invariant
                self.wf(),
                n == self.width * self.height,
                4 * n <= usize::MAX,
                p <= n,
                out@ == rgba_of(self).take(4 * p),
            decreases n - p,
        {
            proof {
                lemma_assoc(4, self.width as int, self.height as int);
            }
            out.push(self.chan_at(p, 0));
            out.push(self.chan_at(p, 1));
            out.push(self.chan_at(p, 2));
            out.push(self.chan_at(p, 3));
            proof {
                assert forall|c: int| 0 <= c < 4 implies rgba_of(self)[4 * p + c] == chan_byte(
                    self.layout,
                    self.data@,
                    p as int,
                    c,
                ) by {
                    lemma_div_mod(p as int, c, 4);
                }
                assert(out@ =~= rgba_of(self).take(4 * (p + 1)));
            }
            p += 1;
        }
        proof {
            assert(rgba_of(self).take(4 * n as int) =~= rgba_of(self));
        }
        out
    }

    /// Reduce the buffer to RGB bytes, dropping any alpha channel.
    pub fn to_rgb_data(&self) -> (r: Vec<u8>)
        requires
            self.wf(),
            4 * self.width * self.height <= usize::MAX,
        ensures
            r@ == rgb_of(self),
    {
        proof {
            lemma_assoc(3, self.width as int, self.height as int);
            lemma_assoc(4, self.width as int, self.height as int);
        }
        let n: usize = (self.width as usize) * (self.height as usize);
        let mut out: Vec<u8> = Vec::new();
        let mut p: usize = 0;
        while p < n
            invariant
                self.wf(),
                n == self.width * self.height,
                4 * n <= usize::MAX,
                p <= n,
                out@ == rgb_of(self).take(3 * p),
            decreases n - p,
        {
            proof {
                lemma_assoc(3, self.width as int, self.height as int);
            }
            out.push(self.chan_at(p, 0));
            out.push(self.chan_at(p, 1));
            out.push(self.chan_at(p, 2));
            proof {
                assert forall|c: int| 0 <= c < 3 implies rgb_of(self)[3 * p + c] == chan_byte(
                    self.layout,
                    self.data@,
                    p as int,
                    c,
                ) by {
                    lemma_div_mod(p as int, c, 3);
                }
                assert(out@ =~= rgb_of(self).take(3 * (p + 1)));
            }
            p += 1;
        }
        proof {
            assert(rgb_of(self).take(3 * n as int) =~= rgb_of(self));
        }
        out
    }
}

/// One RGBA pixel.
#[derive(Clone, Copy, Debug, PartialEq, Eq, Structural)]
pub struct Pixel {
    pub r: u8,
    pub g: u8,
    pub b: u8,
    pub a: u8,
}

/// Pixel `(x, y)` of RGBA bytes `d` laid out in rows of width `w`.
pub open spec fn pixel_at(d: Seq<u8>, w: int, x: int, y: int) -> Pixel {
    Pixel {
        r: d[4 * (y * w + x)],
        g: d[4 * (y * w + x) + 1],
        b: d[4 * (y * w + x) + 2],
        a: d[4 * (y * w + x) + 3],
    }
}

proof fn lemma_pixel_in_bounds(w: int, h: int, x: int, y: int)
    by (nonlinear_arith)
    requires
        0 <= x < w,
        0 <= y < h,
    ensures
        0 <= y * w + x < w * h,
{
}

/// Read pixel `(x, y)` from RGBA bytes laid out in rows of width `w`.
pub fn get_rgba_pixel(d: &Vec<u8>, w: u32, h: u32, x: u32, y: u32) -> (r: Pixel)
    requires
        d@.len() == 4 * w * h,
        x < w,
        y < h,
    ensures
        r == pixel_at(d@, w as int, x as int, y as int),
{
    let _dlen = d.len();  // bounds d@.len() by usize::MAX
    proof {
        lemma_pixel_in_bounds(w as int, h as int, x as int, y as int);
        lemma_assoc(4, w as int, h as int);
        lemma_scale(4, (y * w + x) as int, (w * h) as int);
    }
    let base: usize = 4 * ((y as usize) * (w as usize) + (x as usize));
    Pixel { r: d[base], g: d[base + 1], b: d[base + 2], a: d[base + 3] }
}

/// Sum of the absolute per-channel differences of two pixels.
pub open spec fn abs_diff(x: u8, y: u8) -> int {
    if x >= y {
        x - y
    } else {
        y - x
    }
}

/// Sum of absolute RGBA channel differences; at most `4 * 255`.
pub open spec fn pixel_diff_spec(p1: Pixel, p2: Pixel) -> int {
    abs_diff(p1.r, p2.r) + abs_diff(p1.g, p2.g) + abs_diff(p1.b, p2.b) + abs_diff(p1.a, p2.a)
}

fn abs_diff_exec(x: u8, y: u8) -> (r: u32)
    ensures
        r == abs_diff(x, y),
{
    if x >= y {
        (x - y) as u32
    } else {
        (y - x) as u32
    }
}

/// Difference metric between two pixels: the sum of the absolute
/// differences of the four channels.
pub fn pixel_difference(p1: &Pixel, p2: &Pixel) -> (r: u32)
    ensures
        r == pixel_diff_spec(*p1, *p2),
{
    abs_diff_exec(p1.r, p2.r) + abs_diff_exec(p1.g, p2.g) + abs_diff_exec(p1.b, p2.b)
        + abs_diff_exec(p1.a, p2.a)
}

} // verus!
