//! Content classification of a pixel buffer.
//!
//! The classifier samples the image on a coarse grid and compares the average
//! per-pixel variation along rows against the variation along columns; the
//! resulting category picks the PNG scanline filter.

use vstd::prelude::*;
use crate::pixel::{PixelBuffer, rgba_of, pixel_at, pixel_diff_spec, get_rgba_pixel, pixel_difference};

verus! {

/// Heuristic category of an image's spatial variation pattern.
#[derive(Clone, Copy, Debug, PartialEq, Eq, Structural)]
pub enum ContentCategory {
    /// Small or degenerate images, assumed icon-like.
    SimpleGraphics,
    /// Much less variation along rows than along columns.
    HorizontalGraphics,
    /// Much less variation along columns than along rows.
    VerticalPattern,
    /// Low variation in both directions.
    SmoothPhoto,
    /// High variation in both directions.
    ComplexGeometry,
    /// Very high variation in both directions.
    Mixed,
}

/// Variation summed along one sampled row: the difference of each sampled
/// pixel `(x, y)` against its left neighbour, for `x`, `x + sx`, ... below `w`.
pub open spec fn hrow(d: Seq<u8>, w: int, y: int, x: int, sx: int) -> int
    decreases w + sx - x,
{
    if x >= w || sx < 1 {
        0
    } else {
        pixel_diff_spec(pixel_at(d, w, x, y), pixel_at(d, w, x - 1, y)) + hrow(d, w, y, x + sx, sx)
    }
}

/// Number of sample positions `x`, `x + sx`, ... below `w`.
pub open spec fn row_cnt(w: int, x: int, sx: int) -> int
    decreases w + sx - x,
{
    if x >= w || sx < 1 {
        0
    } else {
        1 + row_cnt(w, x + sx, sx)
    }
}

/// Horizontal variation summed over the sampled rows `y`, `y + sy`, ...
/// below `h`; each row is sampled from `x = 1` with step `sx`.
pub open spec fn hsum(d: Seq<u8>, w: int, h: int, y: int, sy: int, sx: int) -> int
    decreases h + sy - y,
{
    if y >= h || sy < 1 {
        0
    } else {
        hrow(d, w, y, 1, sx) + hsum(d, w, h, y + sy, sy, sx)
    }
}

/// Number of horizontal samples over the same grid.
pub open spec fn hcnt(w: int, h: int, y: int, sy: int, sx: int) -> int
    decreases h + sy - y,
{
    if y >= h || sy < 1 {
        0
    } else {
        row_cnt(w, 1, sx) + hcnt(w, h, y + sy, sy, sx)
    }
}

/// Variation summed along one sampled row against the row above: the
/// difference of each sampled pixel `(x, y)` against `(x, y - 1)`, for
/// `x`, `x + sx`, ... below `w`.
pub open spec fn vrow(d: Seq<u8>, w: int, y: int, x: int, sx: int) -> int
    decreases w + sx - x,
{
    if x >= w || sx < 1 {
        0
    } else {
        pixel_diff_spec(pixel_at(d, w, x, y), pixel_at(d, w, x, y - 1)) + vrow(d, w, y, x + sx, sx)
    }
}

/// Vertical variation summed over the sampled rows `y`, `y + sy`, ... below
/// `h`; each row is sampled from `x = 0` with step `sx`.
pub open spec fn vsum(d: Seq<u8>, w: int, h: int, y: int, sy: int, sx: int) -> int
    decreases h + sy - y,
{
    if y >= h || sy < 1 {
        0
    } else {
        vrow(d, w, y, 0, sx) + vsum(d, w, h, y + sy, sy, sx)
    }
}

/// Number of vertical samples over the same grid.
pub open spec fn vcnt(w: int, h: int, y: int, sy: int, sx: int) -> int
    decreases h + sy - y,
{
    if y >= h || sy < 1 {
        0
    } else {
        row_cnt(w, 0, sx) + vcnt(w, h, y + sy, sy, sx)
    }
}

/// The target sample count along the smaller axis.
pub open spec fn sample_size_spec(w: int, h: int) -> int {
    let mn = if w < h {
        w
    } else {
        h
    };
    if mn / 4 > 10 {
        mn / 4
    } else {
        10
    }
}

/// The pixel step along an axis of the given length.
pub open spec fn step_spec(dim: int, ss: int) -> int {
    if dim / ss > 1 {
        dim / ss
    } else {
        1
    }
}

/// The classification rule on the two average variations.
pub open spec fn category_from(ah: int, av: int) -> ContentCategory {
    if ah < av / 2 {
        ContentCategory::HorizontalGraphics
    } else if av < ah / 2 {
        ContentCategory::VerticalPattern
    } else if ah < 10 && av < 10 {
        ContentCategory::SmoothPhoto
    } else if ah > 50 && av > 50 {
        ContentCategory::Mixed
    } else {
        ContentCategory::ComplexGeometry
    }
}

/// The category of a pixel buffer: images at most 64 pixels in both
/// directions — and degenerate geometries that yield no horizontal sample —
/// are `SimpleGraphics`; otherwise the averages of the sampled horizontal
/// and vertical variation (both divided by the horizontal sample count)
/// decide by `category_from`.
pub open spec fn classify_spec(b: &PixelBuffer) -> ContentCategory {
    let w = b.width as int;
    let h = b.height as int;
    if w <= 64 && h <= 64 {
        ContentCategory::SimpleGraphics
    } else {
        let d = rgba_of(b);
        let ss = sample_size_spec(w, h);
        let sy = step_spec(h, ss);
        let sx = step_spec(w, ss);
        let cnt = hcnt(w, h, 0, sy, sx);
        if cnt == 0 {
            ContentCategory::SimpleGraphics
        } else {
            category_from(hsum(d, w, h, 0, sy, sx) / cnt, vsum(d, w, h, 1, sy, sx) / cnt)
        }
    }
}

proof fn lemma_mul_mono(a: int, b: int, w: int)
    by (nonlinear_arith)
    requires
        a <= b,
        0 <= w,
    ensures
        a * w <= b * w,
{
}

proof fn lemma_row_cnt(w: int, x: int, sx: int)
    ensures
        0 <= row_cnt(w, x, sx),
        x < w && sx >= 1 ==> row_cnt(w, x, sx) <= w - x,
    decreases w + sx - x,
{
    if x < w && sx >= 1 {
        lemma_row_cnt(w, x + sx, sx);
    }
}

proof fn lemma_hrow(d: Seq<u8>, w: int, y: int, x: int, sx: int)
    ensures
        0 <= hrow(d, w, y, x, sx) <= 1020 * row_cnt(w, x, sx),
    decreases w + sx - x,
{
    if x < w && sx >= 1 {
        lemma_hrow(d, w, y, x + sx, sx);
    }
}

proof fn lemma_vrow(d: Seq<u8>, w: int, y: int, x: int, sx: int)
    ensures
        0 <= vrow(d, w, y, x, sx) <= 1020 * row_cnt(w, x, sx),
    decreases w + sx - x,
{
    if x < w && sx >= 1 {
        lemma_vrow(d, w, y, x + sx, sx);
    }
}

proof fn lemma_hcnt(w: int, h: int, y: int, sy: int, sx: int)
    requires
        0 <= y,
        0 <= w,
    ensures
        0 <= hcnt(w, h, y, sy, sx),
        hcnt(w, h, y, sy, sx) <= (if y < h {
            (h - y) * w
        } else {
            0
        }),
    decreases h + sy - y,
{
    if y < h && sy >= 1 {
        lemma_hcnt(w, h, y + sy, sy, sx);
        lemma_row_cnt(w, 1, sx);
        if y + sy < h {
            lemma_mul_mono(h - y - sy, h - y - 1, w);
            assert((h - y - 1) * w + w == (h - y) * w) by (nonlinear_arith);
        } else {
            assert(w <= (h - y) * w) by (nonlinear_arith)
                requires
                    0 <= w && y < h,
            ;
        }
    }
}

proof fn lemma_hsum(d: Seq<u8>, w: int, h: int, y: int, sy: int, sx: int)
    ensures
        0 <= hsum(d, w, h, y, sy, sx) <= 1020 * hcnt(w, h, y, sy, sx),
    decreases h + sy - y,
{
    if y < h && sy >= 1 {
        lemma_hsum(d, w, h, y + sy, sy, sx);
        lemma_hrow(d, w, y, 1, sx);
    }
}

proof fn lemma_vcnt(w: int, h: int, y: int, sy: int, sx: int)
    requires
        0 <= y,
        0 <= w,
    ensures
        0 <= vcnt(w, h, y, sy, sx),
        vcnt(w, h, y, sy, sx) <= (if y < h {
            (h - y) * w
        } else {
            0
        }),
    decreases h + sy - y,
{
    if y < h && sy >= 1 {
        lemma_vcnt(w, h, y + sy, sy, sx);
        lemma_row_cnt(w, 0, sx);
        if y + sy < h {
            lemma_mul_mono(h - y - sy, h - y - 1, w);
            assert((h - y - 1) * w + w == (h - y) * w) by (nonlinear_arith);
        } else {
            assert(w <= (h - y) * w) by (nonlinear_arith)
                requires
                    0 <= w && y < h,
            ;
        }
    }
}

proof fn lemma_vsum(d: Seq<u8>, w: int, h: int, y: int, sy: int, sx: int)
    ensures
        0 <= vsum(d, w, h, y, sy, sx) <= 1020 * vcnt(w, h, y, sy, sx),
    decreases h + sy - y,
{
    if y < h && sy >= 1 {
        lemma_vsum(d, w, h, y + sy, sy, sx);
        lemma_vrow(d, w, y, 0, sx);
    }
}

/// Classify the content of a pixel buffer. Deterministic and total over
/// every well-formed buffer whose RGBA expansion fits in memory: the result
/// is a function of the buffer's dimensions and pixel data alone.
pub fn classify(buf: &PixelBuffer) -> (r: ContentCategory)
    requires
        buf.wf(),
        4 * buf.width * buf.height <= usize::MAX,
    ensures
        r == classify_spec(buf),
{
    let w: u32 = buf.width;
    let h: u32 = buf.height;
    if w <= 64 && h <= 64 {
        return ContentCategory::SimpleGraphics;
    }
    let mn: u32 = if w < h {
        w
    } else {
        h
    };
    let ss: u32 = if mn / 4 > 10 {
        mn / 4
    } else {
        10
    };
    let sy: u64 = if (h / ss) > 1 {
        (h / ss) as u64
    } else {
        1
    };
    let sx: u64 = if (w / ss) > 1 {
        (w / ss) as u64
    } else {
        1
    };
    proof {
        assert(ss == sample_size_spec(w as int, h as int));
        assert(sy == step_spec(h as int, ss as int));
        assert(sx == step_spec(w as int, ss as int));
    }
    let d = buf.to_rgba_data();
    let ghost dv = rgba_of(buf);
    let ghost wh = (w as int) * (h as int);
    let ghost hs_total = hsum(dv, w as int, h as int, 0, sy as int, sx as int);
    let ghost hc_total = hcnt(w as int, h as int, 0, sy as int, sx as int);
    let ghost vs_total = vsum(dv, w as int, h as int, 1, sy as int, sx as int);
    proof {
        lemma_hsum(dv, w as int, h as int, 0, sy as int, sx as int);
        lemma_hcnt(w as int, h as int, 0, sy as int, sx as int);
        lemma_vsum(dv, w as int, h as int, 1, sy as int, sx as int);
        lemma_vcnt(w as int, h as int, 1, sy as int, sx as int);
        assert((h as int) * (w as int) == (w as int) * (h as int)) by (nonlinear_arith);
        assert(hc_total <= wh);
        if 1 < h as int {
            lemma_mul_mono(h as int - 1, h as int, w as int);
        }
        assert(vcnt(w as int, h as int, 1, sy as int, sx as int) <= wh);
        assert(vs_total <= 1020 * wh);
        assert(4 * (w as int) * (h as int) == 4 * ((w as int) * (h as int))) by (nonlinear_arith);
        assert(wh < 0x4000_0000_0000_0000);
    }
    // Horizontal pass: sum of left-neighbour differences over the sample grid.
    let mut hv: u128 = 0;
    let mut cnt: u64 = 0;
    let mut y: u64 = 0;
    while y < h as u64
        invariant
            buf.wf(),
            w == buf.width,
            h == buf.height,
            4 * buf.width * buf.height <= usize::MAX,
            wh == (w as int) * (h as int),
            wh < 0x4000_0000_0000_0000,
            dv == rgba_of(buf),
            d@ == dv,
            1 <= sy <= u32::MAX,
            1 <= sx <= u32::MAX,
            hs_total == hsum(dv, w as int, h as int, 0, sy as int, sx as int),
            hc_total == hcnt(w as int, h as int, 0, sy as int, sx as int),
            0 <= hs_total <= 1020 * hc_total,
            0 <= hc_total <= wh,
            hv + hsum(dv, w as int, h as int, y as int, sy as int, sx as int) == hs_total,
            cnt + hcnt(w as int, h as int, y as int, sy as int, sx as int) == hc_total,
        decreases h as int + sy as int - y as int,
    {
        proof {
            lemma_hsum(dv, w as int, h as int, y as int + sy as int, sy as int, sx as int);
            lemma_hcnt(w as int, h as int, y as int + sy as int, sy as int, sx as int);
        }
        let mut x: u64 = 1;
        while x < w as u64
            invariant
                buf.wf(),
                w == buf.width,
                h == buf.height,
                4 * buf.width * buf.height <= usize::MAX,
                wh == (w as int) * (h as int),
                wh < 0x4000_0000_0000_0000,
                dv == rgba_of(buf),
                d@ == dv,
                1 <= sy <= u32::MAX,
                1 <= sx <= u32::MAX,
                1 <= x,
                y < h as u64,
                0 <= hs_total <= 1020 * hc_total,
                0 <= hc_total <= wh,
                hv + hrow(dv, w as int, y as int, x as int, sx as int) + hsum(
                    dv,
                    w as int,
                    h as int,
                    y as int + sy as int,
                    sy as int,
                    sx as int,
                ) == hs_total,
                cnt + row_cnt(w as int, x as int, sx as int) + hcnt(
                    w as int,
                    h as int,
                    y as int + sy as int,
                    sy as int,
                    sx as int,
                ) == hc_total,
            decreases w as int + sx as int - x as int,
        {
            proof {
                lemma_hrow(dv, w as int, y as int, x as int + sx as int, sx as int);
                lemma_row_cnt(w as int, x as int + sx as int, sx as int);
                lemma_hsum(dv, w as int, h as int, y as int + sy as int, sy as int, sx as int);
                lemma_hcnt(w as int, h as int, y as int + sy as int, sy as int, sx as int);
            }
            let cur = get_rgba_pixel(&d, w, h, x as u32, y as u32);
            let left = get_rgba_pixel(&d, w, h, (x - 1) as u32, y as u32);
            hv = hv + pixel_difference(&cur, &left) as u128;
            cnt = cnt + 1;
            x = x + sx;
        }
        y = y + sy;
    }
    // Vertical pass: sum of upper-neighbour differences; the horizontal
    // sample count is reused as the divisor for both averages.
    let mut vv: u128 = 0;
    let mut y2: u64 = 1;
    while y2 < h as u64
        invariant
            buf.wf(),
            w == buf.width,
            h == buf.height,
            4 * buf.width * buf.height <= usize::MAX,
            wh == (w as int) * (h as int),
            wh < 0x4000_0000_0000_0000,
            dv == rgba_of(buf),
            d@ == dv,
            1 <= sy <= u32::MAX,
            1 <= sx <= u32::MAX,
            1 <= y2,
            vs_total == vsum(dv, w as int, h as int, 1, sy as int, sx as int),
            0 <= vs_total <= 1020 * wh,
            vv + vsum(dv, w as int, h as int, y2 as int, sy as int, sx as int) == vs_total,
        decreases h as int + sy as int - y2 as int,
    {
        proof {
            lemma_vsum(dv, w as int, h as int, y2 as int + sy as int, sy as int, sx as int);
        }
        let mut x: u64 = 0;
        while x < w as u64
            invariant
                buf.wf(),
                w == buf.width,
                h == buf.height,
                4 * buf.width * buf.height <= usize::MAX,
                wh == (w as int) * (h as int),
                wh < 0x4000_0000_0000_0000,
                dv == rgba_of(buf),
                d@ == dv,
                1 <= sy <= u32::MAX,
                1 <= sx <= u32::MAX,
                1 <= y2,
                y2 < h as u64,
                0 <= vs_total <= 1020 * wh,
                vv + vrow(dv, w as int, y2 as int, x as int, sx as int) + vsum(
                    dv,
                    w as int,
                    h as int,
                    y2 as int + sy as int,
                    sy as int,
                    sx as int,
                ) == vs_total,
            decreases w as int + sx as int - x as int,
        {
            proof {
                lemma_vrow(dv, w as int, y2 as int, x as int + sx as int, sx as int);
                lemma_row_cnt(w as int, x as int + sx as int, sx as int);
                lemma_vsum(dv, w as int, h as int, y2 as int + sy as int, sy as int, sx as int);
            }
            let cur = get_rgba_pixel(&d, w, h, x as u32, y2 as u32);
            let up = get_rgba_pixel(&d, w, h, x as u32, (y2 - 1) as u32);
            vv = vv + pixel_difference(&cur, &up) as u128;
            x = x + sx;
        }
        y2 = y2 + sy;
    }
    if cnt == 0 {
        return ContentCategory::SimpleGraphics;
    }
    let ah: u128 = hv / (cnt as u128);
    let av: u128 = vv / (cnt as u128);
    if ah < av / 2 {
        ContentCategory::HorizontalGraphics
    } else if av < ah / 2 {
        ContentCategory::VerticalPattern
    } else if ah < 10 && av < 10 {
        ContentCategory::SmoothPhoto
    } else if ah > 50 && av > 50 {
        ContentCategory::Mixed
    } else {
        ContentCategory::ComplexGeometry
    }
}

/// Classification is deterministic: it depends only on the buffer's
/// dimensions, layout and pixel data, so two buffers holding the same image
/// classify alike — in particular, classifying the same buffer twice yields
/// the same category.
pub proof fn lemma_classify_deterministic(b1: &PixelBuffer, b2: &PixelBuffer)
    requires
        b1.width == b2.width,
        b1.height == b2.height,
        b1.layout == b2.layout,
        b1.data@ == b2.data@,
    ensures
        classify_spec(b1) == classify_spec(b2),
{
    assert(rgba_of(b1) =~= rgba_of(b2));
}

/// An image at most 64 pixels wide and 64 pixels tall is always
/// `SimpleGraphics`, whatever its content.
pub proof fn lemma_small_image_simple(b: &PixelBuffer)
    requires
        b.width <= 64,
        b.height <= 64,
    ensures
        classify_spec(b) == ContentCategory::SimpleGraphics,
{
}

} // verus!
