//! Target formats and the encoding policy.
//!
//! `decide` maps a target format, the quality knob, the content category and
//! the source color layout to concrete encoder options; it is total over the
//! parsed targets, so an unsupported format is rejected once, at parsing.

use vstd::prelude::*;
use crate::classify::ContentCategory;
use crate::pixel::ColorLayout;

verus! {

/// A supported conversion target.
#[derive(Clone, Copy, Debug, PartialEq, Eq, Structural)]
pub enum TargetFormat {
    Png,
    Jpeg,
    Gif,
    Webp,
    Ico,
}

/// The target named by `s`, compared case-insensitively; `jpg` and `jpeg`
/// name the same target. Any other string is unsupported.
pub open spec fn parse_target_format_spec(s: Seq<char>) -> Option<TargetFormat> {
    let l = crate::utils::lower(s);
    if l == "png"@ {
        Some(TargetFormat::Png)
    } else if l == "jpeg"@ || l == "jpg"@ {
        Some(TargetFormat::Jpeg)
    } else if l == "gif"@ {
        Some(TargetFormat::Gif)
    } else if l == "webp"@ {
        Some(TargetFormat::Webp)
    } else if l == "ico"@ {
        Some(TargetFormat::Ico)
    } else {
        None
    }
}

/// Parse a target format name, case-insensitively.
pub fn parse_target_format(s: &str) -> (r: Option<TargetFormat>)
    ensures
        r == parse_target_format_spec(s@),
{
    if crate::utils::eq_fold(s, "png") {
        Some(TargetFormat::Png)
    } else if crate::utils::eq_fold(s, "jpeg") || crate::utils::eq_fold(s, "jpg") {
        Some(TargetFormat::Jpeg)
    } else if crate::utils::eq_fold(s, "gif") {
        Some(TargetFormat::Gif)
    } else if crate::utils::eq_fold(s, "webp") {
        Some(TargetFormat::Webp)
    } else if crate::utils::eq_fold(s, "ico") {
        Some(TargetFormat::Ico)
    } else {
        None
    }
}

/// Target-format matching is ASCII-case-insensitive: two spellings that fold
/// to the same letters name the same target, or both name none.
pub proof fn lemma_parse_target_format_case_insensitive(s: Seq<char>, t: Seq<char>)
    requires
        crate::utils::lower(s) == crate::utils::lower(t),
    ensures
        parse_target_format_spec(s) == parse_target_format_spec(t),
{
}

/// Check a target format name against the supported set.
pub fn validate_target_format(format: &str) -> (r: Result<(), crate::error::ConversionError>)
    ensures
        r is Ok <==> parse_target_format_spec(format@) is Some,
        r is Err ==> r == Err::<(), _>(crate::error::ConversionError::UnsupportedTargetFormat),
{
    match parse_target_format(format) {
        Some(_) => Ok(()),
        None => Err(crate::error::ConversionError::UnsupportedTargetFormat),
    }
}

/// DEFLATE effort bucket for PNG encoding.
#[derive(Clone, Copy, Debug, PartialEq, Eq, Structural)]
pub enum CompressionLevel {
    Fast,
    Default,
    Best,
}

/// PNG scanline filter strategy.
#[derive(Clone, Copy, Debug, PartialEq, Eq, Structural)]
pub enum FilterStrategy {
    NoFilter,
    Sub,
    Up,
    Average,
    Paeth,
    Adaptive,
}

/// The PNG compression bucket for a quality: 0..=20 is `Fast`, 21..=60 is
/// `Default`, and everything above 60 is `Best` — a saturating ceiling, so
/// qualities above 80 add nothing.
pub open spec fn compression_for_quality(q: int) -> CompressionLevel {
    if q <= 20 {
        CompressionLevel::Fast
    } else if q <= 60 {
        CompressionLevel::Default
    } else {
        CompressionLevel::Best
    }
}

/// Bucket a quality into a PNG compression level.
pub fn get_png_compression_level(quality: u8) -> (r: CompressionLevel)
    ensures
        r == compression_for_quality(quality as int),
{
    if quality <= 20 {
        CompressionLevel::Fast
    } else if quality <= 60 {
        CompressionLevel::Default
    } else {
        CompressionLevel::Best
    }
}

/// The PNG filter suited to a content category.
pub open spec fn filter_for_category(c: ContentCategory) -> FilterStrategy {
    match c {
        ContentCategory::SimpleGraphics => FilterStrategy::NoFilter,
        ContentCategory::HorizontalGraphics => FilterStrategy::Sub,
        ContentCategory::VerticalPattern => FilterStrategy::Up,
        ContentCategory::SmoothPhoto => FilterStrategy::Average,
        ContentCategory::ComplexGeometry => FilterStrategy::Paeth,
        ContentCategory::Mixed => FilterStrategy::Adaptive,
    }
}

/// Pick the PNG filter for a content category.
pub fn get_optimal_filter_type(category: ContentCategory) -> (r: FilterStrategy)
    ensures
        r == filter_for_category(category),
{
    match category {
        ContentCategory::SimpleGraphics => FilterStrategy::NoFilter,
        ContentCategory::HorizontalGraphics => FilterStrategy::Sub,
        ContentCategory::VerticalPattern => FilterStrategy::Up,
        ContentCategory::SmoothPhoto => FilterStrategy::Average,
        ContentCategory::ComplexGeometry => FilterStrategy::Paeth,
        ContentCategory::Mixed => FilterStrategy::Adaptive,
    }
}

/// A source layout kept for encoding: the four 8-bit layouts are preserved,
/// anything else is normalized to RGBA.
pub open spec fn preserved_layout(l: ColorLayout) -> ColorLayout {
    match l {
        ColorLayout::Other => ColorLayout::Rgba8,
        _ => l,
    }
}

/// Concrete encoder options: compression and filter drive PNG encoding, the
/// quality passes through to the lossy encoders, the layout names the
/// channel layout handed to the encoder, and the output dimensions differ
/// from the source only for oversized ICO targets.
#[derive(Clone, Copy, Debug, PartialEq, Eq, Structural)]
pub struct EncodeOptions {
    pub quality: u8,
    pub compression: CompressionLevel,
    pub filter: FilterStrategy,
    pub layout: ColorLayout,
    pub out_width: u32,
    pub out_height: u32,
}

/// The encoding policy. JPEG always drops alpha by encoding RGB; PNG keeps
/// the source layout (normalizing unknown layouts to RGBA) and picks
/// compression from the quality and the filter from the category; WebP and
/// GIF encode RGBA; ICO encodes RGBA and resizes any source wider or taller
/// than 256 down to 256 by 256.
pub open spec fn decide_spec(
    t: TargetFormat,
    q: u8,
    c: ContentCategory,
    l: ColorLayout,
    w: u32,
    h: u32,
) -> EncodeOptions {
    let base = EncodeOptions {
        quality: q,
        compression: compression_for_quality(q as int),
        filter: filter_for_category(c),
        layout: ColorLayout::Rgba8,
        out_width: w,
        out_height: h,
    };
    match t {
        TargetFormat::Jpeg => EncodeOptions { layout: ColorLayout::Rgb8, ..base },
        TargetFormat::Png => EncodeOptions { layout: preserved_layout(l), ..base },
        TargetFormat::Webp => base,
        TargetFormat::Gif => base,
        TargetFormat::Ico => if w > 256 || h > 256 {
            EncodeOptions { out_width: 256, out_height: 256, ..base }
        } else {
            base
        },
    }
}

/// Map target, quality, category and source layout to encoder options.
pub fn decide(
    target: TargetFormat,
    quality: u8,
    category: ContentCategory,
    layout: ColorLayout,
    width: u32,
    height: u32,
) -> (r: EncodeOptions)
    ensures
        r == decide_spec(target, quality, category, layout, width, height),
{
    let compression = get_png_compression_level(quality);
    let filter = get_optimal_filter_type(category);
    let out_layout = match target {
        TargetFormat::Jpeg => ColorLayout::Rgb8,
        TargetFormat::Png => match layout {
            ColorLayout::Other => ColorLayout::Rgba8,
            _ => layout,
        },
        _ => ColorLayout::Rgba8,
    };
    let resize = match target {
        TargetFormat::Ico => width > 256 || height > 256,
        _ => false,
    };
    EncodeOptions {
        quality,
        compression,
        filter,
        layout: out_layout,
        out_width: if resize {
            256
        } else {
            width
        },
        out_height: if resize {
            256
        } else {
            height
        },
    }
}

/// A JPEG target always strips alpha: the policy hands the encoder an RGB
/// layout whatever the source layout, category or quality.
pub proof fn lemma_jpeg_strips_alpha(q: u8, c: ContentCategory, l: ColorLayout, w: u32, h: u32)
    ensures
        decide_spec(TargetFormat::Jpeg, q, c, l, w, h).layout == ColorLayout::Rgb8,
{
}

/// An ICO target resizes exactly the sources that exceed 256 pixels in
/// either direction, always down to 256 by 256; smaller sources keep their
/// dimensions.
pub proof fn lemma_ico_resize_rule(q: u8, c: ContentCategory, l: ColorLayout, w: u32, h: u32)
    ensures
        (w > 256 || h > 256) ==> decide_spec(TargetFormat::Ico, q, c, l, w, h).out_width == 256
            && decide_spec(TargetFormat::Ico, q, c, l, w, h).out_height == 256,
        (w <= 256 && h <= 256) ==> decide_spec(TargetFormat::Ico, q, c, l, w, h).out_width == w
            && decide_spec(TargetFormat::Ico, q, c, l, w, h).out_height == h,
{
}

} // verus!
