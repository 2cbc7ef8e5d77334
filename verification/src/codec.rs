//! Trusted boundary to the outside codecs.
//!
//! Every executable function here is an `external_body` wrapper around the
//! `image` or `webp` crate; Verus believes the stated contracts and the rest
//! of the library is verified against them. Each codec call is deterministic
//! — a function of its arguments alone — so its result carries a name (an
//! uninterpreted spec function), and every wrapper's contract equates the
//! call with its name. The wrappers only convert between the library's plain
//! values and the codec types, and each call that can fail is surfaced as
//! `None`.

use vstd::prelude::*;
use crate::pixel::{PixelBuffer, ColorLayout, channels};
use crate::policy::{CompressionLevel, FilterStrategy};

verus! {

/// The pixel buffer that decoding the given bytes yields, if any. Decoding
/// in the `image` crate is a function of the bytes alone.
pub uninterp spec fn decode_of(bytes: Seq<u8>) -> Option<PixelBuffer>;

/// The PNG stream that encoding the given samples yields, if any.
pub uninterp spec fn png_encoded_of(
    data: Seq<u8>,
    width: u32,
    height: u32,
    layout: ColorLayout,
    compression: CompressionLevel,
    filter: FilterStrategy,
) -> Option<Seq<u8>>;

/// The JPEG stream that encoding the given RGB samples yields, if any.
pub uninterp spec fn jpeg_encoded_of(data: Seq<u8>, width: u32, height: u32, quality: u8) -> Option<
    Seq<u8>,
>;

/// The GIF stream that encoding the given RGBA samples yields, if any.
/// GIF encoding takes no quality parameter.
pub uninterp spec fn gif_encoded_of(data: Seq<u8>, width: u32, height: u32) -> Option<Seq<u8>>;

/// The ICO stream that encoding the given RGBA samples yields, if any.
pub uninterp spec fn ico_encoded_of(data: Seq<u8>, width: u32, height: u32) -> Option<Seq<u8>>;

/// The WebP stream that lossy encoding the given RGBA samples yields, if any.
pub uninterp spec fn webp_encoded_of(data: Seq<u8>, width: u32, height: u32, quality: u8) -> Option<
    Seq<u8>,
>;

/// The RGBA samples that Lanczos3 resampling of the given RGBA samples to
/// the new dimensions yields.
pub uninterp spec fn resized_of(
    data: Seq<u8>,
    width: u32,
    height: u32,
    new_width: u32,
    new_height: u32,
) -> Seq<u8>;

/// Whether an encoder's returned bytes are exactly the named stream: both
/// absent, or both present with equal content.
pub open spec fn opt_bytes_match(r: Option<Vec<u8>>, s: Option<Seq<u8>>) -> bool {
    match (r, s) {
        (Some(v), Some(b)) => v@ == b,
        (None, None) => true,
        _ => false,
    }
}

/// DEFLATE level selector of the PNG encoder in the `image` crate.
#[verifier::external_type_specification]
#[verifier::external_body]
pub struct ExPngCompressionType(image::codecs::png::CompressionType);

/// Scanline filter selector of the PNG encoder in the `image` crate.
#[verifier::external_type_specification]
#[verifier::external_body]
pub struct ExPngFilterType(image::codecs::png::FilterType);

/// Relies on the `CompressionType` enum of `image`'s PNG codec: maps the
/// policy's level to the encoder's, `Fast`/`Default`/`Best` each to its
/// namesake.
#[verifier::external_body]
fn png_compression_of(c: CompressionLevel) -> image::codecs::png::CompressionType {
    match c {
        CompressionLevel::Fast => image::codecs::png::CompressionType::Fast,
        CompressionLevel::Default => image::codecs::png::CompressionType::Default,
        CompressionLevel::Best => image::codecs::png::CompressionType::Best,
    }
}

/// Relies on the `FilterType` enum of `image`'s PNG codec: maps the policy's
/// filter strategy to the encoder's, each variant to its namesake
/// (`Average` to `Avg`).
#[verifier::external_body]
fn png_filter_of(f: FilterStrategy) -> image::codecs::png::FilterType {
    match f {
        FilterStrategy::NoFilter => image::codecs::png::FilterType::NoFilter,
        FilterStrategy::Sub => image::codecs::png::FilterType::Sub,
        FilterStrategy::Up => image::codecs::png::FilterType::Up,
        FilterStrategy::Average => image::codecs::png::FilterType::Avg,
        FilterStrategy::Paeth => image::codecs::png::FilterType::Paeth,
        FilterStrategy::Adaptive => image::codecs::png::FilterType::Adaptive,
    }
}

/// Relies on `image::load_from_memory` and the `DynamicImage` conversions:
/// decoding is a function of the bytes alone, a decode failure returns an
/// error, and an `ImageBuffer`'s raw vector holds exactly
/// `channels * width * height` bytes. Sources in a layout other than the
/// four 8-bit ones are expanded to RGBA and tagged `Other`.
#[verifier::external_body]
pub(crate) fn decode_image(bytes: &Vec<u8>) -> (r: Option<PixelBuffer>)
    ensures
        r == decode_of(bytes@),
        r matches Some(b) ==> b.wf(),
{
    let img = match image::load_from_memory(bytes.as_slice()) {
        Ok(i) => i,
        Err(_) => return None,
    };
    let (width, height) = (img.width(), img.height());
    let (layout, data) = match img.color() {
        image::ColorType::L8 => (ColorLayout::L8, img.into_luma8().into_raw()),
        image::ColorType::La8 => (ColorLayout::La8, img.into_luma_alpha8().into_raw()),
        image::ColorType::Rgb8 => (ColorLayout::Rgb8, img.into_rgb8().into_raw()),
        image::ColorType::Rgba8 => (ColorLayout::Rgba8, img.into_rgba8().into_raw()),
        _ => (ColorLayout::Other, img.into_rgba8().into_raw()),
    };
    Some(PixelBuffer { width, height, layout, data })
}

/// Relies on `image`'s `PngEncoder::new_with_quality` and `write_image`: the
/// encode is a function of its arguments alone; it panics only on a buffer
/// whose length differs from `channels * width * height`, fails on anything
/// else it cannot encode, and on success has written a non-empty PNG stream.
/// An `Other` buffer stores RGBA bytes and is encoded as RGBA.
#[verifier::external_body]
pub(crate) fn encode_png_bytes(
    data: &Vec<u8>,
    width: u32,
    height: u32,
    layout: ColorLayout,
    compression: CompressionLevel,
    filter: FilterStrategy,
) -> (r: Option<Vec<u8>>)
    requires
        data@.len() == channels(layout) * width * height,
    ensures
        opt_bytes_match(r, png_encoded_of(data@, width, height, layout, compression, filter)),
        r matches Some(v) ==> v@.len() > 0,
{
    let comp = png_compression_of(compression);
    let filt = png_filter_of(filter);
    let color = match layout {
        ColorLayout::L8 => image::ExtendedColorType::L8,
        ColorLayout::La8 => image::ExtendedColorType::La8,
        ColorLayout::Rgb8 => image::ExtendedColorType::Rgb8,
        ColorLayout::Rgba8 => image::ExtendedColorType::Rgba8,
        ColorLayout::Other => image::ExtendedColorType::Rgba8,
    };
    let mut out: Vec<u8> = Vec::new();
    let enc = image::codecs::png::PngEncoder::new_with_quality(&mut out, comp, filt);
    image::ImageEncoder::write_image(enc, data.as_slice(), width, height, color).ok().map(|_| out)
}

/// Relies on `image`'s `JpegEncoder::new_with_quality` and `encode`: the
/// encode is a function of its arguments alone; it panics only on a buffer
/// whose length differs from `3 * width * height`, fails on dimensions
/// outside 1..=65535, and on success has written a non-empty JPEG stream.
#[verifier::external_body]
pub(crate) fn encode_jpeg_bytes(data: &Vec<u8>, width: u32, height: u32, quality: u8) -> (r: Option<
    Vec<u8>,
>)
    requires
        data@.len() == 3 * width * height,
    ensures
        opt_bytes_match(r, jpeg_encoded_of(data@, width, height, quality)),
        r matches Some(v) ==> v@.len() > 0,
{
    let mut out: Vec<u8> = Vec::new();
    let mut enc = image::codecs::jpeg::JpegEncoder::new_with_quality(&mut out, quality);
    enc.encode(data.as_slice(), width, height, image::ExtendedColorType::Rgb8).ok().map(|_| out)
}

/// Relies on `image`'s `GifEncoder::encode` with RGBA input: the encode is a
/// function of the samples and dimensions alone (no quality parameter); it
/// panics only on a buffer whose length differs from `4 * width * height`,
/// fails on dimensions above 65535, and on success has written a non-empty
/// GIF stream.
#[verifier::external_body]
pub(crate) fn encode_gif_bytes(data: &Vec<u8>, width: u32, height: u32) -> (r: Option<Vec<u8>>)
    requires
        data@.len() == 4 * width * height,
    ensures
        opt_bytes_match(r, gif_encoded_of(data@, width, height)),
        r matches Some(v) ==> v@.len() > 0,
{
    let mut out: Vec<u8> = Vec::new();
    let mut enc = image::codecs::gif::GifEncoder::new(&mut out);
    let res = enc.encode(data.as_slice(), width, height, image::ExtendedColorType::Rgba8);
    drop(enc);
    res.ok().map(|_| out)
}

/// Relies on `image`'s `IcoEncoder::write_image` with RGBA input: the encode
/// is a function of its arguments alone; it panics only on a buffer whose
/// length differs from `4 * width * height`, fails on dimensions outside
/// 1..=256, and on success has written a non-empty ICO stream.
#[verifier::external_body]
pub(crate) fn encode_ico_bytes(data: &Vec<u8>, width: u32, height: u32) -> (r: Option<Vec<u8>>)
    requires
        data@.len() == 4 * width * height,
    ensures
        opt_bytes_match(r, ico_encoded_of(data@, width, height)),
        r matches Some(v) ==> v@.len() > 0,
{
    let mut out: Vec<u8> = Vec::new();
    let enc = image::codecs::ico::IcoEncoder::new(std::io::Cursor::new(&mut out));
    image::ImageEncoder::write_image(
        enc,
        data.as_slice(),
        width,
        height,
        image::ExtendedColorType::Rgba8,
    ).ok().map(|_| out)
}

/// Relies on `webp::Encoder::from_rgba` and `encode_simple`: the encode is a
/// function of the samples, dimensions and quality alone; `from_rgba` panics
/// only on a buffer shorter than `4 * width * height`, the picture setup
/// computes a four-byte stride in a 32-bit integer — hence the dimension
/// bound, which is also the WebP format's own limit — and `encode_simple`
/// reports every encoding failure as an error. A successful encode has
/// written a non-empty RIFF container. The quality is handed to the encoder
/// on its 0..=100 scale.
#[verifier::external_body]
pub(crate) fn encode_webp_bytes(data: &Vec<u8>, width: u32, height: u32, quality: u8) -> (r: Option<
    Vec<u8>,
>)
    requires
        data@.len() == 4 * width * height,
        width <= 16383,
        height <= 16383,
        quality <= 100,
    ensures
        opt_bytes_match(r, webp_encoded_of(data@, width, height, quality)),
        r matches Some(v) ==> v@.len() > 0,
{
    let enc = webp::Encoder::from_rgba(data.as_slice(), width, height);
    match enc.encode_simple(false, quality.into()) {
        Ok(mem) => Some(mem.to_vec()),
        Err(_) => None,
    }
}

/// Relies on `image::imageops::resize` through `DynamicImage::resize_exact`
/// with the Lanczos3 filter: resampling is a function of its arguments
/// alone, and the result is an RGBA buffer of exactly the requested
/// dimensions; the call returns for nonzero source and target dimensions.
#[verifier::external_body]
pub(crate) fn resize_rgba(data: &Vec<u8>, width: u32, height: u32, new_width: u32, new_height: u32) -> (r:
    Vec<u8>)
    requires
        data@.len() == 4 * width * height,
        1 <= width,
        1 <= height,
        1 <= new_width,
        1 <= new_height,
        4 * new_width * new_height <= usize::MAX,
    ensures
        r@ == resized_of(data@, width, height, new_width, new_height),
        r@.len() == 4 * new_width * new_height,
{
    let img = image::RgbaImage::from_raw(width, height, data.clone()).unwrap();
    let resized = image::DynamicImage::ImageRgba8(img).resize_exact(
        new_width,
        new_height,
        image::imageops::FilterType::Lanczos3,
    );
    resized.into_rgba8().into_raw()
}

} // verus!
