use pixforge::converter::ImageConverter;
use pixforge::error::ConversionError;

fn gradient_rgba(width: u32, height: u32) -> Vec<u8> {
    let mut data = Vec::new();
    for y in 0..height {
        for x in 0..width {
            data.push((x * 255 / width.max(1)) as u8);
            data.push((y * 255 / height.max(1)) as u8);
            data.push(((x + y) * 255 / (width + height).max(1)) as u8);
            data.push(255);
        }
    }
    data
}

fn png_from_rgba(width: u32, height: u32, data: &[u8]) -> Vec<u8> {
    let mut out = Vec::new();
    let enc = image::codecs::png::PngEncoder::new(std::io::Cursor::new(&mut out));
    image::ImageEncoder::write_image(
        enc,
        data,
        width,
        height,
        image::ExtendedColorType::Rgba8,
    )
    .unwrap();
    out
}

#[test]
fn round_trip_png_to_webp_keeps_dimensions() {
    let png = png_from_rgba(800, 600, &gradient_rgba(800, 600));
    let converter = ImageConverter::new();
    let webp_bytes = converter
        .convert_image("photo.png", &png, "webp", 80)
        .expect("webp conversion should succeed");
    assert!(!webp_bytes.is_empty());
    let decoded = image::load_from_memory(&webp_bytes).expect("output should decode");
    assert_eq!((decoded.width(), decoded.height()), (800, 600));
    let rgba = decoded.to_rgba8();
    assert_eq!(rgba.dimensions(), (800, 600));
}

#[test]
fn jpeg_output_has_no_alpha_channel() {
    let png = png_from_rgba(120, 90, &gradient_rgba(120, 90));
    let converter = ImageConverter::new();
    let jpeg = converter.convert_image("photo.png", &png, "jpeg", 85).unwrap();
    let decoded = image::load_from_memory(&jpeg).unwrap();
    assert!(!decoded.color().has_alpha());
    assert_eq!((decoded.width(), decoded.height()), (120, 90));
}

#[test]
fn ico_resizes_oversized_source() {
    let png = png_from_rgba(512, 300, &gradient_rgba(512, 300));
    let converter = ImageConverter::new();
    let ico = converter.convert_image("big.png", &png, "ico", 80).unwrap();
    let decoded = image::load_from_memory_with_format(&ico, image::ImageFormat::Ico).unwrap();
    assert_eq!((decoded.width(), decoded.height()), (256, 256));
}

#[test]
fn ico_keeps_small_source_unresized() {
    let png = png_from_rgba(200, 150, &gradient_rgba(200, 150));
    let converter = ImageConverter::new();
    let ico = converter.convert_image("small.png", &png, "ico", 80).unwrap();
    let decoded = image::load_from_memory_with_format(&ico, image::ImageFormat::Ico).unwrap();
    assert_eq!((decoded.width(), decoded.height()), (200, 150));
}

#[test]
fn png_and_gif_targets_round_trip() {
    let png = png_from_rgba(96, 64, &gradient_rgba(96, 64));
    let converter = ImageConverter::new();
    let png_out = converter.convert_image("img.png", &png, "PNG", 70).unwrap();
    let decoded = image::load_from_memory(&png_out).unwrap();
    assert_eq!((decoded.width(), decoded.height()), (96, 64));
    let gif_out = converter.convert_image("img.png", &png, "gif", 70).unwrap();
    let decoded_gif =
        image::load_from_memory_with_format(&gif_out, image::ImageFormat::Gif).unwrap();
    assert_eq!((decoded_gif.width(), decoded_gif.height()), (96, 64));
}

#[test]
fn svg_sources_are_unsupported_conversions() {
    let converter = ImageConverter::new();
    let svg = b"<svg xmlns=\"http://www.w3.org/2000/svg\"></svg>".to_vec();
    // Declared SVG by extension.
    assert_eq!(
        converter.convert_image("drawing.svg", &svg, "png", 80),
        Err(ConversionError::UnsupportedConversion)
    );
    // Misnamed, but detected as SVG by content.
    assert_eq!(
        converter.convert_image("drawing.png", &svg, "png", 80),
        Err(ConversionError::UnsupportedConversion)
    );
    // SVG extension wins even over raster content.
    let png = png_from_rgba(10, 10, &gradient_rgba(10, 10));
    assert_eq!(
        converter.convert_image("fake.svg", &png, "webp", 80),
        Err(ConversionError::UnsupportedConversion)
    );
}

#[test]
fn unknown_target_format_is_rejected_first() {
    let converter = ImageConverter::new();
    let png = png_from_rgba(10, 10, &gradient_rgba(10, 10));
    assert_eq!(
        converter.convert_image("img.png", &png, "bmp", 80),
        Err(ConversionError::UnsupportedTargetFormat)
    );
    assert_eq!(
        converter.convert_image("img.png", &png, "", 80),
        Err(ConversionError::UnsupportedTargetFormat)
    );
}

#[test]
fn undecodable_content_is_a_decode_failure() {
    let converter = ImageConverter::new();
    // A valid PNG signature followed by garbage: sniffs as PNG, fails decode.
    let mut bytes = vec![0x89, 0x50, 0x4E, 0x47, 0x0D, 0x0A, 0x1A, 0x0A];
    bytes.extend_from_slice(&[1, 2, 3, 4, 5, 6, 7, 8]);
    assert_eq!(
        converter.convert_image("broken.png", &bytes, "jpeg", 80),
        Err(ConversionError::DecodeFailed)
    );
}

#[test]
fn output_path_resolution() {
    let converter = ImageConverter::new();
    assert_eq!(
        converter.determine_output_path("shot.png", "out", true, "webp"),
        "out/shot.webp"
    );
    assert_eq!(
        converter.determine_output_path("shot.png", "exact/name.webp", false, "webp"),
        "exact/name.webp"
    );
    assert_eq!(
        pixforge::converter::determine_output_path("a/b/c.png", None, true),
        "a/b"
    );
    assert_eq!(
        pixforge::converter::determine_output_path("a/b", None, false),
        "a/pixforge_output"
    );
    let explicit = String::from("elsewhere");
    assert_eq!(
        pixforge::converter::determine_output_path("a/b/c.png", Some(&explicit), true),
        "elsewhere"
    );
}

#[test]
fn oversized_jpeg_dimensions_fail_encode() {
    // JPEG cannot hold a 70000-pixel-wide image; the pipeline reports the
    // encoder's refusal instead of panicking.
    let mut data = Vec::new();
    for x in 0..70000u32 {
        let v = (x % 251) as u8;
        data.extend_from_slice(&[v, v, v, 255]);
    }
    let png = png_from_rgba(70000, 1, &data);
    let converter = ImageConverter::new();
    assert_eq!(
        converter.convert_image("wide.png", &png, "jpeg", 80),
        Err(ConversionError::EncodeFailed)
    );
}

#[test]
fn png_target_preserves_grayscale_layout() {
    let mut gray = Vec::new();
    for i in 0..(90 * 70) {
        gray.push((i % 256) as u8);
    }
    let mut src = Vec::new();
    let enc = image::codecs::png::PngEncoder::new(std::io::Cursor::new(&mut src));
    image::ImageEncoder::write_image(enc, &gray, 90, 70, image::ExtendedColorType::L8).unwrap();

    let converter = ImageConverter::new();
    let out = converter.convert_image("gray.png", &src, "png", 50).unwrap();
    let decoded = image::load_from_memory(&out).unwrap();
    assert_eq!(decoded.color(), image::ColorType::L8);
    assert_eq!((decoded.width(), decoded.height()), (90, 70));
}

#[test]
fn parent_resolution_edges() {
    // A bare file name converts into the empty (current) directory; the
    // root and the empty path have no parent and resolve to `.`.
    assert_eq!(pixforge::converter::determine_output_path("photo.png", None, true), "");
    assert_eq!(pixforge::converter::determine_output_path("/", None, true), ".");
    assert_eq!(pixforge::converter::determine_output_path("", None, true), ".");
    assert_eq!(pixforge::converter::determine_output_path("/photo.png", None, true), "/");
}
