use pixforge::utils::{
    detect_image_format_by_content, is_image_file, validate_gif_signature,
    validate_webp_signature, FormatLabel,
};

const PNG_SIG: [u8; 8] = [0x89, 0x50, 0x4E, 0x47, 0x0D, 0x0A, 0x1A, 0x0A];

#[test]
fn detect_png() {
    let mut v = PNG_SIG.to_vec();
    v.extend_from_slice(&[0, 0, 0, 13]);
    assert_eq!(detect_image_format_by_content(&v), Some(FormatLabel::Png));
}

#[test]
fn detect_jpeg() {
    let v = vec![0xFF, 0xD8, 0xFF, 0xE0, 0x00, 0x10];
    assert_eq!(detect_image_format_by_content(&v), Some(FormatLabel::Jpeg));
}

#[test]
fn detect_short_buffer_never_matches() {
    assert_eq!(detect_image_format_by_content(&vec![]), None);
    assert_eq!(detect_image_format_by_content(&vec![0x89]), None);
    assert_eq!(detect_image_format_by_content(&vec![0x89, 0x50, 0x4E]), None);
    assert_eq!(detect_image_format_by_content(&vec![0xFF, 0xD8, 0xFF]), None);
}

#[test]
fn detect_riff_without_webp_marker() {
    // A RIFF container that is not WebP (marker reads WAVE).
    let v = vec![
        0x52, 0x49, 0x46, 0x46, 0x24, 0x00, 0x00, 0x00, b'W', b'A', b'V', b'E', 0x00, 0x00, 0x00,
        0x00,
    ];
    assert_eq!(detect_image_format_by_content(&v), None);
    // Too short to even hold the marker.
    let short = vec![0x52, 0x49, 0x46, 0x46, 0x00];
    assert_eq!(detect_image_format_by_content(&short), None);
}

#[test]
fn detect_webp() {
    let v = vec![
        0x52, 0x49, 0x46, 0x46, 0x24, 0x00, 0x00, 0x00, b'W', b'E', b'B', b'P', b'V', b'P', b'8',
        b' ',
    ];
    assert_eq!(detect_image_format_by_content(&v), Some(FormatLabel::Webp));
    assert_eq!(validate_webp_signature(&v), Some(FormatLabel::Webp));
    assert_eq!(validate_webp_signature(&v[..11].to_vec()), None);
}

#[test]
fn detect_gif_versions() {
    let mut v = b"GIF89a".to_vec();
    v.extend_from_slice(&[0x10, 0x00]);
    assert_eq!(detect_image_format_by_content(&v), Some(FormatLabel::Gif));
    let v7 = b"GIF87a!!".to_vec();
    assert_eq!(detect_image_format_by_content(&v7), Some(FormatLabel::Gif));
    // Unknown version byte: the GIF signature matches but validation fails.
    let bad = b"GIF88a!!".to_vec();
    assert_eq!(detect_image_format_by_content(&bad), None);
    assert_eq!(validate_gif_signature(&bad), None);
}

#[test]
fn detect_ico_bmp_tiff() {
    assert_eq!(
        detect_image_format_by_content(&vec![0x00, 0x00, 0x01, 0x00, 0x01, 0x00]),
        Some(FormatLabel::Ico)
    );
    assert_eq!(
        detect_image_format_by_content(&vec![0x42, 0x4D, 0x36, 0x00]),
        Some(FormatLabel::Bmp)
    );
    assert_eq!(
        detect_image_format_by_content(&vec![0x49, 0x49, 0x2A, 0x00, 0x08]),
        Some(FormatLabel::Tiff)
    );
    assert_eq!(
        detect_image_format_by_content(&vec![0x4D, 0x4D, 0x00, 0x2A, 0x08]),
        Some(FormatLabel::Tiff)
    );
}

#[test]
fn detect_svg_text() {
    assert_eq!(
        detect_image_format_by_content(&b"<svg xmlns=\"ht".to_vec()),
        Some(FormatLabel::Svg)
    );
    assert_eq!(
        detect_image_format_by_content(&b"<?XML version=".to_vec()),
        Some(FormatLabel::Svg)
    );
    assert_eq!(detect_image_format_by_content(&b"<html><body></b".to_vec()), None);
    // Invalid UTF-8 is not SVG text.
    let mut bad = b"<svg".to_vec();
    bad.push(0xFF);
    assert_eq!(detect_image_format_by_content(&bad), None);
}

#[test]
fn eligibility_gate_needs_both_checks() {
    let png = PNG_SIG.to_vec();
    assert!(is_image_file("photo.png", &png));
    assert!(is_image_file("no_extension_file", &png));
    // Right extension, wrong content.
    assert!(!is_image_file("notes.png", &b"hello world, not an image".to_vec()));
    // Wrong extension, right content.
    assert!(!is_image_file("photo.txt", &png));
}
