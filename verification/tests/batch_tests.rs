use pixforge::converter::{
    mirror_output_name, ConversionOutcome, ConversionStats, FileEntry, ImageConverter,
};
use pixforge::error::ConversionError;

fn tiny_png() -> Vec<u8> {
    let mut data = Vec::new();
    for i in 0..(8 * 8 * 4) {
        data.push((i % 256) as u8);
    }
    let mut out = Vec::new();
    let enc = image::codecs::png::PngEncoder::new(std::io::Cursor::new(&mut out));
    image::ImageEncoder::write_image(enc, &data, 8, 8, image::ExtendedColorType::Rgba8).unwrap();
    out
}

#[test]
fn batch_counts_successes_and_skips() {
    let png = tiny_png();
    let entries = vec![
        FileEntry { path: String::from("a.png"), data: png.clone() },
        FileEntry { path: String::from("sub/b.png"), data: png.clone() },
        FileEntry { path: String::from("c.png"), data: png.clone() },
        FileEntry { path: String::from("notes.txt"), data: b"just some text".to_vec() },
        FileEntry { path: String::from("data.bin"), data: vec![0, 1, 2, 3, 4, 5] },
    ];
    let converter = ImageConverter::new();
    let (outcomes, stats) = converter.convert_entries(&entries, "webp", 80);
    assert_eq!(stats.converted, 3);
    assert_eq!(stats.skipped, 2);
    assert_eq!(outcomes.len(), 5);
    match &outcomes[1] {
        ConversionOutcome::Converted { output_name, bytes } => {
            assert_eq!(output_name, "sub/b.webp");
            assert!(!bytes.is_empty());
        }
        ConversionOutcome::Skipped { .. } => panic!("expected a conversion"),
    }
    match &outcomes[3] {
        ConversionOutcome::Skipped { reason } => {
            assert_eq!(*reason, ConversionError::UnsupportedInputContent);
        }
        ConversionOutcome::Converted { .. } => panic!("expected a skip"),
    }
}

#[test]
fn batch_skips_svg_as_unsupported_conversion() {
    let entries = vec![
        FileEntry {
            path: String::from("v.svg"),
            data: b"<svg xmlns=\"http://www.w3.org/2000/svg\"/>".to_vec(),
        },
        FileEntry { path: String::from("p.png"), data: tiny_png() },
    ];
    let converter = ImageConverter::new();
    let (outcomes, stats) = converter.convert_entries(&entries, "png", 80);
    assert_eq!(stats.converted, 1);
    assert_eq!(stats.skipped, 1);
    match &outcomes[0] {
        ConversionOutcome::Skipped { reason } => {
            assert_eq!(*reason, ConversionError::UnsupportedConversion);
        }
        ConversionOutcome::Converted { .. } => panic!("svg must be skipped"),
    }
}

#[test]
fn batch_never_aborts_on_failures() {
    // Every entry fails, each differently; the run still sees them all.
    let entries = vec![
        FileEntry { path: String::from("bad.txt"), data: b"not an image".to_vec() },
        FileEntry {
            path: String::from("broken.png"),
            data: vec![0x89, 0x50, 0x4E, 0x47, 0x0D, 0x0A, 0x1A, 0x0A, 9, 9, 9, 9],
        },
        FileEntry { path: String::from("v.svg"), data: b"<?xml version=\"1.0\"?>".to_vec() },
    ];
    let converter = ImageConverter::new();
    let (outcomes, stats) = converter.convert_entries(&entries, "gif", 50);
    assert_eq!(outcomes.len(), 3);
    assert_eq!(stats.converted, 0);
    assert_eq!(stats.skipped, 3);
    assert!(stats.is_total_failure());
}

#[test]
fn bad_target_format_skips_every_eligible_entry() {
    let entries = vec![FileEntry { path: String::from("a.png"), data: tiny_png() }];
    let converter = ImageConverter::new();
    let (outcomes, stats) = converter.convert_entries(&entries, "avif", 80);
    assert_eq!(stats.converted, 0);
    assert_eq!(stats.skipped, 1);
    match &outcomes[0] {
        ConversionOutcome::Skipped { reason } => {
            assert_eq!(*reason, ConversionError::UnsupportedTargetFormat);
        }
        ConversionOutcome::Converted { .. } => panic!("expected a skip"),
    }
}

#[test]
fn stats_counters_increment_independently() {
    let mut stats = ConversionStats::new();
    assert_eq!((stats.converted, stats.skipped), (0, 0));
    stats.increment_converted();
    stats.increment_converted();
    stats.increment_skipped();
    assert_eq!((stats.converted, stats.skipped), (2, 1));
    assert!(!stats.is_total_failure());
    let mut failing = ConversionStats::new();
    failing.increment_skipped();
    assert!(failing.is_total_failure());
}

#[test]
fn mirrored_output_names_keep_directories() {
    assert_eq!(mirror_output_name("sub/dir/img.png", "webp"), "sub/dir/img.webp");
    assert_eq!(mirror_output_name("img.jpeg", "PNG"), "img.PNG");
}

#[test]
fn write_failures_fold_into_skips() {
    let mut stats = ConversionStats::new();
    stats.increment_converted();
    stats.increment_converted();
    stats.increment_converted();
    stats.increment_skipped();
    let folded = stats.apply_write_failures(2);
    assert_eq!((folded.converted, folded.skipped), (1, 3));
    let untouched = ConversionStats::new().apply_write_failures(0);
    assert_eq!((untouched.converted, untouched.skipped), (0, 0));
}
