use pixforge::classify::ContentCategory;
use pixforge::error::ConversionError;
use pixforge::pixel::ColorLayout;
use pixforge::policy::{
    decide, get_optimal_filter_type, get_png_compression_level, parse_target_format,
    validate_target_format, CompressionLevel, FilterStrategy, TargetFormat,
};

#[test]
fn target_format_matching_is_case_insensitive() {
    assert_eq!(parse_target_format("PNG"), Some(TargetFormat::Png));
    assert_eq!(parse_target_format("png"), Some(TargetFormat::Png));
    assert_eq!(parse_target_format("Png"), Some(TargetFormat::Png));
    assert_eq!(parse_target_format("JpEg"), Some(TargetFormat::Jpeg));
    assert_eq!(parse_target_format("jpg"), Some(TargetFormat::Jpeg));
    assert_eq!(parse_target_format("WEBP"), Some(TargetFormat::Webp));
    assert_eq!(parse_target_format("Gif"), Some(TargetFormat::Gif));
    assert_eq!(parse_target_format("ICO"), Some(TargetFormat::Ico));
}

#[test]
fn unsupported_targets_are_rejected() {
    assert_eq!(parse_target_format("bmp"), None);
    assert_eq!(parse_target_format("tiff"), None);
    assert_eq!(parse_target_format("svg"), None);
    assert_eq!(parse_target_format(""), None);
    assert!(validate_target_format("webp").is_ok());
    assert_eq!(
        validate_target_format("xyz"),
        Err(ConversionError::UnsupportedTargetFormat)
    );
}

#[test]
fn png_compression_buckets() {
    assert_eq!(get_png_compression_level(15), CompressionLevel::Fast);
    assert_eq!(get_png_compression_level(45), CompressionLevel::Default);
    assert_eq!(get_png_compression_level(70), CompressionLevel::Best);
    assert_eq!(get_png_compression_level(95), CompressionLevel::Best);
    // Bucket edges.
    assert_eq!(get_png_compression_level(0), CompressionLevel::Fast);
    assert_eq!(get_png_compression_level(20), CompressionLevel::Fast);
    assert_eq!(get_png_compression_level(21), CompressionLevel::Default);
    assert_eq!(get_png_compression_level(60), CompressionLevel::Default);
    assert_eq!(get_png_compression_level(61), CompressionLevel::Best);
    assert_eq!(get_png_compression_level(100), CompressionLevel::Best);
}

#[test]
fn filter_follows_category() {
    assert_eq!(
        get_optimal_filter_type(ContentCategory::SimpleGraphics),
        FilterStrategy::NoFilter
    );
    assert_eq!(get_optimal_filter_type(ContentCategory::HorizontalGraphics), FilterStrategy::Sub);
    assert_eq!(get_optimal_filter_type(ContentCategory::VerticalPattern), FilterStrategy::Up);
    assert_eq!(get_optimal_filter_type(ContentCategory::SmoothPhoto), FilterStrategy::Average);
    assert_eq!(get_optimal_filter_type(ContentCategory::ComplexGeometry), FilterStrategy::Paeth);
    assert_eq!(get_optimal_filter_type(ContentCategory::Mixed), FilterStrategy::Adaptive);
}

#[test]
fn ico_resizes_only_oversized_sources() {
    let big = decide(
        TargetFormat::Ico,
        80,
        ContentCategory::SmoothPhoto,
        ColorLayout::Rgba8,
        512,
        300,
    );
    assert_eq!((big.out_width, big.out_height), (256, 256));
    let small = decide(
        TargetFormat::Ico,
        80,
        ContentCategory::SmoothPhoto,
        ColorLayout::Rgba8,
        200,
        150,
    );
    assert_eq!((small.out_width, small.out_height), (200, 150));
    let edge = decide(
        TargetFormat::Ico,
        80,
        ContentCategory::SmoothPhoto,
        ColorLayout::Rgba8,
        256,
        256,
    );
    assert_eq!((edge.out_width, edge.out_height), (256, 256));
}

#[test]
fn jpeg_always_drops_alpha() {
    for layout in [
        ColorLayout::L8,
        ColorLayout::La8,
        ColorLayout::Rgb8,
        ColorLayout::Rgba8,
        ColorLayout::Other,
    ] {
        let opts = decide(TargetFormat::Jpeg, 90, ContentCategory::Mixed, layout, 10, 10);
        assert_eq!(opts.layout, ColorLayout::Rgb8);
    }
}

#[test]
fn png_preserves_known_layouts() {
    for (src, kept) in [
        (ColorLayout::L8, ColorLayout::L8),
        (ColorLayout::La8, ColorLayout::La8),
        (ColorLayout::Rgb8, ColorLayout::Rgb8),
        (ColorLayout::Rgba8, ColorLayout::Rgba8),
        (ColorLayout::Other, ColorLayout::Rgba8),
    ] {
        let opts = decide(TargetFormat::Png, 50, ContentCategory::SmoothPhoto, src, 10, 10);
        assert_eq!(opts.layout, kept);
        assert_eq!(opts.compression, CompressionLevel::Default);
        assert_eq!(opts.filter, FilterStrategy::Average);
    }
}
