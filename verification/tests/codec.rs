use batchimg::codec::{
    codec_for_extension, codec_for_label, png_tier, resolve_format, OutputFormat,
    PngCompressionTier,
};
use batchimg::error::PipelineError;

#[test]
fn png_tier_quality_bands() {
    assert_eq!(png_tier(65), PngCompressionTier::Fast);
    assert_eq!(png_tier(90), PngCompressionTier::Best);
    assert_eq!(png_tier(30), PngCompressionTier::Default);
}

#[test]
fn png_tier_band_boundaries() {
    assert_eq!(png_tier(49), PngCompressionTier::Default);
    assert_eq!(png_tier(50), PngCompressionTier::Fast);
    assert_eq!(png_tier(79), PngCompressionTier::Fast);
    assert_eq!(png_tier(80), PngCompressionTier::Best);
    assert_eq!(png_tier(100), PngCompressionTier::Best);
    assert_eq!(png_tier(0), PngCompressionTier::Default);
    assert_eq!(png_tier(255), PngCompressionTier::Default);
}

#[test]
fn source_extensions_match_exactly() {
    assert_eq!(codec_for_extension("jpg"), Some(OutputFormat::Jpg));
    assert_eq!(codec_for_extension("jpeg"), Some(OutputFormat::Jpeg));
    assert_eq!(codec_for_extension("png"), Some(OutputFormat::Png));
    // Source extensions are case-sensitive against the lower-case list.
    assert_eq!(codec_for_extension("PNG"), None);
    assert_eq!(codec_for_extension("gif"), None);
    assert_eq!(codec_for_extension(""), None);
}

#[test]
fn encode_labels_match_up_to_case() {
    assert_eq!(codec_for_label("PNG"), Some(OutputFormat::Png));
    assert_eq!(codec_for_label("Jpeg"), Some(OutputFormat::Jpeg));
    assert_eq!(codec_for_label("jpg"), Some(OutputFormat::Jpg));
    assert_eq!(codec_for_label("webp"), None);
}

#[test]
fn original_label_preserves_each_files_extension() {
    // A mixed .png / .jpg input set keeps each file's own format.
    let png = resolve_format("original", "png").unwrap();
    let jpg = resolve_format("original", "jpg").unwrap();
    let jpeg = resolve_format("Original", "jpeg").unwrap();
    assert_eq!(png.extension(), "png");
    assert_eq!(jpg.extension(), "jpg");
    assert_eq!(jpeg.extension(), "jpeg");
}

#[test]
fn fixed_label_overrides_extension() {
    let f = resolve_format("png", "jpg").unwrap();
    assert_eq!(f, OutputFormat::Png);
    assert_eq!(f.extension(), "png");
    let f = resolve_format("JPG", "png").unwrap();
    assert_eq!(f.extension(), "jpg");
}

#[test]
fn unrecognized_target_is_unsupported_format() {
    assert_eq!(
        resolve_format("webp", "png"),
        Err(PipelineError::UnsupportedFormat)
    );
    // "original" with an unrecognized source extension is refused too.
    assert_eq!(
        resolve_format("original", "gif"),
        Err(PipelineError::UnsupportedFormat)
    );
    assert_eq!(
        resolve_format("original", "PNG"),
        Err(PipelineError::UnsupportedFormat)
    );
}
