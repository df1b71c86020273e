//! Codec dispatch: maps a target extension label and a quality setting to a
//! concrete encoder choice and compression parameter.
//!
//! The configured encode label is matched up to ASCII case (it is lowercased
//! once at dispatch); per-file source extensions are matched exactly, against
//! the lower-case extension list.

use vstd::prelude::*;
use crate::error::PipelineError;
use crate::text::{spec_ieq, str_eq, str_ieq};

verus! {

/// A supported output format. `Jpg` and `Jpeg` use the same encoder but keep
/// their own extension spelling, so a mixed input set round-trips its names.
#[derive(Clone, Copy, Debug, PartialEq, Eq, Structural)]
pub enum OutputFormat {
    Jpg,
    Jpeg,
    Png,
}

/// The PNG compression-effort tier chosen from the quality setting. PNG is
/// lossless, so quality selects effort rather than a lossy factor.
#[derive(Clone, Copy, Debug, PartialEq, Eq, Structural)]
pub enum PngCompressionTier {
    Fast,
    Best,
    Default,
}

/// Quality in `[50, 79]` maps to fast effort, `[80, 100]` to best effort,
/// anything else to the encoder's default effort.
pub open spec fn spec_png_tier(quality: u8) -> PngCompressionTier {
    if 50 <= quality <= 79 {
        PngCompressionTier::Fast
    } else if 80 <= quality <= 100 {
        PngCompressionTier::Best
    } else {
        PngCompressionTier::Default
    }
}

/// Selects the PNG compression-effort tier for a quality setting.
pub fn png_tier(quality: u8) -> (t: PngCompressionTier)
    ensures
        t == spec_png_tier(quality),
{
    if quality >= 50 && quality <= 79 {
        PngCompressionTier::Fast
    } else if quality >= 80 && quality <= 100 {
        PngCompressionTier::Best
    } else {
        PngCompressionTier::Default
    }
}

/// The lower-case file extension written for each output format.
pub open spec fn spec_format_extension(f: OutputFormat) -> Seq<char> {
    match f {
        OutputFormat::Jpg => "jpg"@,
        OutputFormat::Jpeg => "jpeg"@,
        OutputFormat::Png => "png"@,
    }
}

impl OutputFormat {
    /// The file extension written for this format.
    pub fn extension(&self) -> (r: &'static str)
        ensures
            r@ == spec_format_extension(*self),
    {
        match self {
            OutputFormat::Jpg => "jpg",
            OutputFormat::Jpeg => "jpeg",
            OutputFormat::Png => "png",
        }
    }
}

/// The format recognized for a source file's extension, matched exactly.
pub open spec fn spec_codec_for_extension(ext: Seq<char>) -> Option<OutputFormat> {
    if ext == "jpg"@ {
        Some(OutputFormat::Jpg)
    } else if ext == "jpeg"@ {
        Some(OutputFormat::Jpeg)
    } else if ext == "png"@ {
        Some(OutputFormat::Png)
    } else {
        None
    }
}

/// Recognizes a source file's extension, matched exactly.
pub fn codec_for_extension(ext: &str) -> (r: Option<OutputFormat>)
    ensures
        r == spec_codec_for_extension(ext@),
{
    if str_eq(ext, "jpg") {
        Some(OutputFormat::Jpg)
    } else if str_eq(ext, "jpeg") {
        Some(OutputFormat::Jpeg)
    } else if str_eq(ext, "png") {
        Some(OutputFormat::Png)
    } else {
        None
    }
}

/// The format recognized for the configured encode label, up to ASCII case.
pub open spec fn spec_codec_for_label(label: Seq<char>) -> Option<OutputFormat> {
    if spec_ieq(label, "jpg"@) {
        Some(OutputFormat::Jpg)
    } else if spec_ieq(label, "jpeg"@) {
        Some(OutputFormat::Jpeg)
    } else if spec_ieq(label, "png"@) {
        Some(OutputFormat::Png)
    } else {
        None
    }
}

/// Recognizes the configured encode label, up to ASCII case.
pub fn codec_for_label(label: &str) -> (r: Option<OutputFormat>)
    ensures
        r == spec_codec_for_label(label@),
{
    if str_ieq(label, "jpg") {
        Some(OutputFormat::Jpg)
    } else if str_ieq(label, "jpeg") {
        Some(OutputFormat::Jpeg)
    } else if str_ieq(label, "png") {
        Some(OutputFormat::Png)
    } else {
        None
    }
}

/// The output format for one file: the label `"original"` (up to ASCII case)
/// defers to the file's own extension, any other label names the format
/// itself; an unrecognized target is refused.
pub open spec fn spec_resolve_format(label: Seq<char>, existing: Seq<char>) -> Result<
    OutputFormat,
    PipelineError,
> {
    if spec_ieq(label, "original"@) {
        match spec_codec_for_extension(existing) {
            Some(f) => Ok(f),
            None => Err(PipelineError::UnsupportedFormat),
        }
    } else {
        match spec_codec_for_label(label) {
            Some(f) => Ok(f),
            None => Err(PipelineError::UnsupportedFormat),
        }
    }
}

/// Resolves the output format for one file from the configured encode label
/// and the file's existing extension.
pub fn resolve_format(encode_label: &str, existing_extension: &str) -> (r: Result<
    OutputFormat,
    PipelineError,
>)
    ensures
        r == spec_resolve_format(encode_label@, existing_extension@),
{
    if str_ieq(encode_label, "original") {
        match codec_for_extension(existing_extension) {
            Some(f) => Ok(f),
            None => Err(PipelineError::UnsupportedFormat),
        }
    } else {
        match codec_for_label(encode_label) {
            Some(f) => Ok(f),
            None => Err(PipelineError::UnsupportedFormat),
        }
    }
}

/// Format round-trip: with the `"original"` target, every recognized source
/// extension is preserved exactly as the output extension, so a mixed input
/// set keeps each file's own format.
pub proof fn lemma_original_preserves_extension(label: Seq<char>, existing: Seq<char>)
    requires
        spec_ieq(label, "original"@),
        spec_codec_for_extension(existing) is Some,
    ensures
        spec_resolve_format(label, existing) matches Ok(f) && spec_format_extension(f)
            == existing,
{
}

} // verus!
