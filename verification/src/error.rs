//! Per-file error taxonomy.
//!
//! Every fallible step of the per-image pipeline reports one of these
//! conditions. A failure of a single file never aborts a batch run: the
//! scheduler converts it into a skipped outcome that still advances progress.

use vstd::prelude::*;

verus! {

/// Why the pipeline skipped one file.
#[derive(Clone, Copy, Debug, PartialEq, Eq, Structural)]
pub enum PipelineError {
    /// The source bytes are not a valid or supported image.
    DecodeFailure,
    /// The target extension is not recognized by codec dispatch; nothing is written.
    UnsupportedFormat,
    /// Crop or resize arithmetic would produce a zero dimension: the target
    /// ratio and the image are mismatched, the file itself is fine.
    InvalidGeometry,
    /// The encoder refused the transformed image.
    EncodeFailure,
    /// The external metadata propagation call failed; the output image itself
    /// was still produced.
    MetadataCopyFailure,
    /// The source could not be read or the destination could not be written.
    IOFailure,
}

/// The log label of each error condition.
pub open spec fn spec_error_label(e: PipelineError) -> Seq<char> {
    match e {
        PipelineError::DecodeFailure => "decode failure"@,
        PipelineError::UnsupportedFormat => "unsupported format"@,
        PipelineError::InvalidGeometry => "invalid geometry"@,
        PipelineError::EncodeFailure => "encode failure"@,
        PipelineError::MetadataCopyFailure => "metadata copy failure"@,
        PipelineError::IOFailure => "io failure"@,
    }
}

impl PipelineError {
    /// A short description of the condition, for per-file logs.
    pub fn describe(&self) -> (r: &'static str)
        ensures
            r@ == spec_error_label(*self),
    {
        match self {
            PipelineError::DecodeFailure => "decode failure",
            PipelineError::UnsupportedFormat => "unsupported format",
            PipelineError::InvalidGeometry => "invalid geometry",
            PipelineError::EncodeFailure => "encode failure",
            PipelineError::MetadataCopyFailure => "metadata copy failure",
            PipelineError::IOFailure => "io failure",
        }
    }
}

} // verus!
