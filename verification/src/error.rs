//! Error kinds produced by the conversion pipeline and its callers.

use vstd::prelude::*;

verus! {

/// Typed failure reasons for a single conversion attempt or for the
/// surrounding run.
///
/// Top-level validation failures (`InputNotFound`, `UnsupportedTargetFormat`)
/// abort a run before any file is processed; per-file failures are caught by
/// the batch loop and counted as skips.
#[derive(Clone, Copy, Debug, PartialEq, Eq, Structural)]
pub enum ConversionError {
    /// The input path does not exist.
    InputNotFound,
    /// The requested target format is not in the supported set.
    UnsupportedTargetFormat,
    /// The file failed the eligibility gate (extension or content sniff).
    UnsupportedInputContent,
    /// The source is an SVG, which this raster pipeline does not convert.
    UnsupportedConversion,
    /// The decode capability could not produce a pixel buffer.
    DecodeFailed,
    /// The encode capability could not produce output bytes.
    EncodeFailed,
    /// The output bytes could not be written.
    WriteFailed,
    /// An output directory could not be created.
    DirectoryCreationFailed,
}

} // verus!
