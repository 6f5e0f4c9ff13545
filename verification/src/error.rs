//! The terminal error kinds of an encoding run.
use vstd::prelude::*;

use crate::text::{decimal_rep, decimal_string};

verus! {

use vstd::string::StringExecFns;

/// Why an encoding run ended without a usable destination file.
///
/// Exactly one of these (or success) is produced per invocation; per-frame
/// submission failures are tallied and never surface here on their own unless
/// every single frame failed.
#[derive(Debug)]
pub enum GifskiError {
    /// No candidate input path existed on the file system.
    NoInputPaths,
    /// The options were rejected before any stage started.
    InvalidOptions { reason: String },
    /// Reserved for destination-path validation failures.
    InvalidOutputPath { path: String },
    /// The encoder could not be constructed from the given options.
    EncoderCreationFailed { reason: String },
    /// The destination file could not be opened or created.
    OutputFileCreationFailed { path: String },
    /// Draining or finalizing the encoded output failed, or the submission
    /// stage terminated abnormally.
    WriteFailed { reason: String },
    /// Every frame failed submission; the destination file, if any, is
    /// degenerate and must not be treated as valid output.
    NoFramesAdded { failed: u32, total: u32 },
}

/// The human-readable text that `GifskiError::message` renders.
pub open spec fn spec_message(e: GifskiError) -> Seq<char> {
    match e {
        GifskiError::NoInputPaths => "No valid input paths provided"@,
        GifskiError::InvalidOptions { reason } => "Invalid options: "@ + reason@,
        GifskiError::InvalidOutputPath { path } => "Invalid output path: "@ + path@,
        GifskiError::EncoderCreationFailed { reason } => "Failed to create gifski encoder: "@
            + reason@,
        GifskiError::OutputFileCreationFailed { path } => "Failed to create output file: "@
            + path@,
        GifskiError::WriteFailed { reason } => "Failed to write GIF data: "@ + reason@,
        GifskiError::NoFramesAdded { failed, total } => "No valid frames were added ("@
            + decimal_rep(failed as nat) + " of "@ + decimal_rep(total as nat)
            + " frames failed)"@,
    }
}

impl GifskiError {
    /// One line of human-readable text describing the error.
    pub fn message(&self) -> (r: String)
        ensures
            r@ == spec_message(*self),
    {
        match self {
            GifskiError::NoInputPaths => String::from_str("No valid input paths provided"),
            GifskiError::InvalidOptions { reason } => {
                let mut s = String::from_str("Invalid options: ");
                s.append(reason.as_str());
                s
            },
            GifskiError::InvalidOutputPath { path } => {
                let mut s = String::from_str("Invalid output path: ");
                s.append(path.as_str());
                s
            },
            GifskiError::EncoderCreationFailed { reason } => {
                let mut s = String::from_str("Failed to create gifski encoder: ");
                s.append(reason.as_str());
                s
            },
            GifskiError::OutputFileCreationFailed { path } => {
                let mut s = String::from_str("Failed to create output file: ");
                s.append(path.as_str());
                s
            },
            GifskiError::WriteFailed { reason } => {
                let mut s = String::from_str("Failed to write GIF data: ");
                s.append(reason.as_str());
                s
            },
            GifskiError::NoFramesAdded { failed, total } => {
                let mut s = String::from_str("No valid frames were added (");
                let failed_text = decimal_string(*failed);
                s.append(failed_text.as_str());
                s.append(" of ");
                let total_text = decimal_string(*total);
                s.append(total_text.as_str());
                s.append(" frames failed)");
                s
            },
        }
    }
}

} // verus!
