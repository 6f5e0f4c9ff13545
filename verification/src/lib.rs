//! Orchestration for turning an ordered list of still-image frames into one
//! animated GIF through the gifski encoder.
//!
//! The library validates the requested options, filters the candidate frame
//! paths down to those that exist, assigns contiguous indices and presentation
//! timestamps, feeds the frames to the encoder in order while reporting
//! progress, and applies the partial-failure policy that decides whether a run
//! with some unreadable frames still counts as a success.
//!
//! The encoder itself is an opaque capability: the collector half is driven
//! from here through trusted wrappers, while thread spawning and the
//! destination-file write stay with the embedding program.
use vstd::prelude::*;

pub mod encoder;
pub mod error;
pub mod frames;
pub mod options;
pub mod orchestrator;
pub mod progress;
pub mod text;

verus! {

use vstd::string::StringExecFns;

/// Version of this wrapper component.
pub fn get_module_version() -> (r: String)
    ensures
        r@ == "0.1.0"@,
{
    String::from_str("0.1.0")
}

/// Version of the underlying gifski encoder, as pinned by this crate's
/// dependency metadata.
pub fn get_gifski_version() -> (r: String)
    ensures
        r@ == "1.34.0"@,
{
    String::from_str("1.34.0")
}

} // verus!
