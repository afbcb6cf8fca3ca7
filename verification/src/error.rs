//! The failure taxonomy of the generation pipeline.
//!
//! Every stage fails fast with its own kind, and each kind carries exactly
//! the detail that stage owes its caller: the build stage a fixed message,
//! the locate stage the first candidate path it tried, the extraction stage
//! the extractor's standard-error text verbatim, and the persist stage the
//! underlying write error's text. Rendering these for a terminal is the
//! front end's job.

use vstd::prelude::*;

use crate::fs_path::FsPath;

verus! {

/// What went wrong, tagged by the pipeline stage that failed.
pub enum DidGeneratorError {
    /// The compiler process exited with a non-zero status. Carries a fixed
    /// message; the compiler's own output goes to the invoking terminal.
    BuildError(String),
    /// No candidate artifact path existed anywhere on the upward walk.
    /// Carries the canister's name and the first path that was tried,
    /// as a diagnostic for the caller.
    ArtifactNotFound { canister_name: String, first_tried: FsPath },
    /// The extractor process exited with a non-zero status. Carries the
    /// process's standard-error text, unmodified.
    CandidGenerationError(String),
    /// Writing the interface description to its destination failed.
    /// Carries the text of the underlying I/O error.
    FileWriteError(String),
}

} // verus!
