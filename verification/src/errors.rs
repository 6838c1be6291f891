//! Error taxonomy of the change-analysis core.

use vstd::prelude::*;

verus! {

/// A single backend call failed (network trouble, authentication, a
/// backend-reported error, or a malformed response). Carries the backend's
/// description of the failure.
#[derive(Debug, Clone, PartialEq, Eq)]
pub struct GenerationError {
    pub message: String,
}

/// Failure of the change-analysis pipeline: either the diff source could not
/// enumerate the changed files at all, or one of the per-file backend calls
/// failed. The `Generation` variant names the file whose call failed.
#[derive(Debug, Clone, PartialEq, Eq)]
pub enum PipelineError {
    DiffSource { message: String },
    Generation { path: String, error: GenerationError },
}

} // verus!
