//! The capability that every concrete analysis backend offers: three
//! request/response operations, each taking a text blob and returning either a
//! generated explanation or a `GenerationError`. Implementations (distinct
//! providers or models) are interchangeable; no operation touches caller
//! state, and each call terminates with a string or an error.

use vstd::prelude::*;

use crate::errors::GenerationError;

verus! {

pub trait AnalysisBackend {
    /// Generate a commit message from the full diff of the pending changes.
    fn generate_commit_message(&self, diff: &str) -> Result<String, GenerationError>;

    /// Explain what a single file's diff does.
    fn analyze_file_changes(&self, diff: &str) -> Result<String, GenerationError>;

    /// Summarize a contributor's activity from statistics text.
    fn analyze_contributor(&self, stats: &str) -> Result<String, GenerationError>;
}

/// `o` is a possible outcome of backend `m`'s own `analyze_file_changes` on a
/// diff reading exactly `diff_text` — that is, of an actual call, not a value
/// fabricated by the caller.
pub open spec fn backend_file_outcome<M: AnalysisBackend>(
    m: M,
    diff_text: Seq<char>,
    o: Result<String, GenerationError>,
) -> bool {
    exists|s: &str|
        s@ == diff_text && #[trigger] call_ensures(M::analyze_file_changes, (&m, s), o)
}

} // verus!
