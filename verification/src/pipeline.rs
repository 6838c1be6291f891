//! Fan-in of the change-analysis pipeline.
//!
//! The pipeline maps every changed file's diff to one backend call and then
//! aggregates the per-call outcomes deterministically: if every call
//! succeeded, the analyses come back in input order (never in completion
//! order); if any call failed, the whole batch reports the failure of the
//! earliest input index, and the successful results of the batch are
//! discarded. Aggregation is written over the outcome of every dispatched
//! call, so no outcome is ever inspected before all calls have finished.

use vstd::prelude::*;

use crate::errors::GenerationError;
use crate::errors::PipelineError;

verus! {

/// One changed file, as enumerated by the diff source: its path and the full
/// diff text of its changes.
#[derive(Debug, Clone, PartialEq, Eq)]
pub struct FileDiff {
    pub path: String,
    pub diff_text: String,
}

/// The backend's explanation of one file's changes, paired with the path of
/// the `FileDiff` it was derived from.
#[derive(Debug, Clone, PartialEq, Eq)]
pub struct FileAnalysis {
    pub path: String,
    pub explanation: String,
}

/// Every per-file backend call of the batch succeeded.
pub open spec fn all_succeeded(outcomes: Seq<Result<String, GenerationError>>) -> bool {
    forall|i: int| 0 <= i < outcomes.len() ==> outcomes[i] is Ok
}

/// `i` is the earliest input index whose backend call failed.
pub open spec fn first_failure_at(outcomes: Seq<Result<String, GenerationError>>, i: int) -> bool {
    &&& 0 <= i < outcomes.len()
    &&& outcomes[i] is Err
    &&& forall|j: int| 0 <= j < i ==> outcomes[j] is Ok
}

/// `analyses` pairs each input diff, in input order, with the explanation its
/// own backend call returned.
pub open spec fn analyses_match(
    diffs: Seq<FileDiff>,
    outcomes: Seq<Result<String, GenerationError>>,
    analyses: Seq<FileAnalysis>,
) -> bool {
    &&& analyses.len() == diffs.len()
    &&& forall|i: int|
        0 <= i < diffs.len() ==> (#[trigger] analyses[i]).path@ == diffs[i].path@
            && analyses[i].explanation@ == (outcomes[i]->Ok_0)@
}

/// `e` reports the failure of the call at input index `i`: it names that
/// diff's path and carries that call's error.
pub open spec fn reports_failure_of(
    diffs: Seq<FileDiff>,
    outcomes: Seq<Result<String, GenerationError>>,
    i: int,
    e: PipelineError,
) -> bool {
    e matches PipelineError::Generation { path, error } && path@ == diffs[i].path@
        && error.message@ == (outcomes[i]->Err_0).message@
}

/// Aggregate the outcomes of a finished batch of per-file backend calls.
///
/// `outcomes[i]` is the outcome of the call for `diffs[i]`; the pairing is by
/// index, so the result is independent of the order in which the calls
/// actually finished. Succeeds exactly when every call succeeded, with the
/// analyses in input order; otherwise reports the failure of the earliest
/// input index.
pub fn aggregate_analyses(
    diffs: Vec<FileDiff>,
    outcomes: Vec<Result<String, GenerationError>>,
) -> (r: Result<Vec<FileAnalysis>, PipelineError>)
    requires
        diffs@.len() == outcomes@.len(),
    ensures
        r is Ok <==> all_succeeded(outcomes@),
        r matches Ok(analyses) ==> analyses_match(diffs@, outcomes@, analyses@),
        r matches Err(e) ==> exists|i: int|
            #[trigger] first_failure_at(outcomes@, i) && reports_failure_of(
                diffs@,
                outcomes@,
                i,
                e,
            ),
{
    let n = diffs.len();
    let mut analyses: Vec<FileAnalysis> = Vec::new();
    let mut i: usize = 0;
    while i < n
        invariant
            n == diffs@.len() == outcomes@.len(),
            i <= n,
            analyses@.len() == i,
            forall|j: int| 0 <= j < i ==> outcomes@[j] is Ok,
            forall|j: int|
                0 <= j < i ==> (#[trigger] analyses@[j]).path@ == diffs@[j].path@
                    && analyses@[j].explanation@ == (outcomes@[j]->Ok_0)@,
        decreases n - i,
    {
        match &outcomes[i] {
            Ok(explanation) => {
                analyses.push(
                    FileAnalysis { path: diffs[i].path.clone(), explanation: explanation.clone() },
                );
            },
            Err(error) => {
                let failure = PipelineError::Generation {
                    path: diffs[i].path.clone(),
                    error: GenerationError { message: error.message.clone() },
                };
                proof {
                    assert(first_failure_at(outcomes@, i as int));
                }
                return Err(failure);
            },
        }
        i += 1;
    }
    Ok(analyses)
}

} // verus!
