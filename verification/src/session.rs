//! The session: the currently active analysis backend together with the
//! currently open repository path. Replacing either produces a new session
//! value with the other field unchanged; the three analysis operations are
//! exposed as session-scoped calls against the active backend.

use vstd::prelude::*;

use crate::backend::backend_file_outcome;
use crate::backend::AnalysisBackend;
use crate::errors::GenerationError;
use crate::errors::PipelineError;
use crate::pipeline::FileAnalysis;
use crate::pipeline::FileDiff;
use crate::pipeline::aggregate_analyses;
use crate::pipeline::first_failure_at;
use crate::pipeline::reports_failure_of;
use vstd::string::StringExecFns;

verus! {

/// `a` explains `d` by an actual call of backend `m`: some successful outcome
/// of `m`'s `analyze_file_changes` on `d`'s own diff text carries exactly
/// `a`'s explanation.
pub open spec fn explained_by_backend<M: AnalysisBackend>(
    m: M,
    d: FileDiff,
    a: FileAnalysis,
) -> bool {
    exists|o: Result<String, GenerationError>|
        #[trigger] backend_file_outcome(m, d.diff_text@, o) && o is Ok && a.explanation@ == (
        o->Ok_0)@
}

/// `e` reports a failure that an actual call of backend `m` produced for `d`:
/// some failing outcome of `m`'s `analyze_file_changes` on `d`'s own diff
/// text carries exactly `e`'s message, and `e` names `d`'s path.
pub open spec fn failure_from_backend<M: AnalysisBackend>(
    m: M,
    d: FileDiff,
    e: PipelineError,
) -> bool {
    exists|o: Result<String, GenerationError>|
        #[trigger] backend_file_outcome(m, d.diff_text@, o) && o is Err && (e matches
        PipelineError::Generation { path, error } && path@ == d.path@ && error.message@ == (
        o->Err_0).message@)
}

/// A session value. Holds exactly one active backend and one repository path;
/// the path is validated by the caller before construction or replacement,
/// and never re-validated here.
#[derive(Debug)]
pub struct Config<M> {
    model: M,
    repo_path: String,
}

impl<M> Config<M> {
    /// The active backend, as the contracts speak of it.
    pub closed spec fn spec_model(&self) -> M {
        self.model
    }

    /// The repository path, as the contracts speak of it.
    pub closed spec fn spec_repo_path(&self) -> Seq<char> {
        self.repo_path@
    }

    /// Build a session from a backend and an optional repository path; an
    /// absent path means the current directory.
    pub fn new(model: M, repo_path: Option<String>) -> (r: Self)
        ensures
            r.spec_model() == model,
            match repo_path {
                Some(p) => r.spec_repo_path() == p@,
                None => r.spec_repo_path() == "."@,
            },
    {
        let path = match repo_path {
            Some(p) => p,
            None => String::from_str("."),
        };
        Config { model, repo_path: path }
    }

    /// Swap the active backend; the repository path is unchanged.
    pub fn with_new_model<M2>(self, model: M2) -> (r: Config<M2>)
        ensures
            r.spec_model() == model,
            r.spec_repo_path() == self.spec_repo_path(),
    {
        Config { model, repo_path: self.repo_path }
    }

    /// Swap the repository path (already validated by the caller); the active
    /// backend is unchanged.
    pub fn with_new_repo(self, repo_path: String) -> (r: Self)
        ensures
            r.spec_model() == self.spec_model(),
            r.spec_repo_path() == repo_path@,
    {
        Config { model: self.model, repo_path }
    }

    /// The repository path of this session.
    pub fn repo_path(&self) -> (r: &str)
        ensures
            r@ == self.spec_repo_path(),
    {
        self.repo_path.as_str()
    }

    /// The active backend of this session.
    pub fn model(&self) -> (r: &M)
        ensures
            *r == self.spec_model(),
    {
        &self.model
    }
}

impl<M: AnalysisBackend> Config<M> {
    /// Generate a commit message for the given full diff text: the result is
    /// a possible outcome of the active backend's own operation on exactly
    /// this diff, returned unchanged.
    pub fn generate_commit_message(&self, diff: &str) -> (r: Result<String, GenerationError>)
        ensures
            call_ensures(M::generate_commit_message, (&self.spec_model(), diff), r),
    {
        self.model.generate_commit_message(diff)
    }

    /// Summarize a contributor's activity from statistics text: the result is
    /// a possible outcome of the active backend's own operation on exactly
    /// this text, returned unchanged.
    pub fn analyze_contributor(&self, stats: &str) -> (r: Result<String, GenerationError>)
        ensures
            call_ensures(M::analyze_contributor, (&self.spec_model(), stats), r),
    {
        self.model.analyze_contributor(stats)
    }

    /// Run the change-analysis pipeline over the given per-file diffs: one
    /// backend call per file, every call made whether or not an earlier one
    /// failed, then the deterministic aggregation of `aggregate_analyses`,
    /// whose contract states the full policy over the calls' outcomes. On
    /// success the analyses name the input paths in input order and each
    /// explanation is an actual backend outcome on that file's own diff
    /// text; on failure the error names an input's path — by the aggregation
    /// policy, the earliest whose call failed — and carries the message of
    /// an actual failing backend outcome on that file's own diff text.
    pub fn analyze_changes(&self, diffs: Vec<FileDiff>) -> (r: Result<
        Vec<FileAnalysis>,
        PipelineError,
    >)
        ensures
            r matches Ok(analyses) ==> analyses@.len() == diffs@.len() && forall|i: int|
                0 <= i < diffs@.len() ==> (#[trigger] analyses@[i]).path@ == diffs@[i].path@
                    && explained_by_backend(self.spec_model(), diffs@[i], analyses@[i]),
            r matches Err(e) ==> diffs@.len() > 0 && exists|i: int|
                0 <= i < diffs@.len() && failure_from_backend(
                    self.spec_model(),
                    #[trigger] diffs@[i],
                    e,
                ),
            diffs@.len() == 0 ==> r is Ok,
    {
        let n = diffs.len();
        let mut outcomes: Vec<Result<String, GenerationError>> = Vec::new();
        let mut i: usize = 0;
        while i < n
            invariant
                n == diffs@.len(),
                i <= n,
                outcomes@.len() == i,
                forall|j: int|
                    0 <= j < i ==> backend_file_outcome(
                        self.spec_model(),
                        diffs@[j].diff_text@,
                        #[trigger] outcomes@[j],
                    ),
            decreases n - i,
        {
            let s = diffs[i].diff_text.as_str();
            let o = self.model.analyze_file_changes(s);
            proof {
                assert(call_ensures(M::analyze_file_changes, (&self.spec_model(), s), o));
                assert(backend_file_outcome(self.spec_model(), diffs@[i as int].diff_text@, o));
            }
            outcomes.push(o);
            i += 1;
        }
        let ghost gdiffs = diffs@;
        let ghost gouts = outcomes@;
        let r = aggregate_analyses(diffs, outcomes);
        proof {
            if r is Ok {
                let analyses = r->Ok_0;
                assert forall|i: int| 0 <= i < gdiffs.len() implies explained_by_backend(
                    self.spec_model(),
                    gdiffs[i],
                    analyses@[i],
                ) by {
                    assert(backend_file_outcome(self.spec_model(), gdiffs[i].diff_text@,
                    gouts[i]));
                    assert(gouts[i] is Ok);
                    assert(analyses@[i].explanation@ == (gouts[i]->Ok_0)@);
                }
            } else {
                let e = r->Err_0;
                let fi = choose|i: int|
                    first_failure_at(gouts, i) && reports_failure_of(gdiffs, gouts, i, e);
                assert(backend_file_outcome(self.spec_model(), gdiffs[fi].diff_text@, gouts[fi]));
                assert(failure_from_backend(self.spec_model(), gdiffs[fi], e));
                assert(0 <= fi < gdiffs.len());
            }
        }
        r
    }
}

} // verus!
