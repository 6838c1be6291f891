//! Change-analysis for a version-control repository: a session that holds the
//! active text-generation backend and the current repository path, a pipeline
//! that turns per-file diffs into per-file explanations with a deterministic
//! "wait for all, report the first failure in input order" aggregation policy,
//! and the state machine of the interactive session loop.

pub mod backend;
pub mod errors;
pub mod pipeline;
pub mod session;
pub mod session_loop;
