//! Harness for short-lived, single-purpose worker scripts that run inside a
//! chain-of-trust build pipeline.
//!
//! The harness owns everything a concrete worker script shares with its
//! siblings: the typed error taxonomy with its stable exit-code mapping, the
//! generic task/payload model parsed fail-closed from `task.json`, the secure
//! artifact-path resolver, the scope-authorization check, and the run
//! protocol that maps a script's result to a process exit code.

use vstd::prelude::*;

mod error;
pub mod paths;
pub mod json;
pub mod task;
pub mod harness;
pub mod pypi;
pub mod firebase;

pub use error::Error;
pub use task::Task;

verus! {

/// Process-wide execution context, read-only once constructed.
///
/// Owns the path of the working directory that holds `task.json` and the
/// `cot/<task_id>/...` artifact tree. Created once per run, after config and
/// task load, and passed by shared reference to the work function and to
/// artifact-path resolution.
pub struct Context {
    work_dir: String,
}

impl Context {
    /// The working-directory path this context was constructed with.
    pub closed spec fn spec_work_dir(self) -> Seq<char> {
        self.work_dir@
    }

    pub fn new(work_dir: String) -> (ctx: Context)
        ensures
            ctx.spec_work_dir() == work_dir@,
    {
        Context { work_dir }
    }

    pub fn work_dir(&self) -> (dir: &String)
        ensures
            dir@ == self.spec_work_dir(),
    {
        &self.work_dir
    }
}

} // verus!
