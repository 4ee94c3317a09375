//! The run protocol: the sequential states every script invocation moves
//! through — load configuration, load the task description, dispatch the work
//! function, terminate — and the mapping from its result to the process exit
//! code the orchestrator branches on.
//!
//! The harness itself is pure decision logic: the surrounding binary reads
//! the two files, hands their contents here, runs the planned work, and
//! terminates the process with the code this module computes.

use vstd::prelude::*;

use crate::error::Error;
use crate::task::Fields;
use crate::task::Task;
use crate::task::parse_task;
use crate::task::spec_task_of_text;

verus! {

/// How a run terminates: the process exit code, and the diagnostic to write
/// to standard output first, for the error kinds that carry one.
pub struct RunOutcome {
    pub code: i32,
    pub message: Option<String>,
}

/// Maps a work function's result to the terminating outcome: exit code 0 on
/// success, the error kind's stable exit code otherwise, with the diagnostic
/// of `MalformedPayload` and `InternalError` passed along to be printed.
pub fn run_outcome(result: Result<(), Error>) -> (outcome: RunOutcome)
    ensures
        match result {
            Ok(()) => outcome.code == 0 && outcome.message is None,
            Err(e) => outcome.code == e.spec_exit_code() && match e.spec_message() {
                Some(m) => outcome.message matches Some(printed) && printed@ == m,
                None => outcome.message is None,
            },
        },
{
    match result {
        Ok(()) => RunOutcome { code: 0, message: None },
        Err(err) => {
            let message = match &err {
                Error::MalformedPayload(m) => Some(m.clone()),
                Error::InternalError(m) => Some(m.clone()),
                _ => None,
            };
            RunOutcome { code: err.exit_code(), message }
        }
    }
}

/// Loads the task description from the contents of `work_dir/task.json`.
/// `None` stands for a file that could not be opened: an environment fault
/// (`InternalError`); contents that fail to parse are a payload fault
/// (`MalformedPayload`) — the two have different operational meaning.
pub fn load_task(contents: Option<&str>) -> (loaded: Result<Task<Fields, Fields>, Error>)
    ensures
        match contents {
            None => loaded matches Err(e) && e matches Error::InternalError(m) && m@
                == "Could not open task definition."@,
            Some(text) => match loaded {
                Ok(t) => spec_task_of_text(text@) == Some(t.deep_view()),
                Err(e) => spec_task_of_text(text@) is None && e is MalformedPayload,
            },
        },
{
    match contents {
        None => Err(
            Error::InternalError(String::from_str("Could not open task definition.")),
        ),
        Some(text) => parse_task(text),
    }
}

} // verus!
