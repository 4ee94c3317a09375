use vstd::prelude::*;

verus! {

/// Closed failure taxonomy shared by the harness and every worker script.
///
/// Each kind maps to a distinct, stable process exit code so the surrounding
/// worker pool can branch on the outcome without parsing messages. Only
/// `MalformedPayload` (a bad or malicious task description) and
/// `InternalError` (a harness or environment fault) carry a free-text
/// diagnostic.
#[derive(Clone, Debug)]
pub enum Error {
    Failure,
    WorkerShutdown,
    MalformedPayload(String),
    ResourceUnavailable,
    InternalError(String),
    Superseded,
    IntermittentTask,
}

impl Error {
    /// The stable exit code of each failure kind.
    pub open spec fn spec_exit_code(self) -> int {
        match self {
            Error::Failure => 1,
            Error::WorkerShutdown => 2,
            Error::MalformedPayload(_) => 3,
            Error::ResourceUnavailable => 4,
            Error::InternalError(_) => 5,
            Error::Superseded => 6,
            Error::IntermittentTask => 7,
        }
    }

    /// The short machine-readable name of each failure kind.
    pub open spec fn spec_description(self) -> Seq<char> {
        match self {
            Error::Failure => "failure"@,
            Error::WorkerShutdown => "worker-shutdown"@,
            Error::MalformedPayload(_) => "malformed-payload"@,
            Error::ResourceUnavailable => "resource-unavailable"@,
            Error::InternalError(_) => "internal-error"@,
            Error::Superseded => "superseded"@,
            Error::IntermittentTask => "intermittent-task"@,
        }
    }

    /// The diagnostic message carried by this error, if its kind carries one.
    pub open spec fn spec_message(self) -> Option<Seq<char>> {
        match self {
            Error::MalformedPayload(m) => Some(m@),
            Error::InternalError(m) => Some(m@),
            _ => None,
        }
    }

    /// Maps this error to the process exit code the orchestrator contract fixes
    /// for its kind.
    pub fn exit_code(self) -> (code: i32)
        ensures
            code == self.spec_exit_code(),
    {
        match self {
            Error::Failure => 1,
            Error::WorkerShutdown => 2,
            Error::MalformedPayload(_) => 3,
            Error::ResourceUnavailable => 4,
            Error::InternalError(_) => 5,
            Error::Superseded => 6,
            Error::IntermittentTask => 7,
        }
    }

    /// The short name of this error's kind.
    pub fn description(self) -> (name: &'static str)
        ensures
            name@ == self.spec_description(),
    {
        match self {
            Error::Failure => "failure",
            Error::WorkerShutdown => "worker-shutdown",
            Error::MalformedPayload(_) => "malformed-payload",
            Error::ResourceUnavailable => "resource-unavailable",
            Error::InternalError(_) => "internal-error",
            Error::Superseded => "superseded",
            Error::IntermittentTask => "intermittent-task",
        }
    }
}

} // verus!
