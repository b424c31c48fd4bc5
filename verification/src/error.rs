//! Error taxonomy of the debugger core.

use vstd::prelude::*;

verus! {

/// Every failure the process-control core can report.
///
/// `InvalidIdentifier` is a user-input error raised before any OS call is
/// made; the acquisition-time errors (`AttachFailed`, `ForkFailed`,
/// `LaunchFailed`) never leave a usable controller behind; `ResumeFailed`,
/// `UnexpectedWaitStatus` and `WaitFailed` are mid-session failures that are
/// fatal to the interactive session.
#[derive(Debug, Clone, PartialEq, Eq)]
pub enum DebugError {
    /// The textual process identifier was not a positive integer.
    InvalidIdentifier,
    /// The OS refused the trace-attach request; carries the OS reason.
    AttachFailed(String),
    /// The fork system call itself failed; carries the OS reason.
    ForkFailed(String),
    /// The launched child reported a trace-request or exec failure through
    /// the error channel before it could become the target program.
    LaunchFailed(String),
    /// The OS refused to let the stopped target continue.
    ResumeFailed(String),
    /// The wait returned a status this core does not model.
    UnexpectedWaitStatus,
    /// The wait system call itself failed; the target state is unknown.
    WaitFailed(String),
}

impl DebugError {
    /// The one-line diagnostic text of this error.
    pub open spec fn message_spec(&self) -> Seq<char> {
        match self {
            DebugError::InvalidIdentifier => "invalid process identifier: not a positive integer"@,
            DebugError::AttachFailed(m) => m@,
            DebugError::ForkFailed(m) => m@,
            DebugError::LaunchFailed(m) => m@,
            DebugError::ResumeFailed(m) => m@,
            DebugError::UnexpectedWaitStatus => "unexpected wait status"@,
            DebugError::WaitFailed(m) => m@,
        }
    }

    /// Renders the one-line diagnostic for the error stream.
    pub fn message(&self) -> (r: String)
        ensures
            r@ == self.message_spec(),
    {
        match self {
            DebugError::InvalidIdentifier => "invalid process identifier: not a positive integer".to_owned(),
            DebugError::AttachFailed(m) => m.as_str().to_owned(),
            DebugError::ForkFailed(m) => m.as_str().to_owned(),
            DebugError::LaunchFailed(m) => m.as_str().to_owned(),
            DebugError::ResumeFailed(m) => m.as_str().to_owned(),
            DebugError::UnexpectedWaitStatus => "unexpected wait status".to_owned(),
            DebugError::WaitFailed(m) => m.as_str().to_owned(),
        }
    }
}

} // verus!
