//! Trusted boundary to the OS trace, signal and wait facilities.
//!
//! Every function here wraps exactly one call into the `nix` crate. Whether
//! such a call succeeds depends on the state of the machine (which processes
//! exist, what privilege the caller holds, what the target is doing), so no
//! wrapper promises a particular outcome; the verified callers state what
//! holds whichever outcome comes back. Each wrapper demands a positive
//! identifier, since non-positive values address whole process groups.

use vstd::prelude::*;

verus! {

/// The signals the cleanup protocol and the controller send.
#[derive(Clone, Copy, Debug)]
pub enum SignalKind {
    /// Suspend the target's scheduling.
    Stop,
    /// Resume the target's scheduling.
    Cont,
    /// Forcibly terminate the target.
    Kill,
}

/// What one wait observed of the target, with OS handle types replaced by
/// plain values.
#[derive(Clone, Copy, PartialEq, Eq, Structural, Debug)]
pub enum WaitEvent {
    /// The target is alive but was stopped by the given signal number.
    Stopped(i32),
    /// The target exited normally with the given exit code.
    Exited(i32),
    /// The target was killed by the given signal number.
    Signaled(i32),
    /// A status this core does not model (trace events, continuation, ...).
    Other,
}

/// Relies on `nix::sys::ptrace::attach`: issues `PTRACE_ATTACH` for the
/// given identifier, making that process a tracee of the caller; the error
/// carries the OS reason. Success depends on the machine's state, so
/// nothing is promised of the outcome.
#[verifier::external_body]
pub(crate) fn ptrace_attach(pid: i32) -> (r: Result<(), String>)
    requires
        pid > 0,
{
    match nix::sys::ptrace::attach(nix::unistd::Pid::from_raw(pid)) {
        Ok(()) => Ok(()),
        Err(e) => Err(format!("failed to attach: {}", e)),
    }
}

/// Relies on `nix::sys::ptrace::detach`: issues `PTRACE_DETACH` for the
/// given identifier without delivering a signal, releasing trace authority.
/// Nothing is promised of the outcome.
#[verifier::external_body]
pub(crate) fn ptrace_detach(pid: i32) -> (r: Result<(), String>)
    requires
        pid > 0,
    opens_invariants none
    no_unwind
{
    match nix::sys::ptrace::detach(nix::unistd::Pid::from_raw(pid), None) {
        Ok(()) => Ok(()),
        Err(e) => Err(format!("failed to detach: {}", e)),
    }
}

/// Relies on `nix::sys::ptrace::cont`: issues `PTRACE_CONT` for the given
/// identifier without delivering a signal, letting the stopped tracee run.
/// Nothing is promised of the outcome.
#[verifier::external_body]
pub(crate) fn ptrace_cont(pid: i32) -> (r: Result<(), String>)
    requires
        pid > 0,
    opens_invariants none
    no_unwind
{
    match nix::sys::ptrace::cont(nix::unistd::Pid::from_raw(pid), None) {
        Ok(()) => Ok(()),
        Err(e) => Err(format!("could not continue: {}", e)),
    }
}

/// Relies on `nix::sys::signal::kill`: sends the chosen signal to the
/// process with the given identifier. Nothing is promised of the outcome.
#[verifier::external_body]
pub(crate) fn send_signal(pid: i32, sig: SignalKind) -> (r: Result<(), String>)
    requires
        pid > 0,
    opens_invariants none
    no_unwind
{
    let signal = match sig {
        SignalKind::Stop => nix::sys::signal::Signal::SIGSTOP,
        SignalKind::Cont => nix::sys::signal::Signal::SIGCONT,
        SignalKind::Kill => nix::sys::signal::Signal::SIGKILL,
    };
    match nix::sys::signal::kill(nix::unistd::Pid::from_raw(pid), signal) {
        Ok(()) => Ok(()),
        Err(e) => Err(format!("kill failed: {}", e)),
    }
}

/// Relies on `nix::sys::wait::waitpid`: blocks until the OS reports a status
/// change for the given identifier, and hands the status back with each
/// variant's fields as plain values. Nothing is promised of the outcome.
#[verifier::external_body]
pub(crate) fn wait_for(pid: i32) -> (r: Result<WaitEvent, String>)
    requires
        pid > 0,
    opens_invariants none
    no_unwind
{
    match nix::sys::wait::waitpid(nix::unistd::Pid::from_raw(pid), None) {
        Ok(nix::sys::wait::WaitStatus::Stopped(_, sig)) => Ok(WaitEvent::Stopped(sig as i32)),
        Ok(nix::sys::wait::WaitStatus::Exited(_, code)) => Ok(WaitEvent::Exited(code)),
        Ok(nix::sys::wait::WaitStatus::Signaled(_, sig, _)) => Ok(WaitEvent::Signaled(sig as i32)),
        Ok(_) => Ok(WaitEvent::Other),
        Err(e) => Err(format!("waitpid failed: {}", e)),
    }
}

} // verus!
