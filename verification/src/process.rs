//! The traced-process controller.
//!
//! A `Process` owns trace authority over one OS process: the identifier of
//! the target, whether this controller created it (and must terminate it on
//! cleanup), and where the target stands in the run-state machine. The
//! controller is acquired by `attach` (or by the launch protocol, whose
//! OS-side half hands its observations to `launch_outcome`), driven by
//! `dispatch_command`, and releases the target through the cleanup protocol
//! that its destructor runs unconditionally.

use vstd::prelude::*;

use crate::command::{command_is_continue, is_continue_command};
use crate::error::DebugError;
use crate::os::{ptrace_attach, ptrace_cont, ptrace_detach, send_signal, wait_for};
use crate::os::{SignalKind, WaitEvent};
use crate::parse::{integer_text_value, is_valid_pid_text, parse_pid_text};

verus! {

/// Where the target stands in the run-state machine. `Exited` and
/// `Terminated` are terminal: no transition leaves them.
#[derive(Clone, Copy, PartialEq, Eq, Structural, Debug)]
pub enum ProcessState {
    /// The target is suspended and safe to inspect.
    Stopped,
    /// The target is executing; the debugger has no safe access to it.
    Running,
    /// The target ran to normal completion.
    Exited,
    /// The target ended abnormally, or a wait failed and it is
    /// unknown-but-dead.
    Terminated,
}

/// Mathematical model of a controller: the identifier, whether this
/// controller is responsible for terminating the target, and the run state.
pub struct ProcessModel {
    /// OS process identifier of the target; positive, fixed at creation.
    pub pid: int,
    /// True when this controller created the process and must terminate it
    /// on cleanup; false when it merely attached to a pre-existing process.
    pub owns_lifecycle: bool,
    /// Position in the run-state machine.
    pub run_state: ProcessState,
}

/// A controlled handle over one traced OS process.
pub struct Process {
    pid: i32,
    terminate_on_end: bool,
    process_state: ProcessState,
}

impl View for Process {
    type V = ProcessModel;

    closed spec fn view(&self) -> ProcessModel {
        ProcessModel {
            pid: self.pid as int,
            owns_lifecycle: self.terminate_on_end,
            run_state: self.process_state,
        }
    }
}

/// What one dispatched command line came to.
pub enum CommandOutcome {
    /// The line's first token selects no supported command; nothing was
    /// done and no state changed.
    UnknownCommand,
    /// The target was resumed and has stopped again under the given signal
    /// number.
    TargetStopped(i32),
    /// The resume or the following wait failed; the error says which.
    CommandFailed(DebugError),
}

/// What the cleanup protocol does to a controller's model: the identifier
/// and the ownership flag are untouched; a target already past a terminal
/// state stays where it was; otherwise an owned target is terminated and a
/// merely-attached one is left running under its own authority.
pub open spec fn cleanup_model(m: ProcessModel) -> ProcessModel {
    ProcessModel {
        pid: m.pid,
        owns_lifecycle: m.owns_lifecycle,
        run_state: if m.run_state is Exited || m.run_state is Terminated {
            m.run_state
        } else if m.owns_lifecycle {
            ProcessState::Terminated
        } else {
            ProcessState::Running
        },
    }
}

/// The cleanup protocol is idempotent: running it against a controller it
/// has already released — in particular one whose target has already
/// exited — changes nothing further.
pub proof fn lemma_cleanup_idempotent(m: ProcessModel)
    ensures
        cleanup_model(cleanup_model(m)) == cleanup_model(m),
{
}

impl Process {
    #[verifier::type_invariant]
    spec fn identifier_positive(self) -> bool {
        self.pid > 0
    }

    /// Builds a controller over the given target. The identifier must be a
    /// real (positive) process identifier.
    pub fn new(pid: i32, terminate_on_end: bool, process_state: ProcessState) -> (r: Process)
        requires
            pid > 0,
        ensures
            r@.pid == pid as int,
            r@.owns_lifecycle == terminate_on_end,
            r@.run_state == process_state,
    {
        Process { pid, terminate_on_end, process_state }
    }

    /// The target's OS process identifier.
    pub fn pid(&self) -> (r: i32)
        ensures
            r as int == self@.pid,
            r > 0,
    {
        proof {
            use_type_invariant(&*self);
        }
        self.pid
    }

    /// Where the target stands in the run-state machine.
    pub fn state(&self) -> (r: ProcessState)
        ensures
            r == self@.run_state,
    {
        self.process_state
    }

    /// What `attach` returns for each possible answer of the OS trace
    /// facility: a controller that does not own the target's lifecycle on
    /// success, the OS reason wrapped as `AttachFailed` otherwise.
    pub fn attach_outcome(pid: i32, os_result: Result<(), String>) -> (r: Result<
        Process,
        DebugError,
    >)
        requires
            pid > 0,
        ensures
            match os_result {
                Ok(_) => r is Ok && r->Ok_0@.pid == pid as int && !r->Ok_0@.owns_lifecycle
                    && r->Ok_0@.run_state is Running,
                Err(m) => r == Err::<Process, DebugError>(DebugError::AttachFailed(m)),
            },
    {
        match os_result {
            Ok(_) => Ok(Process::new(pid, false, ProcessState::Running)),
            Err(m) => Err(DebugError::AttachFailed(m)),
        }
    }

    /// Validates a textual identifier and places that process under trace
    /// control.
    ///
    /// Text that is not a positive integer is rejected as
    /// `InvalidIdentifier` before any OS call is made. For a valid
    /// identifier the OS decides: on success the controller starts in
    /// `Running` (the caller must wait for the attach-time stop before
    /// trusting `Stopped`), and the target's lifecycle is not owned; on
    /// refusal the error is `AttachFailed` with the OS reason.
    pub fn attach(pid_arg: &str) -> (r: Result<Process, DebugError>)
        ensures
            (r is Err && r->Err_0 is InvalidIdentifier) <==> !is_valid_pid_text(pid_arg@),
            r is Ok ==> r->Ok_0@.pid == integer_text_value(pid_arg@)
                && !r->Ok_0@.owns_lifecycle && r->Ok_0@.run_state is Running,
            r is Err ==> r->Err_0 is InvalidIdentifier || r->Err_0 is AttachFailed,
    {
        match parse_pid_text(pid_arg) {
            None => Err(DebugError::InvalidIdentifier),
            Some(pid) => Self::attach_outcome(pid, ptrace_attach(pid)),
        }
    }

    /// What launching comes to once the OS-side work is done.
    ///
    /// The launch protocol forks a child that requests tracing and execs
    /// the target behind a close-on-exec error channel; the parent reads
    /// that channel. An empty report means the channel closed because the
    /// exec succeeded: the child is the target, and the controller owns its
    /// lifecycle. A nonempty report is the child's diagnostic for a failed
    /// trace request or exec: the child has already terminated itself, so
    /// the failure is `LaunchFailed` carrying the diagnostic, and the
    /// short-lived controller built here is dropped so that the cleanup
    /// protocol reaps the dead child.
    pub fn launch_outcome(child_pid: i32, report: String) -> (r: Result<Process, DebugError>)
        requires
            child_pid > 0,
        ensures
            report@.len() == 0 ==> r is Ok && r->Ok_0@.pid == child_pid as int
                && r->Ok_0@.owns_lifecycle && r->Ok_0@.run_state is Running,
            report@.len() > 0 ==> r == Err::<Process, DebugError>(DebugError::LaunchFailed(report)),
    {
        if report.as_str().unicode_len() == 0 {
            Ok(Process::new(child_pid, true, ProcessState::Running))
        } else {
            // the child signalled failure and self-terminated; dropping the
            // owning controller runs the cleanup protocol, which reaps it
            let doomed = Process::new(child_pid, true, ProcessState::Running);
            let _ = doomed;
            Err(DebugError::LaunchFailed(report))
        }
    }

    /// Requests that the OS let the target continue executing.
    ///
    /// Valid only while the target is `Stopped` (or still `Running` right
    /// after acquisition). On success the target is `Running`; on OS
    /// refusal the state is unchanged and the error is `ResumeFailed`,
    /// which is fatal to the interactive session.
    pub fn resume(&mut self) -> (r: Result<(), DebugError>)
        requires
            old(self)@.run_state is Running || old(self)@.run_state is Stopped,
        ensures
            final(self)@.pid == old(self)@.pid,
            final(self)@.owns_lifecycle == old(self)@.owns_lifecycle,
            r is Ok ==> final(self)@.run_state is Running,
            r is Err ==> r->Err_0 is ResumeFailed && final(self)@.run_state == old(self)@.run_state,
    {
        proof {
            use_type_invariant(&*self);
        }
        match ptrace_cont(self.pid) {
            Ok(_) => {
                self.process_state = ProcessState::Running;
                Ok(())
            },
            Err(m) => Err(DebugError::ResumeFailed(m)),
        }
    }

    /// What one wait observation does to the state machine.
    ///
    /// A stop under a signal suspends the target: state `Stopped`, signal
    /// returned. Any other status is one this core does not model: state is
    /// forced to `Exited` and the session-fatal `UnexpectedWaitStatus` is
    /// reported. A failure of the wait itself leaves the target
    /// unknown-but-dead: state `Terminated`, error `WaitFailed`.
    pub fn apply_wait(&mut self, observed: Result<WaitEvent, String>) -> (r: Result<
        i32,
        DebugError,
    >)
        requires
            old(self)@.run_state is Running,
        ensures
            final(self)@.pid == old(self)@.pid,
            final(self)@.owns_lifecycle == old(self)@.owns_lifecycle,
            match observed {
                Ok(WaitEvent::Stopped(sig)) => r == Ok::<i32, DebugError>(sig) && final(self)@.run_state is Stopped,
                Ok(_) => r == Err::<i32, DebugError>(DebugError::UnexpectedWaitStatus) && final(self)@.run_state is Exited,
                Err(m) => r == Err::<i32, DebugError>(DebugError::WaitFailed(m)) && final(self)@.run_state is Terminated,
            },
    {
        proof {
            use_type_invariant(&*self);
        }
        match observed {
            Ok(WaitEvent::Stopped(sig)) => {
                self.process_state = ProcessState::Stopped;
                Ok(sig)
            },
            Ok(_) => {
                self.process_state = ProcessState::Exited;
                Err(DebugError::UnexpectedWaitStatus)
            },
            Err(m) => {
                self.process_state = ProcessState::Terminated;
                Err(DebugError::WaitFailed(m))
            },
        }
    }

    /// Blocks until the OS reports a status change for the target and
    /// applies that observation to the state machine, as `apply_wait`
    /// states.
    pub fn wait_on_signal(&mut self) -> (r: Result<i32, DebugError>)
        requires
            old(self)@.run_state is Running,
        ensures
            final(self)@.pid == old(self)@.pid,
            final(self)@.owns_lifecycle == old(self)@.owns_lifecycle,
            match r {
                Ok(_) => final(self)@.run_state is Stopped,
                Err(e) => (e is UnexpectedWaitStatus && final(self)@.run_state is Exited) || (
                e is WaitFailed && final(self)@.run_state is Terminated),
            },
    {
        proof {
            use_type_invariant(&*self);
        }
        let observed = wait_for(self.pid);
        self.apply_wait(observed)
    }

    /// Dispatches one line of interactive input.
    ///
    /// The line's first whitespace-separated token is matched as a prefix
    /// of the command name `continue`. A line without such a token changes
    /// nothing and is reported as unknown. A matching line resumes the
    /// target and waits for it to stop again; if either step fails, the
    /// failure is handed back for the session to report (and, for a resume
    /// failure, to end on).
    pub fn dispatch_command(&mut self, command: &str) -> (r: CommandOutcome)
        requires
            old(self)@.run_state is Running || old(self)@.run_state is Stopped,
        ensures
            final(self)@.pid == old(self)@.pid,
            final(self)@.owns_lifecycle == old(self)@.owns_lifecycle,
            !is_continue_command(command@) ==> r is UnknownCommand && final(self)@ == old(self)@,
            is_continue_command(command@) ==> match r {
                CommandOutcome::UnknownCommand => false,
                CommandOutcome::TargetStopped(_) => final(self)@.run_state is Stopped,
                CommandOutcome::CommandFailed(e) => (e is ResumeFailed && final(self)@.run_state
                    == old(self)@.run_state) || (e is UnexpectedWaitStatus && final(self)@.run_state is Exited) || (e is WaitFailed && final(self)@.run_state is Terminated),
            },
    {
        if !command_is_continue(command) {
            return CommandOutcome::UnknownCommand;
        }
        match self.resume() {
            Err(e) => CommandOutcome::CommandFailed(e),
            Ok(_) => match self.wait_on_signal() {
                Ok(sig) => CommandOutcome::TargetStopped(sig),
                Err(e) => CommandOutcome::CommandFailed(e),
            },
        }
    }

    /// The cleanup protocol, run when control over the target is
    /// relinquished.
    ///
    /// In order: stop the target if it is running (so the detach below
    /// observes a consistent state), release trace authority, resume the
    /// target's own execution, and — only when this controller owns the
    /// lifecycle — forcibly terminate the target and synchronously collect
    /// its termination status so no zombie is left. Every step tolerates
    /// failure and never blocks a later step, so running the protocol
    /// against a target that has already exited returns normally.
    pub fn cleanup(&mut self)
        ensures
            final(self)@ == cleanup_model(old(self)@),
        opens_invariants none
        no_unwind
    {
        proof {
            use_type_invariant(&*self);
        }
        if let ProcessState::Running = self.process_state {
            let _ = send_signal(self.pid, SignalKind::Stop);
        }
        let _ = ptrace_detach(self.pid);
        let _ = send_signal(self.pid, SignalKind::Cont);
        if self.terminate_on_end {
            match send_signal(self.pid, SignalKind::Kill) {
                Ok(_) => {
                    let _ = wait_for(self.pid);
                },
                Err(_) => {},
            }
            match self.process_state {
                ProcessState::Exited => {},
                ProcessState::Terminated => {},
                _ => {
                    self.process_state = ProcessState::Terminated;
                },
            }
        } else {
            match self.process_state {
                ProcessState::Exited => {},
                ProcessState::Terminated => {},
                _ => {
                    self.process_state = ProcessState::Running;
                },
            }
        }
    }
}

impl Drop for Process {
    /// Releasing the controller, however its owning scope ends, runs the
    /// cleanup protocol exactly once.
    fn drop(&mut self)
        opens_invariants none
        no_unwind
    {
        self.cleanup();
    }
}

} // verus!
