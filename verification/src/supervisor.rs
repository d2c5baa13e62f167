//! The supervisor's decisions: the phases of the pipeline and how the process ends.
use crate::config::{fault_message, ConfigError, ConfigFault};
use crate::session::{Fault, SessionError};
use vstd::prelude::*;

verus! {

/// The status the process ends with when a fatal error carries no platform code.
pub const GENERIC_FAILURE_STATUS: i32 = 1;

/// The status the process ends with for a fatal error that carries `code`.
pub open spec fn exit_status_of(code: Option<i32>) -> i32 {
    match code {
        Some(c) => c,
        None => GENERIC_FAILURE_STATUS,
    }
}

/// Picks the status the process ends with: the platform code of the error where there is
/// one, else the generic failure status.
pub fn exit_status(code: Option<i32>) -> (status: i32)
    ensures
        status == exit_status_of(code),
{
    match code {
        Some(c) => c,
        None => GENERIC_FAILURE_STATUS,
    }
}

/// A failure to reach the network or the database while starting up.
#[derive(Debug, PartialEq, Eq)]
pub struct ConnectionError {
    /// What went wrong, in words.
    pub description: String,
    /// The platform's status code for it, where there is one.
    pub code: Option<i32>,
}

/// An error that ends the start-up before the listener and the writer exist.
#[derive(Debug, PartialEq, Eq)]
pub enum StartupError {
    /// The settings could not be resolved.
    Config(ConfigError),
    /// The network or the database could not be reached.
    Connection(ConnectionError),
}

/// What a settings fault looks like as a fatal error: its message, and no platform code.
pub open spec fn config_fault(fault: ConfigFault) -> Fault {
    Fault { description: fault_message(fault), code: None }
}

impl View for StartupError {
    type V = Fault;

    open spec fn view(&self) -> Fault {
        match self {
            StartupError::Config(error) => config_fault(error@),
            StartupError::Connection(error) => Fault {
                description: error.description@,
                code: error.code,
            },
        }
    }
}

/// The phase that the pipeline as a whole is in.
#[derive(Clone, Copy, Debug, PartialEq, Eq, Structural)]
pub enum Phase {
    /// Settings are being resolved and connections made.
    Starting,
    /// The listener and the writer are at work.
    Running,
    /// A session failure was received; the process is ending.
    Terminating,
}

/// What the supervisor is told.
pub enum Signal {
    /// Start-up is complete; the listener and the writer are at work.
    Started,
    /// Start-up failed.
    StartupFailed(Fault),
    /// The listener reported that the session failed.
    SessionFailed(Fault),
}

/// What the supervisor's owner has to do, as mathematical values.
pub enum Verdict {
    /// Go on.
    Continue,
    /// Print `message` and end the process with `status`.
    Exit { message: Seq<char>, status: i32 },
}

/// What the supervisor's owner has to do.
#[derive(Debug, PartialEq, Eq)]
pub enum Directive {
    /// Go on.
    Continue,
    /// Print `message` and end the process with `status`.
    Exit { message: String, status: i32 },
}

impl View for Directive {
    type V = Verdict;

    open spec fn view(&self) -> Verdict {
        match self {
            Directive::Continue => Verdict::Continue,
            Directive::Exit { message, status } => Verdict::Exit {
                message: message@,
                status: *status,
            },
        }
    }
}

/// How a fatal error ends the process.
pub open spec fn exit_for(fault: Fault) -> Verdict {
    Verdict::Exit { message: fault.description, status: exit_status_of(fault.code) }
}

/// The supervisor's reaction to one signal: the phase after it and what is to be done.
/// A failure of the start-up ends the process from `Starting`; the first session failure
/// moves `Running` to `Terminating` and ends the process; every other signal is ignored.
pub open spec fn supervise(phase: Phase, signal: Signal) -> (Phase, Verdict) {
    match (phase, signal) {
        (Phase::Starting, Signal::Started) => (Phase::Running, Verdict::Continue),
        (Phase::Starting, Signal::StartupFailed(fault)) => (Phase::Starting, exit_for(fault)),
        (Phase::Running, Signal::SessionFailed(fault)) => (Phase::Terminating, exit_for(fault)),
        _ => (phase, Verdict::Continue),
    }
}

/// The decisions of the main control flow.
#[derive(Debug)]
pub struct Supervisor {
    phase: Phase,
}

impl View for Supervisor {
    type V = Phase;

    closed spec fn view(&self) -> Phase {
        self.phase
    }
}

impl Supervisor {
    /// A supervisor at the beginning of the start-up.
    pub fn new() -> (supervisor: Supervisor)
        ensures
            supervisor@ == Phase::Starting,
    {
        Supervisor { phase: Phase::Starting }
    }

    /// The phase the pipeline is in.
    pub fn phase(&self) -> (phase: Phase)
        ensures
            phase == self@,
    {
        self.phase
    }

    /// Takes note that the start-up is complete.
    pub fn started(&mut self) -> (directive: Directive)
        ensures
            (final(self)@, directive@) == supervise(old(self)@, Signal::Started),
    {
        if self.phase == Phase::Starting {
            self.phase = Phase::Running;
        }
        Directive::Continue
    }

    /// Decides how the process ends after a failed start-up.
    pub fn startup_failed(&mut self, error: StartupError) -> (directive: Directive)
        ensures
            (final(self)@, directive@) == supervise(old(self)@, Signal::StartupFailed(error@)),
    {
        if self.phase == Phase::Starting {
            match error {
                StartupError::Config(error) => Directive::Exit {
                    message: error.message(),
                    status: exit_status(None),
                },
                StartupError::Connection(error) => Directive::Exit {
                    message: error.description,
                    status: exit_status(error.code),
                },
            }
        } else {
            Directive::Continue
        }
    }

    /// Decides how the process ends after the listener reported a session failure.
    pub fn session_failed(&mut self, error: SessionError) -> (directive: Directive)
        ensures
            (final(self)@, directive@) == supervise(old(self)@, Signal::SessionFailed(error@)),
    {
        if self.phase == Phase::Running {
            self.phase = Phase::Terminating;
            Directive::Exit { message: error.description, status: exit_status(error.code) }
        } else {
            Directive::Continue
        }
    }
}

/// The phase after a sequence of signals, from `Starting` on.
pub open spec fn phase_after(signals: Seq<Signal>) -> Phase
    decreases signals.len(),
{
    if signals.len() == 0 {
        Phase::Starting
    } else {
        supervise(phase_after(signals.drop_last()), signals.last()).0
    }
}

/// The signal at position `i` moves the pipeline into `Terminating`.
pub open spec fn enters_terminating(signals: Seq<Signal>, i: int) -> bool {
    &&& 0 <= i < signals.len()
    &&& phase_after(signals.take(i)) != Phase::Terminating
    &&& phase_after(signals.take(i + 1)) == Phase::Terminating
}

/// Only a session failure that arrives while the pipeline is running moves it into
/// `Terminating`, and it ends the process with the status of that failure.
pub proof fn lemma_terminating_needs_session_failure(phase: Phase, signal: Signal)
    requires
        phase != Phase::Terminating,
        supervise(phase, signal).0 == Phase::Terminating,
    ensures
        phase == Phase::Running,
        signal matches Signal::SessionFailed(fault) && supervise(phase, signal).1 == (
        Verdict::Exit { message: fault.description, status: exit_status_of(fault.code) }),
{
}

/// A process that ends on a fatal error ends with the error's platform code, or with a
/// status that is not zero where the error has none.
pub proof fn lemma_exit_status_is_code_or_nonzero(code: Option<i32>)
    ensures
        code matches Some(c) ==> exit_status_of(code) == c,
        code is None ==> exit_status_of(code) != 0,
{
}

/// `Terminating` is never left.
pub proof fn lemma_terminating_is_final(signals: Seq<Signal>, k: int)
    requires
        0 <= k <= signals.len(),
        phase_after(signals.take(k)) == Phase::Terminating,
    ensures
        phase_after(signals) == Phase::Terminating,
    decreases signals.len(),
{
    if k == signals.len() {
        assert(signals.take(k) =~= signals);
    } else {
        assert(signals.drop_last().take(k) =~= signals.take(k));
        lemma_terminating_is_final(signals.drop_last(), k);
    }
}

/// `Terminating` is entered at most once.
pub proof fn lemma_terminating_is_entered_once(signals: Seq<Signal>, i: int, j: int)
    requires
        enters_terminating(signals, i),
        enters_terminating(signals, j),
    ensures
        i == j,
{
    if i < j {
        assert(signals.take(j).take(i + 1) =~= signals.take(i + 1));
        lemma_terminating_is_final(signals.take(j), i + 1);
    } else if j < i {
        assert(signals.take(i).take(j + 1) =~= signals.take(j + 1));
        lemma_terminating_is_final(signals.take(i), j + 1);
    }
}

} // verus!
