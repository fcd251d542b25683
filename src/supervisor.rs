use vstd::prelude::*;

use crate::policy::RetryPolicy;
use vstd::string::StringExecFns;

verus! {

/// Where the supervisor stands in the backend's life.
#[derive(Clone, Copy, Debug, PartialEq, Eq, Structural)]
pub enum SupervisorState {
    NotStarted,
    Launching,
    WaitingForReady,
    Ready,
    ShuttingDown,
    Terminated,
}

/// A failure that ends startup and must be shown to the user.
#[derive(Clone, Copy, Debug, PartialEq, Eq, Structural)]
pub enum Fault {
    /// The backend could not be started.
    LaunchFailed,
    /// The backend started but never accepted a connection.
    ReadinessTimeout,
}

/// How the shutdown request ended; either way the shell goes on closing.
#[derive(Clone, Copy, Debug, PartialEq, Eq, Structural)]
pub enum ShutdownOutcome {
    Acknowledged,
    Unreachable,
}

/// What the shell and the outside world report to the supervisor.
#[derive(Clone, Copy, Debug, PartialEq, Eq, Structural)]
pub enum Event {
    AppStarted,
    LaunchSucceeded,
    LaunchFailed,
    ProbeSucceeded,
    ProbeFailed,
    SleepElapsed,
    CloseRequested,
    NotifierReturned(ShutdownOutcome),
}

/// What the supervisor asks its driver to do next.
#[derive(Clone, Copy, Debug, PartialEq, Eq, Structural)]
pub enum Action {
    Nothing,
    /// Spawn the backend executable.
    Launch,
    /// Try one connection to the backend endpoint.
    Connect,
    /// Wait this many milliseconds, then report `SleepElapsed`.
    Sleep(u64),
    /// Show the main window, and close the loading window if asked.
    Reveal { hide_loading: bool },
    /// Show the fault to the user and abort.
    Fatal(Fault),
    /// Send the backend its shutdown request.
    NotifyShutdown,
    /// Let the process exit.
    Exit,
}

/// The single authority over the backend's lifecycle. It performs no I/O:
/// each event yields the next state and one action for the driver to carry out.
#[derive(Clone, Copy, Debug, PartialEq, Eq, Structural)]
pub struct Supervisor {
    pub policy: RetryPolicy,
    /// Whether the shell shows a loading window until the backend is ready.
    pub has_loading_surface: bool,
    pub state: SupervisorState,
    /// Probe attempts that have failed so far.
    pub attempts: u32,
    /// Whether a wait between two probe attempts is under way.
    pub sleeping: bool,
}

impl Supervisor {
    pub open spec fn wf(self) -> bool {
        &&& self.attempts <= self.policy.max_attempts
        &&& (self.state == SupervisorState::WaitingForReady && !self.sleeping)
            ==> self.attempts < self.policy.max_attempts
    }
}

/// The transition table: the supervisor after `e`, and the action it asks for.
/// An event that the table does not list for the current state changes nothing.
pub open spec fn step(s: Supervisor, e: Event) -> (Supervisor, Action) {
    let unchanged = (s, Action::Nothing);
    match e {
        Event::AppStarted => if s.state == SupervisorState::NotStarted {
            (Supervisor { state: SupervisorState::Launching, ..s }, Action::Launch)
        } else {
            unchanged
        },
        Event::LaunchSucceeded => if s.state == SupervisorState::Launching {
            if s.policy.max_attempts == 0 {
                (
                    Supervisor { state: SupervisorState::Terminated, ..s },
                    Action::Fatal(Fault::ReadinessTimeout),
                )
            } else {
                (
                    Supervisor {
                        state: SupervisorState::WaitingForReady,
                        attempts: 0,
                        sleeping: false,
                        ..s
                    },
                    Action::Connect,
                )
            }
        } else {
            unchanged
        },
        Event::LaunchFailed => if s.state == SupervisorState::Launching {
            (
                Supervisor { state: SupervisorState::Terminated, ..s },
                Action::Fatal(Fault::LaunchFailed),
            )
        } else {
            unchanged
        },
        Event::ProbeSucceeded => if s.state == SupervisorState::WaitingForReady && !s.sleeping {
            (
                Supervisor { state: SupervisorState::Ready, ..s },
                Action::Reveal { hide_loading: s.has_loading_surface },
            )
        } else {
            unchanged
        },
        Event::ProbeFailed => if s.state == SupervisorState::WaitingForReady && !s.sleeping {
            (
                Supervisor { attempts: (s.attempts + 1) as u32, sleeping: true, ..s },
                Action::Sleep(s.policy.interval_ms),
            )
        } else {
            unchanged
        },
        Event::SleepElapsed => if s.state == SupervisorState::WaitingForReady && s.sleeping {
            if s.attempts >= s.policy.max_attempts {
                (
                    Supervisor { state: SupervisorState::Terminated, sleeping: false, ..s },
                    Action::Fatal(Fault::ReadinessTimeout),
                )
            } else {
                (Supervisor { sleeping: false, ..s }, Action::Connect)
            }
        } else {
            unchanged
        },
        Event::CloseRequested => if s.state == SupervisorState::Ready {
            (Supervisor { state: SupervisorState::ShuttingDown, ..s }, Action::NotifyShutdown)
        } else {
            unchanged
        },
        Event::NotifierReturned(_) => if s.state == SupervisorState::ShuttingDown {
            (Supervisor { state: SupervisorState::Terminated, ..s }, Action::Exit)
        } else {
            unchanged
        },
    }
}

impl Supervisor {
    /// A supervisor that has not launched anything yet.
    pub fn new(policy: RetryPolicy, has_loading_surface: bool) -> (r: Supervisor)
        ensures
            r.wf(),
            r.policy == policy,
            r.has_loading_surface == has_loading_surface,
            r.state == SupervisorState::NotStarted,
            r.attempts == 0,
            !r.sleeping,
    {
        Supervisor {
            policy,
            has_loading_surface,
            state: SupervisorState::NotStarted,
            attempts: 0,
            sleeping: false,
        }
    }

    pub fn state(&self) -> (r: SupervisorState)
        ensures
            r == self.state,
    {
        self.state
    }

    /// Applies one event and returns the action that the driver must carry out.
    pub fn handle(&mut self, e: Event) -> (r: Action)
        requires
            old(self).wf(),
        ensures
            final(self).wf(),
            (*final(self), r) == step(*old(self), e),
    {
        let s = *self;
        match e {
            Event::AppStarted => {
                if s.state == SupervisorState::NotStarted {
                    self.state = SupervisorState::Launching;
                    return Action::Launch;
                }
            },
            Event::LaunchSucceeded => {
                if s.state == SupervisorState::Launching {
                    if s.policy.max_attempts == 0 {
                        self.state = SupervisorState::Terminated;
                        return Action::Fatal(Fault::ReadinessTimeout);
                    }
                    self.state = SupervisorState::WaitingForReady;
                    self.attempts = 0;
                    self.sleeping = false;
                    return Action::Connect;
                }
            },
            Event::LaunchFailed => {
                if s.state == SupervisorState::Launching {
                    self.state = SupervisorState::Terminated;
                    return Action::Fatal(Fault::LaunchFailed);
                }
            },
            Event::ProbeSucceeded => {
                if s.state == SupervisorState::WaitingForReady && !s.sleeping {
                    self.state = SupervisorState::Ready;
                    return Action::Reveal { hide_loading: s.has_loading_surface };
                }
            },
            Event::ProbeFailed => {
                if s.state == SupervisorState::WaitingForReady && !s.sleeping {
                    self.attempts = s.attempts + 1;
                    self.sleeping = true;
                    return Action::Sleep(s.policy.interval_ms);
                }
            },
            Event::SleepElapsed => {
                if s.state == SupervisorState::WaitingForReady && s.sleeping {
                    self.sleeping = false;
                    if s.attempts >= s.policy.max_attempts {
                        self.state = SupervisorState::Terminated;
                        return Action::Fatal(Fault::ReadinessTimeout);
                    }
                    return Action::Connect;
                }
            },
            Event::CloseRequested => {
                if s.state == SupervisorState::Ready {
                    self.state = SupervisorState::ShuttingDown;
                    return Action::NotifyShutdown;
                }
            },
            Event::NotifierReturned(_) => {
                if s.state == SupervisorState::ShuttingDown {
                    self.state = SupervisorState::Terminated;
                    return Action::Exit;
                }
            },
        }
        Action::Nothing
    }
}

/// A response status counts as an acknowledgement when it is a 2xx success;
/// no response at all, or any other status, counts as unreachable.
pub open spec fn outcome_of(status: Option<u16>) -> ShutdownOutcome {
    match status {
        Some(code) => if 200 <= code < 300 {
            ShutdownOutcome::Acknowledged
        } else {
            ShutdownOutcome::Unreachable
        },
        None => ShutdownOutcome::Unreachable,
    }
}

/// Classifies the answer to the shutdown request: `None` when no response came.
pub fn classify_shutdown_status(status: Option<u16>) -> (r: ShutdownOutcome)
    ensures
        r == outcome_of(status),
{
    match status {
        Some(code) => if 200 <= code && code < 300 {
            ShutdownOutcome::Acknowledged
        } else {
            ShutdownOutcome::Unreachable
        },
        None => ShutdownOutcome::Unreachable,
    }
}

/// The label of the window whose closing ends the application.
pub open spec fn main_label() -> Seq<char> {
    seq!['m', 'a', 'i', 'n']
}

/// Only closing the main window is a close request for the supervisor; the
/// loading window is closed by the supervisor itself.
pub fn is_main_surface(label: &str) -> (r: bool)
    ensures
        r == (label@ == main_label()),
{
    proof {
        reveal_strlit("main");
    }
    let given = String::from_str(label);
    let main = String::from_str("main");
    proof {
        assert(main@ =~= main_label());
    }
    given.eq(&main)
}

} // verus!
