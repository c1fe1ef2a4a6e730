//! The scripted host as a state machine: every decision of the event loop
//! (what to do next, when to stop, what to report) is taken here, from the
//! current state and from what the caller observed while carrying out the
//! previous action.

use vstd::prelude::*;
use crate::types::{interpret_status, status_action, IncomingEvent, LoopAction, StopReason};

verus! {

/// Why a host ended with a failure.
#[derive(Debug, Clone, Copy, PartialEq, Eq, Structural)]
pub enum HostError {
    /// The source could not be resolved, or the operator could not be
    /// imported and instantiated. The detailed report went to the
    /// init-done channel.
    InitFailed,
    /// The handler raised while no reload had been requested yet.
    HandlerRaised,
    /// The handler returned something that carries no status value.
    InvalidReturn,
    /// The handler returned a status value outside the protocol.
    InvalidStatus(i32),
    /// The operator's source kind cannot be run.
    Unsupported,
}

/// The one event that closes an operator.
#[derive(Debug, Clone, Copy, PartialEq, Eq, Structural)]
pub enum Terminal {
    Finished(StopReason),
    Error(HostError),
    Panic,
}

/// Where the host stands in its lifecycle.
#[derive(Debug, Clone, Copy, PartialEq, Eq, Structural)]
pub enum Phase {
    /// The operator source is being located.
    Resolving,
    /// The module is being imported and the operator instantiated.
    Initializing,
    /// The event loop runs; `in_flight` while the handler holds an event.
    Running { in_flight: bool },
    /// The implementation is being re-read.
    Reloading,
    /// The loop is over and the operator instance is being dropped; the
    /// terminal event waits for that.
    Draining(Terminal),
    /// The terminal event has been emitted.
    Terminated,
}

/// What the caller saw while carrying out the previous action.
#[derive(Debug, Clone, Copy, PartialEq, Eq, Structural)]
pub enum Observation {
    /// The source was resolved to an existing module path.
    Resolved,
    /// The source could not be resolved.
    ResolveFailed,
    /// The operator was instantiated and given the descriptor.
    Initialized,
    /// Import, lookup or instantiation failed.
    InitFailed,
    /// An incoming event arrived; `reload` tells a reload request from
    /// the events that go to the handler as they are.
    Received { reload: bool },
    /// The incoming channel is closed.
    InputsClosed,
    /// The reload attempt is over. On failure the previous instance was
    /// kept.
    ReloadFinished { success: bool },
    /// The handler returned this status value.
    Returned(i32),
    /// The handler raised.
    Raised,
    /// The handler returned a value without a status.
    ReturnedInvalid,
    /// The operator instance has been dropped.
    Dropped,
    /// An unwind was caught at the host's boundary.
    Panicked,
}

/// What the caller has to do next.
#[derive(Debug, Clone, Copy, PartialEq, Eq, Structural)]
pub enum Action {
    /// Import the module and instantiate the operator.
    Initialize,
    /// Report successful initialization, then receive the next event.
    AnnounceAndReceive,
    /// Receive the next event.
    Receive,
    /// Re-import the module, instantiate it afresh and merge the previous
    /// state into the new instance.
    Reload,
    /// Hand the event just received to the handler.
    Deliver,
    /// Drop the operator instance.
    DropOperator,
    /// Report failed initialization, then emit the terminal event.
    AnnounceFailureAndEmit(Terminal),
    /// Emit the terminal event.
    Emit(Terminal),
    /// The observation does not belong to the current state; nothing
    /// changes.
    Ignore,
}

impl Action {
    /// The terminal event that the action puts on the events channel.
    pub open spec fn emitted(self) -> Option<Terminal> {
        match self {
            Action::AnnounceFailureAndEmit(t) => Some(t),
            Action::Emit(t) => Some(t),
            _ => None,
        }
    }
}

/// The state of one operator's host.
#[derive(Debug, Clone, Copy, PartialEq, Eq, Structural)]
pub struct Host {
    pub phase: Phase,
    /// Set by the first reload request and never cleared.
    pub reload: bool,
}

/// The state in which a handler's answer leaves the host, and the action
/// that follows.
pub open spec fn after_handler(host: Host, obs: Observation) -> (Host, Action) {
    let receive = (Host { phase: Phase::Running { in_flight: false }, reload: host.reload }, Action::Receive);
    let drain = |t: Terminal| (Host { phase: Phase::Draining(t), reload: host.reload }, Action::DropOperator);
    match obs {
        Observation::Returned(status) => match status_action(status) {
            Some(LoopAction::Continue) => receive,
            Some(LoopAction::Exit(reason)) => drain(Terminal::Finished(reason)),
            None => drain(Terminal::Error(HostError::InvalidStatus(status))),
        },
        Observation::Raised => if host.reload {
            receive
        } else {
            drain(Terminal::Error(HostError::HandlerRaised))
        },
        Observation::ReturnedInvalid => drain(Terminal::Error(HostError::InvalidReturn)),
        _ => (host, Action::Ignore),
    }
}

/// The transition relation: the state and the action that follow `host`
/// on `obs`.
pub open spec fn step_spec(host: Host, obs: Observation) -> (Host, Action) {
    let to = |phase: Phase| Host { phase, reload: host.reload };
    if host.phase == Phase::Terminated {
        (host, Action::Ignore)
    } else if obs == Observation::Panicked {
        (to(Phase::Terminated), Action::Emit(Terminal::Panic))
    } else {
        match host.phase {
            Phase::Resolving => match obs {
                Observation::Resolved => (to(Phase::Initializing), Action::Initialize),
                Observation::ResolveFailed => (
                    to(Phase::Terminated),
                    Action::AnnounceFailureAndEmit(Terminal::Error(HostError::InitFailed)),
                ),
                _ => (host, Action::Ignore),
            },
            Phase::Initializing => match obs {
                Observation::Initialized => (
                    to(Phase::Running { in_flight: false }),
                    Action::AnnounceAndReceive,
                ),
                Observation::InitFailed => (
                    to(Phase::Terminated),
                    Action::AnnounceFailureAndEmit(Terminal::Error(HostError::InitFailed)),
                ),
                _ => (host, Action::Ignore),
            },
            Phase::Running { in_flight: false } => match obs {
                Observation::Received { reload: true } => (
                    Host { phase: Phase::Reloading, reload: true },
                    Action::Reload,
                ),
                Observation::Received { reload: false } => (
                    to(Phase::Running { in_flight: true }),
                    Action::Deliver,
                ),
                Observation::InputsClosed => (
                    to(Phase::Draining(Terminal::Finished(StopReason::InputsClosed))),
                    Action::DropOperator,
                ),
                _ => (host, Action::Ignore),
            },
            Phase::Running { in_flight: true } => after_handler(host, obs),
            Phase::Reloading => match obs {
                Observation::ReloadFinished { success } => (
                    to(Phase::Running { in_flight: true }),
                    Action::Deliver,
                ),
                _ => (host, Action::Ignore),
            },
            Phase::Draining(terminal) => match obs {
                Observation::Dropped => (to(Phase::Terminated), Action::Emit(terminal)),
                _ => (host, Action::Ignore),
            },
            Phase::Terminated => (host, Action::Ignore),
        }
    }
}

impl Host {
    /// A host that has not yet located its operator.
    pub fn new() -> (host: Host)
        ensures
            host == (Host { phase: Phase::Resolving, reload: false }),
    {
        Host { phase: Phase::Resolving, reload: false }
    }

    /// True while the handler holds an event: the only time at which an
    /// output may be put on the events channel.
    pub open spec fn admits_output(self) -> bool {
        self.phase == (Phase::Running { in_flight: true })
    }

    /// Tells whether an output may be emitted now.
    pub fn may_output(&self) -> (r: bool)
        ensures
            r == self.admits_output(),
    {
        match self.phase {
            Phase::Running { in_flight } => in_flight,
            _ => false,
        }
    }

    /// Tells whether the terminal event has been emitted.
    pub fn is_terminated(&self) -> (r: bool)
        ensures
            r == (self.phase == Phase::Terminated),
    {
        match self.phase {
            Phase::Terminated => true,
            _ => false,
        }
    }

    fn after_handler(&mut self, obs: Observation) -> (action: Action)
        requires
            old(self).phase == (Phase::Running { in_flight: true }),
            obs != Observation::Panicked,
        ensures
            (*final(self), action) == after_handler(*old(self), obs),
    {
        let terminal = match obs {
            Observation::Returned(status) => match interpret_status(status) {
                Some(LoopAction::Continue) => None,
                Some(LoopAction::Exit(reason)) => Some(Terminal::Finished(reason)),
                None => Some(Terminal::Error(HostError::InvalidStatus(status))),
            },
            Observation::Raised => if self.reload {
                None
            } else {
                Some(Terminal::Error(HostError::HandlerRaised))
            },
            Observation::ReturnedInvalid => Some(Terminal::Error(HostError::InvalidReturn)),
            _ => {
                return Action::Ignore;
            },
        };
        match terminal {
            None => {
                self.phase = Phase::Running { in_flight: false };
                Action::Receive
            },
            Some(t) => {
                self.phase = Phase::Draining(t);
                Action::DropOperator
            },
        }
    }

    /// Takes an incoming event that was just received and says what to
    /// do with it: a reload request leads to a reload, any other event
    /// goes to the handler.
    pub fn receive(&mut self, event: &IncomingEvent) -> (action: Action)
        ensures
            (*final(self), action) == step_spec(
                *old(self),
                Observation::Received { reload: *event is Reload },
            ),
    {
        self.step(Observation::Received { reload: event.is_reload() })
    }

    /// Takes one observation and says what to do next.
    pub fn step(&mut self, obs: Observation) -> (action: Action)
        ensures
            (*final(self), action) == step_spec(*old(self), obs),
    {
        if let Phase::Terminated = self.phase {
            return Action::Ignore;
        }
        if let Observation::Panicked = obs {
            self.phase = Phase::Terminated;
            return Action::Emit(Terminal::Panic);
        }
        match self.phase {
            Phase::Resolving => match obs {
                Observation::Resolved => {
                    self.phase = Phase::Initializing;
                    Action::Initialize
                },
                Observation::ResolveFailed => {
                    self.phase = Phase::Terminated;
                    Action::AnnounceFailureAndEmit(Terminal::Error(HostError::InitFailed))
                },
                _ => Action::Ignore,
            },
            Phase::Initializing => match obs {
                Observation::Initialized => {
                    self.phase = Phase::Running { in_flight: false };
                    Action::AnnounceAndReceive
                },
                Observation::InitFailed => {
                    self.phase = Phase::Terminated;
                    Action::AnnounceFailureAndEmit(Terminal::Error(HostError::InitFailed))
                },
                _ => Action::Ignore,
            },
            Phase::Running { in_flight: false } => match obs {
                Observation::Received { reload: true } => {
                    self.phase = Phase::Reloading;
                    self.reload = true;
                    Action::Reload
                },
                Observation::Received { reload: false } => {
                    self.phase = Phase::Running { in_flight: true };
                    Action::Deliver
                },
                Observation::InputsClosed => {
                    self.phase = Phase::Draining(Terminal::Finished(StopReason::InputsClosed));
                    Action::DropOperator
                },
                _ => Action::Ignore,
            },
            Phase::Running { in_flight: true } => self.after_handler(obs),
            Phase::Reloading => match obs {
                Observation::ReloadFinished { success: _ } => {
                    self.phase = Phase::Running { in_flight: true };
                    Action::Deliver
                },
                _ => Action::Ignore,
            },
            Phase::Draining(terminal) => match obs {
                Observation::Dropped => {
                    self.phase = Phase::Terminated;
                    Action::Emit(terminal)
                },
                _ => Action::Ignore,
            },
            Phase::Terminated => Action::Ignore,
        }
    }
}

} // verus!
