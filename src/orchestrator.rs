use vstd::prelude::*;
use crate::error::ServiceError;
use crate::shutdown::{ListenerKind, ShutdownCoordinator, all_listeners};

verus! {

/// The lifecycle of the service as a whole.
#[derive(Clone, Copy, Debug, PartialEq, Eq, Structural)]
pub enum Phase {
    /// Configuration loaded; listeners being spawned.
    Starting,
    /// All listeners spawned; waiting for the first of them to end, or for an interrupt.
    Running,
    /// Shutdown broadcast; waiting for the listeners to finish.
    ShuttingDown,
    /// Every listener has finished.
    Stopped,
}

/// How a listener's task ended.
#[derive(Clone, Debug)]
pub enum ListenerOutcome {
    /// It returned without error. For a listener meant to run until shutdown this is unexpected.
    Returned,
    /// It returned an error.
    Failed(ServiceError),
    /// Its task panicked or was aborted; the text describes how.
    Panicked(String),
}

impl ListenerOutcome {
    /// Whether this ending counts as a failure of the listener.
    pub open spec fn spec_is_failure(self) -> bool {
        !(self is Returned)
    }

    pub fn is_failure(&self) -> (r: bool)
        ensures
            r == self.spec_is_failure(),
    {
        !matches!(self, ListenerOutcome::Returned)
    }
}

/// What the orchestrator waits for.
#[derive(Clone, Debug)]
pub enum RunEvent {
    /// A listener's task has ended.
    ListenerFinished(ListenerKind, ListenerOutcome),
    /// The operator asked the process to stop.
    Interrupt,
}

/// What the orchestrator asks its driver to do after an event.
#[derive(Clone, Debug)]
pub enum RunAction {
    /// Nothing; keep waiting.
    Wait,
    /// Send the shutdown notification to each of these listeners.
    Notify(Vec<ListenerKind>),
    /// Every listener has finished: exit, with a failure status if `failure` is set.
    Exit { failure: bool },
}

/// The action as the contracts speak of it.
pub enum ActionModel {
    Wait,
    Notify(Seq<ListenerKind>),
    Exit(bool),
}

pub open spec fn action_model(a: RunAction) -> ActionModel {
    match a {
        RunAction::Wait => ActionModel::Wait,
        RunAction::Notify(v) => ActionModel::Notify(v@),
        RunAction::Exit { failure } => ActionModel::Exit(failure),
    }
}

/// The supervisor of the three listeners: races their endings against an
/// operator interrupt, broadcasts shutdown once, and decides the exit status.
#[derive(Clone, Copy, Debug, PartialEq, Eq, Structural)]
pub struct Orchestrator {
    pub phase: Phase,
    /// Set when the shutdown was caused by a listener failure.
    pub failure: bool,
    pub grpc_finished: bool,
    pub udp_finished: bool,
    pub http_finished: bool,
    pub coordinator: ShutdownCoordinator,
}

impl Orchestrator {
    pub open spec fn spec_is_finished(self, kind: ListenerKind) -> bool {
        match kind {
            ListenerKind::Grpc => self.grpc_finished,
            ListenerKind::Udp => self.udp_finished,
            ListenerKind::Http => self.http_finished,
        }
    }

    pub open spec fn all_finished(self) -> bool {
        self.grpc_finished && self.udp_finished && self.http_finished
    }

    pub open spec fn none_finished(self) -> bool {
        !self.grpc_finished && !self.udp_finished && !self.http_finished
    }

    /// Before shutdown nothing has ended or been signaled and no failure is
    /// recorded; from shutdown on every listener has been signaled; once stopped
    /// every listener has finished.
    pub open spec fn wf(self) -> bool {
        &&& (self.phase is Starting || self.phase is Running) ==> {
            &&& self.none_finished()
            &&& self.coordinator.none_signaled()
            &&& !self.failure
        }
        &&& (self.phase is ShuttingDown || self.phase is Stopped) ==> self.coordinator.all_signaled()
        &&& self.phase is ShuttingDown ==> !self.all_finished()
        &&& self.phase is Stopped ==> self.all_finished()
    }

    /// The state with one more listener marked as finished.
    pub open spec fn with_finished(self, kind: ListenerKind) -> Orchestrator {
        match kind {
            ListenerKind::Grpc => Orchestrator { grpc_finished: true, ..self },
            ListenerKind::Udp => Orchestrator { udp_finished: true, ..self },
            ListenerKind::Http => Orchestrator { http_finished: true, ..self },
        }
    }

    /// The state after an event. The first listener ending or an interrupt,
    /// whichever comes first, starts the shutdown; a failure among them is
    /// remembered. During shutdown endings are only recorded, errors included.
    pub open spec fn next(self, ev: RunEvent) -> Orchestrator {
        match self.phase {
            Phase::Starting | Phase::Running => match ev {
                RunEvent::ListenerFinished(kind, outcome) => Orchestrator {
                    phase: Phase::ShuttingDown,
                    failure: outcome.spec_is_failure(),
                    coordinator: self.coordinator.triggered(),
                    ..self
                }.with_finished(kind),
                RunEvent::Interrupt => Orchestrator {
                    phase: Phase::ShuttingDown,
                    coordinator: self.coordinator.triggered(),
                    ..self
                },
            },
            Phase::ShuttingDown => match ev {
                RunEvent::ListenerFinished(kind, _) => {
                    let s = self.with_finished(kind);
                    if s.all_finished() {
                        Orchestrator { phase: Phase::Stopped, ..s }
                    } else {
                        s
                    }
                },
                RunEvent::Interrupt => self,
            },
            Phase::Stopped => self,
        }
    }

    /// The action that goes with an event.
    pub open spec fn action(self, ev: RunEvent) -> ActionModel {
        match self.phase {
            Phase::Starting | Phase::Running => ActionModel::Notify(self.coordinator.pending()),
            Phase::ShuttingDown => if self.next(ev).phase is Stopped {
                ActionModel::Exit(self.failure)
            } else {
                ActionModel::Wait
            },
            Phase::Stopped => ActionModel::Wait,
        }
    }

    pub fn new() -> (r: Orchestrator)
        ensures
            r.phase == Phase::Starting,
            r.wf(),
    {
        Orchestrator {
            phase: Phase::Starting,
            failure: false,
            grpc_finished: false,
            udp_finished: false,
            http_finished: false,
            coordinator: ShutdownCoordinator::new(),
        }
    }

    /// Marks the end of start-up: every listener has been spawned.
    pub fn start(&mut self)
        requires
            old(self).wf(),
        ensures
            old(self).phase is Starting ==> *final(self) == (Orchestrator { phase: Phase::Running, ..*old(self) }),
            !(old(self).phase is Starting) ==> *final(self) == *old(self),
            final(self).wf(),
    {
        if matches!(self.phase, Phase::Starting) {
            self.phase = Phase::Running;
        }
    }

    fn mark_finished(&mut self, kind: ListenerKind)
        ensures
            *final(self) == old(self).with_finished(kind),
    {
        match kind {
            ListenerKind::Grpc => self.grpc_finished = true,
            ListenerKind::Udp => self.udp_finished = true,
            ListenerKind::Http => self.http_finished = true,
        }
    }

    /// Takes one event and says what to do about it.
    pub fn step(&mut self, ev: RunEvent) -> (a: RunAction)
        requires
            old(self).wf(),
        ensures
            *final(self) == old(self).next(ev),
            action_model(a) == old(self).action(ev),
            final(self).wf(),
    {
        match self.phase {
            Phase::Starting | Phase::Running => {
                match ev {
                    RunEvent::ListenerFinished(kind, outcome) => {
                        self.failure = outcome.is_failure();
                        self.mark_finished(kind);
                    },
                    RunEvent::Interrupt => {},
                }
                self.phase = Phase::ShuttingDown;
                let to_notify = self.coordinator.trigger();
                RunAction::Notify(to_notify)
            },
            Phase::ShuttingDown => {
                match ev {
                    RunEvent::ListenerFinished(kind, _) => {
                        self.mark_finished(kind);
                        if self.grpc_finished && self.udp_finished && self.http_finished {
                            self.phase = Phase::Stopped;
                            RunAction::Exit { failure: self.failure }
                        } else {
                            RunAction::Wait
                        }
                    },
                    RunEvent::Interrupt => RunAction::Wait,
                }
            },
            Phase::Stopped => RunAction::Wait,
        }
    }
}

/// Whichever listener ends first while the service runs, and however it ends,
/// every listener is told to stop; once the other two have finished, the
/// process exits with a failure status exactly when that first ending was a
/// failure. Later endings, errors included, do not change the status.
pub proof fn lemma_listener_end_cascades(
    s: Orchestrator,
    first: ListenerKind,
    outcome: ListenerOutcome,
    second: ListenerKind,
    second_outcome: ListenerOutcome,
    third: ListenerKind,
    third_outcome: ListenerOutcome,
)
    requires
        s.wf(),
        s.phase is Running,
        first != second,
        first != third,
        second != third,
    ensures
        s.action(RunEvent::ListenerFinished(first, outcome)) == ActionModel::Notify(all_listeners()),
        ({
            let s1 = s.next(RunEvent::ListenerFinished(first, outcome));
            let s2 = s1.next(RunEvent::ListenerFinished(second, second_outcome));
            &&& s1.phase is ShuttingDown
            &&& s1.coordinator.all_signaled()
            &&& s1.action(RunEvent::ListenerFinished(second, second_outcome)) == ActionModel::Wait
            &&& s2.action(RunEvent::ListenerFinished(third, third_outcome)) == ActionModel::Exit(
                outcome.spec_is_failure(),
            )
            &&& s2.next(RunEvent::ListenerFinished(third, third_outcome)).phase is Stopped
        }),
{
    assert(s.coordinator.pending() =~= all_listeners());
}

/// An operator interrupt while the service runs tells every listener to stop,
/// and once all three have finished the process exits without a failure status.
pub proof fn lemma_interrupt_exits_cleanly(
    s: Orchestrator,
    k1: ListenerKind,
    o1: ListenerOutcome,
    k2: ListenerKind,
    o2: ListenerOutcome,
    k3: ListenerKind,
    o3: ListenerOutcome,
)
    requires
        s.wf(),
        s.phase is Running,
        k1 != k2,
        k1 != k3,
        k2 != k3,
    ensures
        s.action(RunEvent::Interrupt) == ActionModel::Notify(all_listeners()),
        ({
            let s1 = s.next(RunEvent::Interrupt);
            let s2 = s1.next(RunEvent::ListenerFinished(k1, o1));
            let s3 = s2.next(RunEvent::ListenerFinished(k2, o2));
            &&& s1.coordinator.all_signaled()
            &&& s1.action(RunEvent::ListenerFinished(k1, o1)) == ActionModel::Wait
            &&& s2.action(RunEvent::ListenerFinished(k2, o2)) == ActionModel::Wait
            &&& s3.action(RunEvent::ListenerFinished(k3, o3)) == ActionModel::Exit(false)
        }),
{
    assert(s.coordinator.pending() =~= all_listeners());
}

} // verus!
