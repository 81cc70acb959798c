use vstd::prelude::*;
use crate::error::{IoFailure, ServiceError};
use crate::shutdown::{ListenerKind, ShutdownCoordinator};

verus! {

/// The largest datagram the SIP listener accepts, in bytes.
pub const MAX_DATAGRAM_LEN: usize = 65535;

/// What one turn of the SIP datagram listener's receive loop observed: the
/// shutdown notification and the socket are raced against each other.
#[derive(Clone, Debug)]
pub enum DatagramEvent {
    /// The shutdown notification arrived, or its channel was closed.
    Shutdown,
    /// A datagram of `len` bytes arrived from `from`.
    Received { len: usize, from: String },
    /// Receiving failed.
    RecvError(IoFailure),
}

/// What the receive loop does next.
#[derive(Clone, Debug)]
pub enum ListenerStep {
    /// Receive again.
    Continue,
    /// Leave the loop and end the task without error.
    Stop,
    /// Leave the loop and end the task with this error.
    Fail(ServiceError),
}

/// The loop's decision: a shutdown ends it cleanly, a datagram or a transient
/// receive error keeps it going, and any other receive error ends the task
/// with an I/O error.
pub open spec fn datagram_step_spec(ev: DatagramEvent) -> ListenerStep {
    match ev {
        DatagramEvent::Shutdown => ListenerStep::Stop,
        DatagramEvent::Received { .. } => ListenerStep::Continue,
        DatagramEvent::RecvError(f) => if f.kind.spec_is_transient() {
            ListenerStep::Continue
        } else {
            ListenerStep::Fail(ServiceError::Io(f))
        },
    }
}

/// Decides what the SIP datagram listener does after one turn of its loop.
pub fn sip_udp_step(ev: DatagramEvent) -> (r: ListenerStep)
    ensures
        r == datagram_step_spec(ev),
{
    match ev {
        DatagramEvent::Shutdown => ListenerStep::Stop,
        DatagramEvent::Received { .. } => ListenerStep::Continue,
        DatagramEvent::RecvError(f) => {
            if f.kind.is_transient() {
                ListenerStep::Continue
            } else {
                ListenerStep::Fail(ServiceError::Io(f))
            }
        },
    }
}

/// Whether a listener has to leave its loop: its notification has been sent.
/// A closed channel counts as a notification, so a listener stops either way.
pub open spec fn must_stop(c: ShutdownCoordinator, kind: ListenerKind) -> bool {
    c.spec_is_signaled(kind)
}

/// Once the coordinator has been triggered, whatever its state before, every
/// listener must stop, and the datagram listener leaves its loop without error
/// on the turn that sees the notification.
pub proof fn lemma_trigger_stops_listeners(c: ShutdownCoordinator, kind: ListenerKind)
    ensures
        must_stop(c.triggered(), kind),
        datagram_step_spec(DatagramEvent::Shutdown) == ListenerStep::Stop,
{
}

} // verus!
