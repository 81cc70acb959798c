use vstd::prelude::*;

verus! {

/// The three listeners that the service runs.
#[derive(Clone, Copy, Debug, PartialEq, Eq, Structural)]
pub enum ListenerKind {
    /// The TLS-secured RPC server.
    Grpc,
    /// The SIP datagram listener.
    Udp,
    /// The plain HTTP health endpoint.
    Http,
}

/// Every listener, in the order in which shutdown notifications go out.
pub open spec fn all_listeners() -> Seq<ListenerKind> {
    seq![ListenerKind::Grpc, ListenerKind::Udp, ListenerKind::Http]
}

/// Holds the sending side of one shutdown channel per listener and records which
/// of them have been signaled. A channel is signaled at most once: once it has
/// been used it stays consumed.
#[derive(Clone, Copy, Debug, PartialEq, Eq, Structural)]
pub struct ShutdownCoordinator {
    pub grpc_signaled: bool,
    pub udp_signaled: bool,
    pub http_signaled: bool,
}

impl ShutdownCoordinator {
    pub open spec fn spec_is_signaled(self, kind: ListenerKind) -> bool {
        match kind {
            ListenerKind::Grpc => self.grpc_signaled,
            ListenerKind::Udp => self.udp_signaled,
            ListenerKind::Http => self.http_signaled,
        }
    }

    /// Whether termination has been broadcast to every listener.
    pub open spec fn all_signaled(self) -> bool {
        self.grpc_signaled && self.udp_signaled && self.http_signaled
    }

    pub open spec fn none_signaled(self) -> bool {
        !self.grpc_signaled && !self.udp_signaled && !self.http_signaled
    }

    /// The listeners whose channel has not been used yet, in notification order.
    pub open spec fn pending(self) -> Seq<ListenerKind> {
        let g = if self.grpc_signaled { Seq::empty() } else { seq![ListenerKind::Grpc] };
        let u = if self.udp_signaled { Seq::empty() } else { seq![ListenerKind::Udp] };
        let h = if self.http_signaled { Seq::empty() } else { seq![ListenerKind::Http] };
        g + u + h
    }

    /// The coordinator once every channel has been used.
    pub open spec fn triggered(self) -> ShutdownCoordinator {
        ShutdownCoordinator { grpc_signaled: true, udp_signaled: true, http_signaled: true }
    }

    pub fn new() -> (r: ShutdownCoordinator)
        ensures
            r.none_signaled(),
    {
        ShutdownCoordinator { grpc_signaled: false, udp_signaled: false, http_signaled: false }
    }

    pub fn is_signaled(&self, kind: ListenerKind) -> (r: bool)
        ensures
            r == self.spec_is_signaled(kind),
    {
        match kind {
            ListenerKind::Grpc => self.grpc_signaled,
            ListenerKind::Udp => self.udp_signaled,
            ListenerKind::Http => self.http_signaled,
        }
    }

    /// Broadcasts termination: returns the listeners whose channel must be
    /// notified now, which are those not notified before, and marks every
    /// channel as used. A later call returns nothing.
    pub fn trigger(&mut self) -> (r: Vec<ListenerKind>)
        ensures
            *final(self) == old(self).triggered(),
            r@ == old(self).pending(),
    {
        let mut r: Vec<ListenerKind> = Vec::new();
        if !self.grpc_signaled {
            r.push(ListenerKind::Grpc);
        }
        if !self.udp_signaled {
            r.push(ListenerKind::Udp);
        }
        if !self.http_signaled {
            r.push(ListenerKind::Http);
        }
        proof {
            let s = *old(self);
            assert(r@ =~= s.pending());
        }
        self.grpc_signaled = true;
        self.udp_signaled = true;
        self.http_signaled = true;
        r
    }
}

/// Triggering twice is the same as triggering once, and the second trigger
/// notifies no listener.
pub proof fn lemma_trigger_twice_is_noop(c: ShutdownCoordinator)
    ensures
        c.triggered().triggered() == c.triggered(),
        c.triggered().pending().len() == 0,
{
    let t = c.triggered();
    assert(t.pending() =~= Seq::<ListenerKind>::empty());
}

} // verus!
