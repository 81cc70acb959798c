use proxy_service::error::{IoFailure, IoKind, ServiceError};
use proxy_service::listener::{sip_udp_step, DatagramEvent, ListenerStep};
use proxy_service::orchestrator::{ListenerOutcome, Orchestrator, Phase, RunAction, RunEvent};
use proxy_service::shutdown::{ListenerKind, ShutdownCoordinator};

fn notified(a: &RunAction) -> Vec<ListenerKind> {
    match a {
        RunAction::Notify(v) => v.clone(),
        _ => panic!("expected a notification"),
    }
}

fn running() -> Orchestrator {
    let mut o = Orchestrator::new();
    assert_eq!(o.phase, Phase::Starting);
    o.start();
    assert_eq!(o.phase, Phase::Running);
    o
}

#[test]
fn trigger_signals_all_listeners_once() {
    let mut c = ShutdownCoordinator::new();
    assert!(!c.is_signaled(ListenerKind::Udp));
    let first = c.trigger();
    assert_eq!(first, vec![ListenerKind::Grpc, ListenerKind::Udp, ListenerKind::Http]);
    let second = c.trigger();
    assert!(second.is_empty());
    assert!(c.is_signaled(ListenerKind::Grpc));
    assert!(c.is_signaled(ListenerKind::Udp));
    assert!(c.is_signaled(ListenerKind::Http));
}

#[test]
fn datagram_loop_decisions() {
    assert!(matches!(sip_udp_step(DatagramEvent::Shutdown), ListenerStep::Stop));
    let got = DatagramEvent::Received { len: 512, from: "10.0.0.1:5060".to_string() };
    assert!(matches!(sip_udp_step(got), ListenerStep::Continue));
    let eintr = IoFailure { kind: IoKind::Interrupted, detail: "interrupted".to_string() };
    assert!(matches!(sip_udp_step(DatagramEvent::RecvError(eintr)), ListenerStep::Continue));
    let refused = IoFailure { kind: IoKind::ConnectionRefused, detail: "unreachable".to_string() };
    assert!(matches!(sip_udp_step(DatagramEvent::RecvError(refused)), ListenerStep::Continue));
    let denied = IoFailure { kind: IoKind::PermissionDenied, detail: "denied".to_string() };
    match sip_udp_step(DatagramEvent::RecvError(denied)) {
        ListenerStep::Fail(ServiceError::Io(f)) => assert_eq!(f.kind, IoKind::PermissionDenied),
        _ => panic!("expected an I/O failure"),
    }
}

#[test]
fn listener_failure_cascades_and_fails_the_exit() {
    let mut o = running();
    let err = ServiceError::Io(IoFailure { kind: IoKind::AddrInUse, detail: "in use".to_string() });
    let a = o.step(RunEvent::ListenerFinished(ListenerKind::Udp, ListenerOutcome::Failed(err)));
    assert_eq!(notified(&a), vec![ListenerKind::Grpc, ListenerKind::Udp, ListenerKind::Http]);
    assert_eq!(o.phase, Phase::ShuttingDown);
    let a = o.step(RunEvent::ListenerFinished(ListenerKind::Grpc, ListenerOutcome::Returned));
    assert!(matches!(a, RunAction::Wait));
    let a = o.step(RunEvent::Interrupt);
    assert!(matches!(a, RunAction::Wait));
    let a = o.step(RunEvent::ListenerFinished(ListenerKind::Http, ListenerOutcome::Returned));
    assert!(matches!(a, RunAction::Exit { failure: true }));
    assert_eq!(o.phase, Phase::Stopped);
}

#[test]
fn panicked_listener_counts_as_failure() {
    let mut o = running();
    let a = o.step(RunEvent::ListenerFinished(ListenerKind::Http, ListenerOutcome::Panicked("boom".to_string())));
    assert_eq!(notified(&a).len(), 3);
    o.step(RunEvent::ListenerFinished(ListenerKind::Grpc, ListenerOutcome::Returned));
    let a = o.step(RunEvent::ListenerFinished(ListenerKind::Udp, ListenerOutcome::Returned));
    assert!(matches!(a, RunAction::Exit { failure: true }));
}

#[test]
fn early_return_cascades_without_failure() {
    let mut o = running();
    let a = o.step(RunEvent::ListenerFinished(ListenerKind::Grpc, ListenerOutcome::Returned));
    assert_eq!(notified(&a).len(), 3);
    let fail = ServiceError::GrpcTransportError("late".to_string());
    o.step(RunEvent::ListenerFinished(ListenerKind::Udp, ListenerOutcome::Failed(fail)));
    let a = o.step(RunEvent::ListenerFinished(ListenerKind::Http, ListenerOutcome::Returned));
    assert!(matches!(a, RunAction::Exit { failure: false }));
}

#[test]
fn interrupt_shuts_down_cleanly() {
    let mut o = running();
    let a = o.step(RunEvent::Interrupt);
    assert_eq!(notified(&a), vec![ListenerKind::Grpc, ListenerKind::Udp, ListenerKind::Http]);
    assert!(o.coordinator.is_signaled(ListenerKind::Http));
    o.step(RunEvent::ListenerFinished(ListenerKind::Http, ListenerOutcome::Returned));
    o.step(RunEvent::ListenerFinished(ListenerKind::Http, ListenerOutcome::Returned));
    o.step(RunEvent::ListenerFinished(ListenerKind::Grpc, ListenerOutcome::Returned));
    let a = o.step(RunEvent::ListenerFinished(ListenerKind::Udp, ListenerOutcome::Returned));
    assert!(matches!(a, RunAction::Exit { failure: false }));
    assert!(matches!(o.step(RunEvent::Interrupt), RunAction::Wait));
}
