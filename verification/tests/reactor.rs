use crust_acceptor::address::{PeerAddr, SocketAddress};
use crust_acceptor::reactor::{AcceptorReactor, Pending, ReactorAction, ReactorEvent};
use crust_acceptor::registry::ListenSet;
use crust_acceptor::service::Service;
use crust_acceptor::{TOKEN_NOTIFY, WAKE_SET_CHANGED, WAKE_SHUTDOWN};

fn session() -> (AcceptorReactor, ListenSet) {
    let acceptor = Service::new().acceptor(Ok(())).unwrap();
    let (mut set, _hub) = acceptor.into_parts();
    let (reactor, _controller) = set.start(Ok(())).unwrap();
    (reactor, set)
}

fn local(port: u16) -> PeerAddr {
    PeerAddr::Tcp(SocketAddress::V4 { ip: 0x7f00_0001, port })
}

fn broken() -> std::io::Error {
    std::io::Error::new(std::io::ErrorKind::ConnectionAborted, "aborted")
}

fn step(
    reactor: AcceptorReactor,
    set: &mut ListenSet,
    event: ReactorEvent<&'static str>,
) -> (AcceptorReactor, ReactorAction<&'static str>) {
    reactor.accept(set, event).expect("the session has not ended")
}

#[test]
fn a_new_reactor_is_idle() {
    let (reactor, _set) = session();
    assert_eq!(reactor.pending(), Pending::Idle);
}

#[test]
fn a_request_begins_a_wait_and_marks_the_registry_stale() {
    let (reactor, mut set) = session();
    assert!(set.is_fresh());
    let (reactor, action) = step(reactor, &mut set, ReactorEvent::Start);
    assert!(matches!(action, ReactorAction::Wait));
    assert_eq!(reactor.pending(), Pending::Wait);
    assert!(!set.is_fresh());
}

#[test]
fn a_failed_wait_is_yielded_and_the_session_goes_on() {
    let (reactor, mut set) = session();
    let (reactor, _) = step(reactor, &mut set, ReactorEvent::Start);
    let (reactor, action) = step(reactor, &mut set, ReactorEvent::WaitFailed(broken()));
    match action {
        ReactorAction::Yield(Err(e)) => assert_eq!(e.kind(), std::io::ErrorKind::ConnectionAborted),
        other => panic!("unexpected: {:?}", other),
    }
    assert_eq!(reactor.pending(), Pending::Idle);
    let (_, action) = step(reactor, &mut set, ReactorEvent::Start);
    assert!(matches!(action, ReactorAction::Wait));
}

#[test]
fn the_shutdown_byte_ends_the_session() {
    let (reactor, mut set) = session();
    let (reactor, _) = step(reactor, &mut set, ReactorEvent::Start);
    let (reactor, action) = step(reactor, &mut set, ReactorEvent::Ready(vec![TOKEN_NOTIFY]));
    assert!(matches!(action, ReactorAction::ReadControl));
    assert_eq!(reactor.pending(), Pending::Control);
    assert!(reactor.accept::<&'static str>(&mut set, ReactorEvent::Control(WAKE_SHUTDOWN)).is_none());
    assert_eq!(set.len(), 0);
}

#[test]
fn a_ready_listener_is_asked_for_a_connection() {
    let (reactor, mut set) = session();
    set.register(local(1), Ok(())).unwrap();
    let (reactor, _) = step(reactor, &mut set, ReactorEvent::Start);
    let (reactor, action) = step(reactor, &mut set, ReactorEvent::Ready(vec![0]));
    assert!(matches!(action, ReactorAction::Accept(0)));
    assert_eq!(reactor.pending(), Pending::Accept(0));
    let (reactor, action) = step(reactor, &mut set, ReactorEvent::Accepted(Ok(Some("peer"))));
    match action {
        ReactorAction::Yield(Ok(conn)) => assert_eq!(conn.into_stream(), "peer"),
        other => panic!("unexpected: {:?}", other),
    }
    assert_eq!(reactor.pending(), Pending::Idle);
}

#[test]
fn an_accept_error_is_yielded_and_the_session_goes_on() {
    let (reactor, mut set) = session();
    set.register(local(1), Ok(())).unwrap();
    let (reactor, _) = step(reactor, &mut set, ReactorEvent::Start);
    let (reactor, _) = step(reactor, &mut set, ReactorEvent::Ready(vec![0]));
    let (reactor, action) = step(reactor, &mut set, ReactorEvent::Accepted(Err(broken())));
    assert!(matches!(action, ReactorAction::Yield(Err(_))));
    let (_, action) = step(reactor, &mut set, ReactorEvent::Start);
    assert!(matches!(action, ReactorAction::Wait));
}

#[test]
fn ready_tokens_are_taken_in_the_pollers_order() {
    let (reactor, mut set) = session();
    for port in 0..4 {
        set.register(local(port), Ok(())).unwrap();
    }
    let (reactor, _) = step(reactor, &mut set, ReactorEvent::Start);
    let (reactor, action) = step(reactor, &mut set, ReactorEvent::Ready(vec![2, 0, 3]));
    assert!(matches!(action, ReactorAction::Accept(2)));
    let (reactor, action) = step(reactor, &mut set, ReactorEvent::Accepted(Ok(None)));
    assert!(matches!(action, ReactorAction::Accept(0)));
    let (reactor, action) = step(reactor, &mut set, ReactorEvent::Accepted(Ok(None)));
    assert!(matches!(action, ReactorAction::Accept(3)));
    set.register(local(9), Ok(())).unwrap();
    assert!(set.is_fresh());
    let (reactor, action) = step(reactor, &mut set, ReactorEvent::Accepted(Ok(None)));
    assert!(matches!(action, ReactorAction::Wait));
    assert_eq!(reactor.pending(), Pending::Wait);
    assert!(!set.is_fresh());
    assert_eq!(set.len(), 5);
}

#[test]
fn a_yield_drops_the_ready_tokens_that_are_left() {
    let (reactor, mut set) = session();
    set.register(local(1), Ok(())).unwrap();
    set.register(local(2), Ok(())).unwrap();
    let (reactor, _) = step(reactor, &mut set, ReactorEvent::Start);
    let (reactor, _) = step(reactor, &mut set, ReactorEvent::Ready(vec![0, 1]));
    let (reactor, action) = step(reactor, &mut set, ReactorEvent::Accepted(Ok(Some("first"))));
    match action {
        ReactorAction::Yield(Ok(conn)) => assert_eq!(conn.into_stream(), "first"),
        other => panic!("unexpected: {:?}", other),
    }
    let (_, action) = step(reactor, &mut set, ReactorEvent::Start);
    assert!(matches!(action, ReactorAction::Wait));
}

#[test]
fn a_set_changed_byte_waits_for_the_registration() {
    let (reactor, mut set) = session();
    let (reactor, _) = step(reactor, &mut set, ReactorEvent::Start);
    let (reactor, _) = step(reactor, &mut set, ReactorEvent::Ready(vec![TOKEN_NOTIFY]));
    let (reactor, action) = step(reactor, &mut set, ReactorEvent::Control(WAKE_SET_CHANGED));
    assert!(matches!(action, ReactorAction::AwaitFresh));
    assert_eq!(reactor.pending(), Pending::Fresh);
    // A wakeup that finds the registry still stale waits again.
    let (reactor, action) = step(reactor, &mut set, ReactorEvent::Woken);
    assert!(matches!(action, ReactorAction::AwaitFresh));
    assert_eq!(reactor.pending(), Pending::Fresh);
    // The controller registers; the next wakeup goes back to waiting for
    // readiness, and does not report a connection.
    assert_eq!(set.register(local(7), Ok(())).unwrap(), 0);
    let (reactor, action) = step(reactor, &mut set, ReactorEvent::Woken);
    assert!(matches!(action, ReactorAction::Wait));
    assert_eq!(reactor.pending(), Pending::Wait);
    assert!(!set.is_fresh());
    assert_eq!(set.local_addr(0), Some(local(7)));
}

#[test]
fn a_set_changed_byte_with_a_fresh_registry_waits_anew() {
    let (reactor, mut set) = session();
    set.register(local(1), Ok(())).unwrap();
    let (reactor, _) = step(reactor, &mut set, ReactorEvent::Start);
    let (reactor, _) = step(reactor, &mut set, ReactorEvent::Ready(vec![TOKEN_NOTIFY, 0]));
    set.register(local(2), Ok(())).unwrap();
    assert!(set.is_fresh());
    // No connection is reported for this wakeup, though listener 0 was
    // ready: the reactor goes back to the poller.
    let (reactor, action) = step(reactor, &mut set, ReactorEvent::Control(WAKE_SET_CHANGED));
    assert!(matches!(action, ReactorAction::Wait));
    assert_eq!(reactor.pending(), Pending::Wait);
    assert!(!set.is_fresh());
    assert_eq!(set.len(), 2);
    // The new wait reports what is still ready.
    let (reactor, action) = step(reactor, &mut set, ReactorEvent::Ready(vec![0, 1]));
    assert!(matches!(action, ReactorAction::Accept(0)));
    assert_eq!(reactor.pending(), Pending::Accept(0));
}

#[test]
fn a_set_changed_byte_drops_the_tokens_left_of_its_wakeup() {
    let (reactor, mut set) = session();
    set.register(local(1), Ok(())).unwrap();
    set.register(local(2), Ok(())).unwrap();
    let (reactor, _) = step(reactor, &mut set, ReactorEvent::Start);
    let (reactor, action) = step(reactor, &mut set, ReactorEvent::Ready(vec![1, TOKEN_NOTIFY, 0]));
    // What the poller reported before the control token is looked at.
    assert!(matches!(action, ReactorAction::Accept(1)));
    let (reactor, action) = step(reactor, &mut set, ReactorEvent::Accepted(Ok(None)));
    assert!(matches!(action, ReactorAction::ReadControl));
    let (reactor, action) = step(reactor, &mut set, ReactorEvent::Control(WAKE_SET_CHANGED));
    assert!(matches!(action, ReactorAction::AwaitFresh));
    let (reactor, action) = step(reactor, &mut set, ReactorEvent::Woken);
    assert!(matches!(action, ReactorAction::AwaitFresh));
    set.register(local(3), Ok(())).unwrap();
    // What it reported after the control token is not.
    let (reactor, action) = step(reactor, &mut set, ReactorEvent::Woken);
    assert!(matches!(action, ReactorAction::Wait));
    assert_eq!(reactor.pending(), Pending::Wait);
    let (_, action) = step(reactor, &mut set, ReactorEvent::Ready(Vec::new()));
    assert!(matches!(action, ReactorAction::Wait));
}

#[test]
fn any_byte_but_the_shutdown_byte_means_set_changed() {
    for byte in [0u8, 2, 3, 77, 255] {
        let (reactor, mut set) = session();
        let (reactor, _) = step(reactor, &mut set, ReactorEvent::Start);
        let (reactor, _) = step(reactor, &mut set, ReactorEvent::Ready(vec![TOKEN_NOTIFY]));
        let (_, action) = step(reactor, &mut set, ReactorEvent::Control(byte));
        assert!(matches!(action, ReactorAction::AwaitFresh));
    }
}

#[test]
fn the_control_token_among_listeners() {
    let (reactor, mut set) = session();
    set.register(local(1), Ok(())).unwrap();
    let (reactor, _) = step(reactor, &mut set, ReactorEvent::Start);
    let (reactor, action) = step(reactor, &mut set, ReactorEvent::Ready(vec![0, TOKEN_NOTIFY]));
    assert!(matches!(action, ReactorAction::Accept(0)));
    let (reactor, action) = step(reactor, &mut set, ReactorEvent::Accepted(Ok(None)));
    assert!(matches!(action, ReactorAction::ReadControl));
    assert!(reactor.accept::<&'static str>(&mut set, ReactorEvent::Control(WAKE_SHUTDOWN)).is_none());
}

#[test]
fn an_empty_wakeup_waits_again() {
    let (reactor, mut set) = session();
    let (reactor, _) = step(reactor, &mut set, ReactorEvent::Start);
    set.register(local(1), Ok(())).unwrap();
    let (reactor, action) = step(reactor, &mut set, ReactorEvent::Ready(Vec::new()));
    assert!(matches!(action, ReactorAction::Wait));
    assert_eq!(reactor.pending(), Pending::Wait);
    assert!(!set.is_fresh());
}

#[test]
fn a_stray_event_is_handed_back() {
    let (reactor, mut set) = session();
    let (reactor, action) = step(reactor, &mut set, ReactorEvent::Accepted(Ok(Some("stray"))));
    assert!(matches!(
        action,
        ReactorAction::Rejected(ReactorEvent::Accepted(Ok(Some("stray"))))
    ));
    assert_eq!(reactor.pending(), Pending::Idle);
    assert!(set.is_fresh());
    let (reactor, _) = step(reactor, &mut set, ReactorEvent::Start);
    let (reactor, action) = step(reactor, &mut set, ReactorEvent::Control(WAKE_SHUTDOWN));
    assert!(matches!(action, ReactorAction::Rejected(ReactorEvent::Control(1))));
    assert_eq!(reactor.pending(), Pending::Wait);
    let (reactor, action) = step(reactor, &mut set, ReactorEvent::Start);
    assert!(matches!(action, ReactorAction::Rejected(ReactorEvent::Start)));
    let (reactor, _) = step(reactor, &mut set, ReactorEvent::Ready(vec![5, 6]));
    assert_eq!(reactor.pending(), Pending::Accept(5));
    let (reactor, action) = step(reactor, &mut set, ReactorEvent::Woken);
    assert!(matches!(action, ReactorAction::Rejected(ReactorEvent::Woken)));
    // Nothing was used up by the stray event.
    let (reactor, action) = step(reactor, &mut set, ReactorEvent::Accepted(Ok(None)));
    assert!(matches!(action, ReactorAction::Accept(6)));
    assert_eq!(reactor.pending(), Pending::Accept(6));
}

#[test]
fn the_sequence_ends_with_the_session_and_stays_ended() {
    let (reactor, mut set) = session();
    set.register(local(1), Ok(())).unwrap();
    let mut iter = reactor.into_iter();
    assert!(matches!(iter.next::<&'static str>(&mut set, ReactorEvent::Start), Some(ReactorAction::Wait)));
    assert!(matches!(
        iter.next::<&'static str>(&mut set, ReactorEvent::Ready(vec![0, TOKEN_NOTIFY])),
        Some(ReactorAction::Accept(0))
    ));
    match iter.next(&mut set, ReactorEvent::Accepted(Ok(Some("one")))) {
        Some(ReactorAction::Yield(Ok(conn))) => assert_eq!(conn.into_stream(), "one"),
        other => panic!("unexpected: {:?}", other),
    }
    assert!(matches!(iter.next::<&'static str>(&mut set, ReactorEvent::Start), Some(ReactorAction::Wait)));
    assert!(matches!(
        iter.next::<&'static str>(&mut set, ReactorEvent::Ready(vec![TOKEN_NOTIFY])),
        Some(ReactorAction::ReadControl)
    ));
    assert!(iter.next::<&'static str>(&mut set, ReactorEvent::Control(WAKE_SHUTDOWN)).is_none());
    set.register(local(2), Ok(())).unwrap();
    for _ in 0..3 {
        assert!(iter.next::<&'static str>(&mut set, ReactorEvent::Start).is_none());
        assert!(iter.next(&mut set, ReactorEvent::Accepted(Ok(Some("late")))).is_none());
        assert!(set.is_fresh());
        assert_eq!(set.len(), 2);
    }
}

#[test]
fn a_session_that_cannot_start_gives_the_error() {
    let mut set = ListenSet::new();
    let error = set.start(Err(broken())).unwrap_err();
    assert_eq!(error.kind(), std::io::ErrorKind::ConnectionAborted);
    assert!(set.is_fresh());
    assert_eq!(set.len(), 0);
}
