use std::io::{Read, Write};
use std::time::Duration;

use crust_acceptor::address::{ListenAddr, PeerAddr, Resolved, SocketAddress, StrToListenAddrError};
use crust_acceptor::controller::{AcceptorController, AddListenerError, AddListenerStep, HostOutcome};
use crust_acceptor::events::{ListenerEvent, ListenerEventsHub, NextEvent};
use crust_acceptor::reactor::{AcceptorReactor, ReactorAction, ReactorEvent};
use crust_acceptor::registry::ListenSet;
use crust_acceptor::service::Service;
use crust_acceptor::{TOKEN_NOTIFY, WAKE_SET_CHANGED, WAKE_SHUTDOWN};

/// The host's side of a session, on real sockets, in one thread.
struct Host {
    poll: mio::Poll,
    events: mio::Events,
    sockets: Vec<mio::net::TcpListener>,
    reader: mio::unix::pipe::Receiver,
    writer: mio::unix::pipe::Sender,
    set: ListenSet,
    hub: ListenerEventsHub,
}

type Step = AddListenerStep<StrToListenAddrError>;

/// A connection to a peer: one that a listener accepted, or one end of a
/// pair of connected sockets.
#[derive(Debug)]
enum Conn {
    Tcp(mio::net::TcpStream),
    Pair(mio::net::UnixStream),
}

impl Conn {
    fn write_all(&mut self, buf: &[u8]) -> std::io::Result<()> {
        match self {
            Conn::Tcp(s) => s.write_all(buf),
            Conn::Pair(s) => s.write_all(buf),
        }
    }
}

/// `"a.b.c.d:port"` as an address.
fn parse(text: &str) -> SocketAddress {
    let (ip, port) = text.rsplit_once(':').unwrap();
    let mut bits: u32 = 0;
    for part in ip.split('.') {
        bits = (bits << 8) | u32::from(part.parse::<u8>().unwrap());
    }
    SocketAddress::V4 { ip: bits, port: port.parse().unwrap() }
}

/// An address as `"a.b.c.d:port"`.
fn text(addr: SocketAddress) -> String {
    match addr {
        SocketAddress::V4 { ip, port } => {
            format!("{}.{}.{}.{}:{}", ip >> 24, (ip >> 16) & 255, (ip >> 8) & 255, ip & 255, port)
        }
        SocketAddress::V6 { .. } => panic!("these tests use IPv4"),
    }
}

fn outcome_of(done: std::io::Result<()>) -> HostOutcome {
    match done {
        Ok(()) => HostOutcome::Completed,
        Err(e) => HostOutcome::Failed(e),
    }
}

impl Host {
    fn start() -> (Host, AcceptorReactor, AcceptorController) {
        let poll = mio::Poll::new().unwrap();
        let (mut set, hub) = Service::new().acceptor(Ok(())).unwrap().into_parts();
        let (writer, mut reader) = mio::unix::pipe::new().unwrap();
        let registered = poll.registry().register(&mut reader, mio::Token(TOKEN_NOTIFY), mio::Interest::READABLE);
        let (reactor, controller) = set.start(registered).unwrap();
        let host = Host { poll, events: mio::Events::with_capacity(16), sockets: Vec::new(), reader, writer, set, hub };
        (host, reactor, controller)
    }

    /// Carries out one of the host's steps of adding a listener.
    fn carry_out(&mut self, step: &Step, listener: &mut Option<mio::net::TcpListener>) -> HostOutcome {
        match step {
            AddListenerStep::Bind(ListenAddr::Tcp(addr)) => {
                match mio::net::TcpListener::bind(text(*addr).parse().unwrap()) {
                    Ok(bound) => {
                        let local = parse(&bound.local_addr().unwrap().to_string());
                        *listener = Some(bound);
                        HostOutcome::Bound(PeerAddr::Tcp(local))
                    }
                    Err(e) => HostOutcome::Failed(e),
                }
            }
            AddListenerStep::Signal { byte, .. } => outcome_of(self.writer.write_all(&[*byte])),
            other => panic!("{:?} is not the host's step", other),
        }
    }

    /// Takes one step of adding a listener, whoever's it is.
    fn take(&mut self, controller: &AcceptorController, step: Step, listener: &mut Option<mio::net::TcpListener>) -> Step {
        match step {
            AddListenerStep::Register(_) => {
                let mut socket = listener.take().unwrap();
                let token = self.set.next_token();
                let registered = self.poll.registry().register(&mut socket, mio::Token(token), mio::Interest::READABLE);
                let next = controller.register(step, &mut self.set, registered);
                if matches!(next, AddListenerStep::Publish(_)) {
                    self.sockets.push(socket);
                }
                next
            }
            AddListenerStep::Publish(_) => controller.publish(step, &mut self.hub),
            AddListenerStep::Done(_) => panic!("nothing is left to do"),
            step => {
                let outcome = self.carry_out(&step, listener);
                controller.proceed(step, outcome)
            }
        }
    }

    /// The readiness wait, bounded so that a test cannot hang.
    fn wait(&mut self) -> ReactorEvent<Conn> {
        match self.poll.poll(&mut self.events, Some(Duration::from_secs(10))) {
            Ok(()) => ReactorEvent::Ready(self.events.iter().map(|e| e.token().0).collect()),
            Err(e) => ReactorEvent::WaitFailed(e),
        }
    }

    fn read_control(&mut self) -> ReactorEvent<Conn> {
        let mut c = [0u8];
        self.reader.read_exact(&mut c[..]).unwrap();
        ReactorEvent::Control(c[0])
    }

    fn accept(&mut self, token: usize) -> ReactorEvent<Conn> {
        ReactorEvent::Accepted(match self.sockets[token].accept() {
            Ok((stream, _)) => Ok(Some(Conn::Tcp(stream))),
            Err(ref e) if e.kind() == std::io::ErrorKind::WouldBlock => Ok(None),
            Err(e) => Err(e),
        })
    }
}

/// Reads from a peer's socket until the other side has closed it.
fn read_to_end(mut socket: mio::net::UnixStream) -> String {
    let mut poll = mio::Poll::new().unwrap();
    let mut events = mio::Events::with_capacity(4);
    poll.registry().register(&mut socket, mio::Token(0), mio::Interest::READABLE).unwrap();
    let mut buf = Vec::new();
    let mut chunk = [0u8; 64];
    for _ in 0..100 {
        match socket.read(&mut chunk) {
            Ok(0) => return String::from_utf8(buf).unwrap(),
            Ok(n) => buf.extend_from_slice(&chunk[..n]),
            Err(ref e) if e.kind() == std::io::ErrorKind::WouldBlock => {
                poll.poll(&mut events, Some(Duration::from_secs(10))).unwrap();
            }
            Err(e) => panic!("the peer cannot read: {:?}", e),
        }
    }
    panic!("the peer was never told that the connection is closed");
}

fn next(reactor: AcceptorReactor, host: &mut Host, event: ReactorEvent<Conn>) -> (AcceptorReactor, ReactorAction<Conn>) {
    reactor.accept(&mut host.set, event).expect("the session has not ended")
}

/// Adds a listener on `wanted` while the reactor waits in the poller, and
/// checks the address that a subscriber is told against the socket's. The
/// result is the session, with the reactor in its next wait.
fn listen_on(wanted: &str) -> (Host, AcceptorReactor, AcceptorController, SocketAddress) {
    let (mut host, reactor, controller) = Host::start();
    let (ev_reactor, _ev_controller) = controller.listener_events(&mut host.hub);

    // The reactor goes into its wait.
    let (reactor, action) = next(reactor, &mut host, ReactorEvent::Start);
    assert!(matches!(action, ReactorAction::Wait));
    assert!(!host.set.is_fresh());

    // The controller binds and signals.
    let mut listener = None;
    let mut step: Step = controller.add_listener(Resolved(Ok(vec![parse(wanted)])));
    assert!(matches!(step, AddListenerStep::Bind(_)));
    step = host.take(&controller, step, &mut listener);
    assert!(matches!(step, AddListenerStep::Signal { byte: WAKE_SET_CHANGED, .. }));
    step = host.take(&controller, step, &mut listener);
    assert!(matches!(step, AddListenerStep::Register(_)));

    // The signal ends the wait; the registry is stale, so the reactor lets
    // go of it until the controller has registered.
    let woke = host.wait();
    assert!(matches!(&woke, ReactorEvent::Ready(tokens) if tokens[..] == [TOKEN_NOTIFY]));
    let (reactor, action) = next(reactor, &mut host, woke);
    assert!(matches!(action, ReactorAction::ReadControl));
    let byte = host.read_control();
    assert!(matches!(byte, ReactorEvent::Control(WAKE_SET_CHANGED)));
    let (reactor, action) = next(reactor, &mut host, byte);
    assert!(matches!(action, ReactorAction::AwaitFresh));

    // The controller registers and broadcasts.
    step = host.take(&controller, step, &mut listener);
    assert!(matches!(step, AddListenerStep::Publish(_)));
    step = host.take(&controller, step, &mut listener);
    assert!(matches!(step, AddListenerStep::Done(Ok(()))));
    assert_eq!(host.set.len(), 1);
    assert!(host.set.is_fresh());

    // The reactor goes on, into its next wait.
    let (reactor, action) = next(reactor, &mut host, ReactorEvent::Woken);
    assert!(matches!(action, ReactorAction::Wait));

    // A subscriber learns the address.
    let tcp_addr = match ev_reactor.next_event(&mut host.hub) {
        NextEvent::Event(_, ListenerEvent::StartListening(PeerAddr::Tcp(tcp_addr))) => tcp_addr,
        other => panic!("unexpected: {:?}", other),
    };
    assert_eq!(Some(PeerAddr::Tcp(tcp_addr)), host.set.local_addr(0));
    assert_eq!(tcp_addr, parse(&host.sockets[0].local_addr().unwrap().to_string()));
    (host, reactor, controller, tcp_addr)
}

/// Gives the controller up and lets the reactor's wait end the session.
fn shut_down(mut host: Host, reactor: AcceptorReactor, controller: AcceptorController) {
    host.writer.write_all(&[controller.shutdown()]).unwrap();
    let woke = host.wait();
    assert!(matches!(&woke, ReactorEvent::Ready(tokens) if tokens[..] == [TOKEN_NOTIFY]));
    let (reactor, action) = next(reactor, &mut host, woke);
    assert!(matches!(action, ReactorAction::ReadControl));
    let byte = host.read_control();
    assert!(matches!(byte, ReactorEvent::Control(WAKE_SHUTDOWN)));
    assert!(reactor.accept(&mut host.set, byte).is_none());
}

// The peer's connection is one end of a pair of connected sockets, handed to
// the reactor as what the listener accepted, so that the test needs no
// network to connect through.
#[test]
fn ping_self() {
    let (mut host, reactor, controller, tcp_addr) = listen_on("0.0.0.0:45666");
    assert_eq!(tcp_addr, SocketAddress::V4 { ip: 0, port: 45666 });

    // Nobody has connected: the listener has nothing to accept.
    let (reactor, action) = next(reactor, &mut host, ReactorEvent::Ready(vec![0]));
    assert!(matches!(action, ReactorAction::Accept(0)));
    let accepted = host.accept(0);
    assert!(matches!(accepted, ReactorEvent::Accepted(Ok(None))));
    let (reactor, action) = next(reactor, &mut host, accepted);
    assert!(matches!(action, ReactorAction::Wait));

    // A peer connects and is accepted.
    let (ours, socket) = mio::net::UnixStream::pair().unwrap();
    let (reactor, action) = next(reactor, &mut host, ReactorEvent::Ready(vec![0]));
    assert!(matches!(action, ReactorAction::Accept(0)));
    let (reactor, action) = next(reactor, &mut host, ReactorEvent::Accepted(Ok(Some(Conn::Pair(ours)))));
    let mut conn = match action {
        ReactorAction::Yield(Ok(conn)) => conn.into_stream(),
        other => panic!("unexpected: {:?}", other),
    };
    conn.write_all(b"hello").unwrap();
    drop(conn);
    let buf = read_to_end(socket);
    assert_eq!(&buf[..], "hello");

    let (reactor, action) = next(reactor, &mut host, ReactorEvent::Start);
    assert!(matches!(action, ReactorAction::Wait));
    shut_down(host, reactor, controller);
}

#[test]
fn a_listener_on_an_ephemeral_port_is_announced_with_its_port() {
    let (host, reactor, controller, tcp_addr) = listen_on("127.0.0.1:0");
    match tcp_addr {
        SocketAddress::V4 { ip, port } => {
            assert_eq!(ip, 0x7f00_0001);
            assert_ne!(port, 0);
        }
        other => panic!("unexpected: {:?}", other),
    }
    shut_down(host, reactor, controller);
}

#[test]
fn a_reactor_without_listeners_waits_until_the_controller_is_given_up() {
    let (mut host, reactor, controller) = Host::start();
    let (reactor, action) = next(reactor, &mut host, ReactorEvent::Start);
    assert!(matches!(action, ReactorAction::Wait));
    // Nothing happens: the wait finds nothing ready.
    host.poll.poll(&mut host.events, Some(Duration::from_millis(100))).unwrap();
    assert!(host.events.is_empty());
    shut_down(host, reactor, controller);
}

#[test]
fn an_address_in_use_ends_the_call_with_the_hosts_error() {
    let (mut host, _reactor, controller) = Host::start();
    let taken = mio::net::TcpListener::bind("127.0.0.1:0".parse().unwrap()).unwrap();
    let local = parse(&taken.local_addr().unwrap().to_string());
    let mut listener = None;
    let mut step: Step = controller.add_listener(Resolved(Ok(vec![local])));
    while !matches!(step, AddListenerStep::Done(_)) {
        step = host.take(&controller, step, &mut listener);
    }
    match step {
        AddListenerStep::Done(Err(AddListenerError::IoError(e))) => {
            assert_eq!(e.kind(), std::io::ErrorKind::AddrInUse);
        }
        other => panic!("unexpected: {:?}", other),
    }
    assert_eq!(host.set.len(), 0);
    assert!(host.set.is_fresh());
    assert_eq!(host.hub.channels(), 0);
}
