//! The accept loop as a state machine.
//!
//! A driver holds the registry lock, the poller, the wakeup channel's read
//! end and the listening sockets. It tells the reactor what came of the last
//! action, performs the action the reactor answers with, and so on until the
//! reactor yields a result for the caller or ends the session.
//!
//! The loop is polling while the outcome of the readiness wait, of the
//! wakeup byte or of an accept is outstanding; it is draining while a "set
//! changed" byte has been read and the registry is still stale; and it has
//! terminated once the shutdown byte has been read, after which there is no
//! reactor left to drive.

use vstd::prelude::*;
use crate::connection::Connection;
use crate::registry::{ListenSet, ListenSetView};

verus! {

/// What a driver reports to the reactor.
#[derive(Debug)]
pub enum ReactorEvent<C> {
    /// The caller asked for the next connection.
    Start,
    /// The readiness wait failed.
    WaitFailed(std::io::Error),
    /// The readiness wait returned; these are the ready tokens, in the order
    /// the poller reported them.
    Ready(Vec<usize>),
    /// One byte was read from the wakeup channel.
    Control(u8),
    /// The wait on the freshness condition returned.
    Woken,
    /// A non-blocking accept returned: nothing pending, a connection, or an
    /// error.
    Accepted(Result<Option<C>, std::io::Error>),
}

/// What the reactor asks of its driver next.
#[derive(Debug)]
pub enum ReactorAction<C> {
    /// Block in the readiness wait, without a timeout.
    Wait,
    /// Read exactly one byte from the wakeup channel.
    ReadControl,
    /// Block on the freshness condition, releasing the registry lock.
    AwaitFresh,
    /// Try a non-blocking accept on the listener with this token.
    Accept(usize),
    /// Hand this result to the caller; the reactor stays usable.
    Yield(Result<Connection<C>, std::io::Error>),
    /// The event does not answer the outstanding action. It is handed back
    /// and nothing has changed.
    Rejected(ReactorEvent<C>),
}

/// The outcome that the reactor is waiting for.
#[derive(Clone, Copy, Debug, PartialEq, Eq, Structural)]
pub enum Pending {
    /// Nothing: the caller has not asked for a connection.
    Idle,
    /// The result of the readiness wait.
    Wait,
    /// The byte from the wakeup channel.
    Control,
    /// The registry becoming fresh.
    Fresh,
    /// The result of an accept on the listener with this token.
    Accept(usize),
}

/// The mathematical content of an [`AcceptorReactor`].
pub struct ReactorView {
    /// What the reactor is waiting for.
    pub pending: Pending,
    /// The ready tokens not yet looked at, in the poller's order.
    pub queue: Seq<usize>,
}

/// The result of one step: the registry afterwards, and either the reactor
/// afterwards with the next action, or nothing when the session has ended.
pub struct StepView<C> {
    pub set: ListenSetView,
    pub next: Option<(ReactorView, ReactorAction<C>)>,
}

impl<C> StepView<C> {
    /// The reactor after the step, where the session goes on.
    pub open spec fn reactor(self) -> ReactorView {
        (self.next->0).0
    }

    /// The action that the step asks for, where the session goes on.
    pub open spec fn action(self) -> ReactorAction<C> {
        (self.next->0).1
    }
}

impl ReactorView {
    /// A reactor that nobody has asked for a connection yet.
    pub open spec fn idle() -> ReactorView {
        ReactorView { pending: Pending::Idle, queue: Seq::empty() }
    }

    /// Whether `event` answers the action that is outstanding.
    pub open spec fn awaits<C>(self, event: ReactorEvent<C>) -> bool {
        match (self.pending, event) {
            (Pending::Idle, ReactorEvent::Start) => true,
            (Pending::Wait, ReactorEvent::WaitFailed(_)) => true,
            (Pending::Wait, ReactorEvent::Ready(_)) => true,
            (Pending::Control, ReactorEvent::Control(_)) => true,
            (Pending::Fresh, ReactorEvent::Woken) => true,
            (Pending::Accept(_), ReactorEvent::Accepted(_)) => true,
            _ => false,
        }
    }

    /// Whether `event` makes the reactor look at the freshness flag: a
    /// wakeup byte other than the shutdown byte, or the return from a wait
    /// for freshness.
    pub open spec fn checks_freshness<C>(self, event: ReactorEvent<C>) -> bool {
        match (self.pending, event) {
            (Pending::Control, ReactorEvent::Control(byte)) => byte != crate::WAKE_SHUTDOWN,
            (Pending::Fresh, ReactorEvent::Woken) => true,
            _ => false,
        }
    }

    /// Begins a readiness wait. The registry is stale from then on, and no
    /// ready token is left over.
    pub open spec fn wait<C>(set: ListenSetView) -> StepView<C> {
        StepView {
            set: set.stale(),
            next: Some(
                (ReactorView { pending: Pending::Wait, queue: Seq::empty() }, ReactorAction::Wait),
            ),
        }
    }

    /// Turns to the next ready token. With none left, a new readiness wait
    /// begins. The control token asks for the wakeup byte, any other token
    /// for an accept on its listener.
    pub open spec fn advance<C>(queue: Seq<usize>, set: ListenSetView) -> StepView<C> {
        if queue.len() == 0 {
            Self::wait(set)
        } else if queue[0] == crate::TOKEN_NOTIFY {
            StepView {
                set,
                next: Some(
                    (
                        ReactorView { pending: Pending::Control, queue: queue.drop_first() },
                        ReactorAction::ReadControl,
                    ),
                ),
            }
        } else {
            StepView {
                set,
                next: Some(
                    (
                        ReactorView { pending: Pending::Accept(queue[0]), queue: queue.drop_first() },
                        ReactorAction::Accept(queue[0]),
                    ),
                ),
            }
        }
    }

    /// After a "set changed" byte: while the registry is stale, wait for it
    /// to become fresh; once it is fresh, begin a new readiness wait. Either
    /// way the ready tokens that were left of this wakeup are dropped, so no
    /// connection is reported for it: what is still ready then is reported
    /// by the new wait, together with the listeners added meanwhile.
    pub open spec fn drain<C>(set: ListenSetView) -> StepView<C> {
        if set.fresh {
            Self::wait(set)
        } else {
            StepView {
                set,
                next: Some(
                    (
                        ReactorView { pending: Pending::Fresh, queue: Seq::empty() },
                        ReactorAction::AwaitFresh,
                    ),
                ),
            }
        }
    }

    /// Hands a result to the caller. What is left of the ready tokens is
    /// dropped: the next call waits anew.
    pub open spec fn deliver<C>(
        set: ListenSetView,
        result: Result<Connection<C>, std::io::Error>,
    ) -> StepView<C> {
        StepView { set, next: Some((ReactorView::idle(), ReactorAction::Yield(result))) }
    }

    /// One step of the accept loop.
    pub open spec fn step<C>(self, set: ListenSetView, event: ReactorEvent<C>) -> StepView<C> {
        match (self.pending, event) {
            (Pending::Idle, ReactorEvent::Start) => Self::wait(set),
            (Pending::Wait, ReactorEvent::WaitFailed(e)) => Self::deliver(set, Err(e)),
            (Pending::Wait, ReactorEvent::Ready(tokens)) => Self::advance(tokens@, set),
            (Pending::Control, ReactorEvent::Control(byte)) => if byte == crate::WAKE_SHUTDOWN {
                StepView { set, next: None }
            } else {
                Self::drain(set)
            },
            (Pending::Fresh, ReactorEvent::Woken) => Self::drain(set),
            (Pending::Accept(_), ReactorEvent::Accepted(Ok(None))) => Self::advance(self.queue, set),
            (Pending::Accept(_), ReactorEvent::Accepted(Ok(Some(stream)))) => Self::deliver(
                set,
                Ok(Connection::tcp(stream)),
            ),
            (Pending::Accept(_), ReactorEvent::Accepted(Err(e))) => Self::deliver(set, Err(e)),
            (_, event) => StepView { set, next: Some((self, ReactorAction::Rejected(event))) },
        }
    }
}

/// The handle that runs a session's accept loop. It is consumed by each step
/// and handed back with the next action, so at most one step of a session is
/// in flight.
#[derive(Debug)]
pub struct AcceptorReactor {
    pending: Pending,
    ready: Vec<usize>,
    cursor: usize,
}

impl View for AcceptorReactor {
    type V = ReactorView;

    closed spec fn view(&self) -> ReactorView {
        ReactorView {
            pending: self.pending,
            queue: self.ready@.subrange(self.cursor as int, self.ready@.len() as int),
        }
    }
}

impl AcceptorReactor {
    #[verifier::type_invariant]
    spec fn cursor_in_range(self) -> bool {
        self.cursor <= self.ready@.len()
    }

    /// A reactor that nobody has asked for a connection yet.
    pub(crate) fn new() -> (reactor: AcceptorReactor)
        ensures
            reactor@ == ReactorView::idle(),
    {
        let reactor = AcceptorReactor { pending: Pending::Idle, ready: Vec::new(), cursor: 0 };
        assert(reactor@.queue =~= Seq::empty());
        reactor
    }

    /// What the reactor is waiting for.
    pub fn pending(&self) -> (pending: Pending)
        ensures
            pending == self@.pending,
    {
        self.pending
    }

    fn idle<C>(result: Result<Connection<C>, std::io::Error>) -> (r: (
        AcceptorReactor,
        ReactorAction<C>,
    ))
        ensures
            r.0@ == ReactorView::idle(),
            r.1 == ReactorAction::Yield(result),
    {
        (AcceptorReactor::new(), ReactorAction::Yield(result))
    }

    fn wait<C>(set: &mut ListenSet) -> (r: (AcceptorReactor, ReactorAction<C>))
        ensures
            final(set)@ == ReactorView::wait::<C>(old(set)@).set,
            ReactorView::wait::<C>(old(set)@).next == Some((r.0@, r.1)),
    {
        set.begin_wait();
        let reactor = AcceptorReactor { pending: Pending::Wait, ready: Vec::new(), cursor: 0 };
        assert(reactor@.queue =~= Seq::empty());
        (reactor, ReactorAction::Wait)
    }

    fn advance<C>(ready: Vec<usize>, cursor: usize, set: &mut ListenSet) -> (r: (
        AcceptorReactor,
        ReactorAction<C>,
    ))
        requires
            cursor <= ready@.len(),
        ensures
            ({
                let step = ReactorView::advance::<C>(
                    ready@.subrange(cursor as int, ready@.len() as int),
                    old(set)@,
                );
                final(set)@ == step.set && step.next == Some((r.0@, r.1))
            }),
    {
        let ghost queue = ready@.subrange(cursor as int, ready@.len() as int);
        if cursor == ready.len() {
            Self::wait(set)
        } else {
            let token = ready[cursor];
            assert(queue.drop_first() =~= ready@.subrange(cursor + 1, ready@.len() as int));
            if token == crate::TOKEN_NOTIFY {
                (
                    AcceptorReactor { pending: Pending::Control, ready, cursor: cursor + 1 },
                    ReactorAction::ReadControl,
                )
            } else {
                (
                    AcceptorReactor { pending: Pending::Accept(token), ready, cursor: cursor + 1 },
                    ReactorAction::Accept(token),
                )
            }
        }
    }

    fn drain<C>(set: &mut ListenSet) -> (r: (AcceptorReactor, ReactorAction<C>))
        ensures
            final(set)@ == ReactorView::drain::<C>(old(set)@).set,
            ReactorView::drain::<C>(old(set)@).next == Some((r.0@, r.1)),
    {
        if set.is_fresh() {
            Self::wait(set)
        } else {
            let reactor = AcceptorReactor { pending: Pending::Fresh, ready: Vec::new(), cursor: 0 };
            assert(reactor@.queue =~= Seq::empty());
            (reactor, ReactorAction::AwaitFresh)
        }
    }

    /// Takes one step of the accept loop: `event` is what came of the action
    /// that this reactor asked for last, and the result names the next one.
    ///
    /// `None` means that the session has ended: the wakeup channel carried
    /// the shutdown byte. Otherwise the reactor comes back with the next
    /// action. `Yield` carries the caller's result, a connection or an
    /// error, and leaves the reactor ready for the caller's next request.
    pub fn accept<C>(self, set: &mut ListenSet, event: ReactorEvent<C>) -> (r: Option<
        (AcceptorReactor, ReactorAction<C>),
    >)
        ensures
            final(set)@ == self@.step(old(set)@, event).set,
            match r {
                Some((reactor, action)) => self@.step(old(set)@, event).next == Some(
                    (reactor@, action),
                ),
                None => self@.step(old(set)@, event).next is None,
            },
    {
        proof {
            use_type_invariant(&self);
        }
        let AcceptorReactor { pending, ready, cursor } = self;
        match (pending, event) {
            (Pending::Idle, ReactorEvent::Start) => Some(Self::wait(set)),
            (Pending::Wait, ReactorEvent::WaitFailed(e)) => Some(Self::idle(Err(e))),
            (Pending::Wait, ReactorEvent::Ready(tokens)) => {
                assert(tokens@.subrange(0, tokens@.len() as int) =~= tokens@);
                Some(Self::advance(tokens, 0, set))
            },
            (Pending::Control, ReactorEvent::Control(byte)) => {
                if byte == crate::WAKE_SHUTDOWN {
                    None
                } else {
                    Some(Self::drain(set))
                }
            },
            (Pending::Fresh, ReactorEvent::Woken) => Some(Self::drain(set)),
            (Pending::Accept(_), ReactorEvent::Accepted(Ok(None))) => Some(
                Self::advance(ready, cursor, set),
            ),
            (Pending::Accept(_), ReactorEvent::Accepted(Ok(Some(stream)))) => Some(
                Self::idle(Ok(Connection::from_tcp(stream))),
            ),
            (Pending::Accept(_), ReactorEvent::Accepted(Err(e))) => Some(Self::idle(Err(e))),
            (pending, event) => Some(
                (AcceptorReactor { pending, ready, cursor }, ReactorAction::Rejected(event)),
            ),
        }
    }

    /// The accept loop as a forward-only sequence of steps.
    pub fn into_iter(self) -> (iter: AcceptIter)
        ensures
            iter@ == Some(self@),
    {
        AcceptIter { acceptor_reactor: Some(self) }
    }
}

/// Drives an [`AcceptorReactor`] as a sequence that ends with the session.
#[derive(Debug)]
pub struct AcceptIter {
    acceptor_reactor: Option<AcceptorReactor>,
}

impl View for AcceptIter {
    type V = Option<ReactorView>;

    /// The reactor that is driven, or `None` once the session has ended.
    closed spec fn view(&self) -> Option<ReactorView> {
        match self.acceptor_reactor {
            Some(reactor) => Some(reactor@),
            None => None,
        }
    }
}

impl AcceptIter {
    /// Takes one step of the accept loop, as [`AcceptorReactor::accept`]
    /// does, and keeps the reactor for the next step. The result is `None`
    /// when the session has ended, and from then on it is `None` for ever,
    /// whatever the event, and the registry is left alone.
    pub fn next<C>(&mut self, set: &mut ListenSet, event: ReactorEvent<C>) -> (r: Option<
        ReactorAction<C>,
    >)
        ensures
            match old(self)@ {
                Some(reactor) => {
                    let step = reactor.step(old(set)@, event);
                    &&& final(set)@ == step.set
                    &&& match step.next {
                        Some((next, action)) => final(self)@ == Some(next) && r == Some(action),
                        None => final(self)@ is None && r is None,
                    }
                },
                None => {
                    &&& final(set)@ == old(set)@
                    &&& final(self)@ is None
                    &&& r is None
                },
            },
    {
        match self.acceptor_reactor.take() {
            None => None,
            Some(reactor) => match reactor.accept(set, event) {
                None => None,
                Some((reactor, action)) => {
                    self.acceptor_reactor = Some(reactor);
                    Some(action)
                },
            },
        }
    }
}

/// The shutdown byte ends the session: a reactor that reads it yields
/// neither a connection nor an error, and is gone. The registry is as
/// before.
pub proof fn lemma_shutdown_ends_session<C>(reactor: ReactorView, set: ListenSetView)
    requires
        reactor.pending == Pending::Control,
    ensures
        reactor.step(set, ReactorEvent::<C>::Control(crate::WAKE_SHUTDOWN)).next is None,
        reactor.step(set, ReactorEvent::<C>::Control(crate::WAKE_SHUTDOWN)).set == set,
{
}

/// The session ends in no other way: a step gives no reactor back only when
/// the reactor was waiting for the wakeup byte and the shutdown byte came.
pub proof fn lemma_session_ends_only_on_shutdown<C>(
    reactor: ReactorView,
    set: ListenSetView,
    event: ReactorEvent<C>,
)
    requires
        reactor.step(set, event).next is None,
    ensures
        reactor.pending == Pending::Control,
        event == ReactorEvent::<C>::Control(crate::WAKE_SHUTDOWN),
{
}

/// The reactor never goes past a "set changed" byte while the registry is
/// stale: it asks to wait for freshness, and asks again after every wakeup
/// that finds the registry still stale. The ready tokens that were left of
/// the wakeup are dropped.
pub proof fn lemma_stale_registry_is_waited_for<C>(
    reactor: ReactorView,
    set: ListenSetView,
    event: ReactorEvent<C>,
)
    requires
        !set.fresh,
        reactor.checks_freshness(event),
    ensures
        reactor.step(set, event).set == set,
        reactor.step(set, event).next == Some(
            (
                ReactorView { pending: Pending::Fresh, queue: Seq::empty() },
                ReactorAction::<C>::AwaitFresh,
            ),
        ),
{
}

/// Once the registry is fresh, the reactor goes back to the poller: it
/// begins a new readiness wait, with the registry stale again and none of
/// the old wakeup's tokens kept.
pub proof fn lemma_fresh_registry_is_drained<C>(
    reactor: ReactorView,
    set: ListenSetView,
    event: ReactorEvent<C>,
)
    requires
        set.fresh,
        reactor.checks_freshness(event),
    ensures
        reactor.step(set, event).set == set.stale(),
        reactor.step(set, event).next == Some(
            (
                ReactorView { pending: Pending::Wait, queue: Seq::empty() },
                ReactorAction::<C>::Wait,
            ),
        ),
{
}

/// No connection is reported for a wakeup that carried a "set changed"
/// byte: whatever tokens the poller reported after the control token, the
/// reactor asks for no accept and yields nothing until a new readiness wait
/// has returned.
pub proof fn lemma_set_changed_reports_no_connection<C>(
    reactor: ReactorView,
    set: ListenSetView,
    event: ReactorEvent<C>,
)
    requires
        reactor.checks_freshness(event),
    ensures
        reactor.step(set, event).next is Some,
        reactor.step(set, event).reactor().queue == Seq::<usize>::empty(),
        reactor.step(set, event).action() == ReactorAction::<C>::AwaitFresh || reactor.step(
            set,
            event,
        ).action() == ReactorAction::<C>::Wait,
        reactor.step(set, event).reactor().pending == Pending::Fresh || reactor.step(
            set,
            event,
        ).reactor().pending == Pending::Wait,
{
}

/// A step of the reactor never adds, removes or moves a listener. The only
/// change it makes to the registry is to clear the freshness flag, and it
/// does so exactly when it asks for a readiness wait: every wait begins
/// with a stale registry.
pub proof fn lemma_step_only_marks_stale<C>(
    reactor: ReactorView,
    set: ListenSetView,
    event: ReactorEvent<C>,
)
    ensures
        reactor.step(set, event).set.listeners == set.listeners,
        reactor.step(set, event).set == if reactor.step(set, event).next matches Some(
            (_, ReactorAction::Wait),
        ) {
            set.stale()
        } else {
            set
        },
{
}

/// The reactor asks for an accept only on a token that the poller reported,
/// taking the reported tokens in their order; it never asks for one on the
/// control token. It does so only when the readiness wait has just
/// returned, or when the listener before had nothing pending. So when the
/// poller reports only the control token and tokens of registered
/// listeners, every accept is asked of a registered listener.
pub proof fn lemma_accept_names_a_ready_listener<C>(
    reactor: ReactorView,
    set: ListenSetView,
    event: ReactorEvent<C>,
    token: usize,
)
    requires
        reactor.awaits(event),
        reactor.step(set, event).next matches Some((_, ReactorAction::Accept(t))) && t == token,
    ensures
        token != crate::TOKEN_NOTIFY,
        event is Ready || event == ReactorEvent::<C>::Accepted(Ok(None)),
        match event {
            ReactorEvent::Ready(tokens) => tokens@.len() > 0 && tokens@[0] == token,
            _ => reactor.queue.len() > 0 && reactor.queue[0] == token,
        },
        reactor.step(set, event).next matches Some((next, _)) && next.pending == Pending::Accept(
            token,
        ) && next.queue == match event {
            ReactorEvent::Ready(tokens) => tokens@.drop_first(),
            _ => reactor.queue.drop_first(),
        },
{
}

/// What the caller gets is what the host gave: the connection over a
/// stream is yielded exactly when an accept returned that stream, and an
/// error exactly when the readiness wait or an accept failed with that
/// error. After a yield the reactor is ready for the caller's next request.
pub proof fn lemma_yield_hands_on_the_outcome<C>(
    reactor: ReactorView,
    set: ListenSetView,
    event: ReactorEvent<C>,
    result: Result<C, std::io::Error>,
)
    ensures
        match result {
            Ok(stream) => reactor.step(set, event).next matches Some((_, ReactorAction::Yield(r)))
                && r == Ok::<Connection<C>, std::io::Error>(Connection::tcp(stream))
                <==> reactor.pending is Accept && event == ReactorEvent::Accepted(
                Ok(Some(stream)),
            ),
            Err(e) => reactor.step(set, event).next matches Some((_, ReactorAction::Yield(r)))
                && r == Err::<Connection<C>, std::io::Error>(e) <==> (reactor.pending is Accept
                && event == ReactorEvent::<C>::Accepted(Err(e))) || (reactor.pending
                == Pending::Wait && event == ReactorEvent::<C>::WaitFailed(e)),
        },
        reactor.step(set, event).next matches Some((next, ReactorAction::Yield(_))) ==> next
            == ReactorView::idle(),
{
    if let Ok(stream) = result {
        Connection::tcp(stream).lemma_stream_of_tcp();
    }
}

/// An event that does not answer the outstanding action changes nothing and
/// is handed back.
pub proof fn lemma_stray_event_is_rejected<C>(
    reactor: ReactorView,
    set: ListenSetView,
    event: ReactorEvent<C>,
)
    ensures
        !reactor.awaits(event) <==> reactor.step(set, event) == (StepView {
            set,
            next: Some((reactor, ReactorAction::Rejected(event))),
        }),
{
}

/// A registration releases a reactor that waits for freshness: whatever
/// became of the attempt, the registry is fresh afterwards, so the reactor's
/// next wakeup begins a new readiness wait; and a listener that was
/// registered stands in the registry during that wait, under the token it
/// was registered with.
pub proof fn lemma_registration_releases_the_reactor<C>(
    reactor: ReactorView,
    set: ListenSetView,
    local: crate::address::PeerAddr,
    accepted: bool,
)
    requires
        reactor.pending == Pending::Fresh,
    ensures
        reactor.step(set.registered(local, accepted), ReactorEvent::<C>::Woken)
            == ReactorView::wait::<C>(set.registered(local, accepted)),
        reactor.step(set.registered(local, accepted), ReactorEvent::<C>::Woken).action()
            == ReactorAction::<C>::Wait,
        accepted ==> reactor.step(
            set.registered(local, accepted),
            ReactorEvent::<C>::Woken,
        ).set.has_token(set.next_token()) && reactor.step(
            set.registered(local, accepted),
            ReactorEvent::<C>::Woken,
        ).set.listeners[set.next_token()] == local,
{
}

/// A peer that connects to a listener is yielded to the caller: a request
/// to an idle reactor begins a wait; when the poller reports the listener's
/// token first, the reactor asks for an accept on that listener; and when
/// the accept gives the peer's connection, that connection is the caller's
/// result.
pub proof fn lemma_ready_listener_yields_its_peer<C>(
    set: ListenSetView,
    tokens: Vec<usize>,
    token: usize,
    peer: C,
)
    requires
        tokens@.len() > 0,
        tokens@[0] == token,
        token != crate::TOKEN_NOTIFY,
    ensures
        ({
            let waiting = ReactorView::idle().step(set, ReactorEvent::<C>::Start);
            let asking = waiting.reactor().step(waiting.set, ReactorEvent::<C>::Ready(tokens));
            let yielding = asking.reactor().step(
                asking.set,
                ReactorEvent::Accepted(Ok(Some(peer))),
            );
            &&& waiting.next is Some && waiting.action() == ReactorAction::<C>::Wait
            &&& asking.next is Some && asking.action() == ReactorAction::<C>::Accept(token)
            &&& yielding.next is Some && yielding.action() == ReactorAction::Yield(
                Ok(Connection::tcp(peer)),
            )
            &&& yielding.reactor() == ReactorView::idle()
            &&& yielding.set.listeners == set.listeners
        }),
{
}

/// A reactor that waits with nothing to accept stays in its wait until the
/// poller reports something; when the controller is given up, what it
/// reports is the control token, the byte read is the shutdown byte, and the
/// session ends without a connection or an error for the caller. This holds
/// with any listeners, and with none.
pub proof fn lemma_giving_up_the_controller_ends_the_wait<C>(set: ListenSetView, tokens: Vec<usize>)
    requires
        tokens@.len() > 0,
        tokens@[0] == crate::TOKEN_NOTIFY,
    ensures
        ({
            let waiting = ReactorView::idle().step(set, ReactorEvent::<C>::Start);
            let reading = waiting.reactor().step(waiting.set, ReactorEvent::<C>::Ready(tokens));
            let ended = reading.reactor().step(
                reading.set,
                ReactorEvent::<C>::Control(crate::WAKE_SHUTDOWN),
            );
            &&& waiting.next is Some && waiting.action() == ReactorAction::<C>::Wait
            &&& waiting.reactor().pending == Pending::Wait
            &&& reading.next is Some && reading.action() == ReactorAction::<C>::ReadControl
            &&& ended.next is None
            &&& ended.set.listeners == set.listeners
        }),
{
}

} // verus!
