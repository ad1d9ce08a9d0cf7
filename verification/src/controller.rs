//! The controller's side of a session: adding a listener, step by step, and
//! opening listener-event subscriptions.
//!
//! Adding a listener alternates work on the host (binding a socket, writing
//! to the wakeup channel, registering with the poller) with decisions. The
//! decisions are here: a driver carries out the step it is given and reports
//! the outcome, until the step is `Done`. The registry and the subscribers'
//! channels are changed here too, by `register` and `publish`: no report of
//! the driver's gets a call past these two steps.

use vstd::prelude::*;
use crate::address::{ListenAddr, PeerAddr, Resolved, StrToListenAddrError, ToListenAddr};
use crate::events::{
    HubView,
    ListenerEvent,
    ListenerEventsController,
    ListenerEventsHub,
    ListenerEventsReactor,
};
use crate::registry::{ListenSet, ListenSetView};

verus! {

/// Errors returned when adding a listener.
#[derive(Debug)]
pub enum AddListenerError<E> {
    /// The argument gave no single listenable address.
    ParseError(E),
    /// An I/O error occurred while creating the listener.
    IoError(std::io::Error),
}

impl<E> From<std::io::Error> for AddListenerError<E> {
    fn from(e: std::io::Error) -> (r: AddListenerError<E>) {
        AddListenerError::IoError(e)
    }
}

impl<E> vstd::std_specs::convert::FromSpecImpl<std::io::Error> for AddListenerError<E> {
    open spec fn obeys_from_spec() -> bool {
        true
    }

    open spec fn from_spec(e: std::io::Error) -> AddListenerError<E> {
        AddListenerError::IoError(e)
    }
}

/// What is done next while a listener is being added.
#[derive(Debug)]
pub enum AddListenerStep<E> {
    /// The driver binds a listening socket to this address and finds out its
    /// local address.
    Bind(ListenAddr),
    /// The driver writes `byte` to the wakeup channel. The registry lock
    /// must not be held: the reactor holds it while it waits.
    Signal { byte: u8, local: PeerAddr },
    /// With the registry lock held, the driver registers the socket with the
    /// poller under the registry's next token and hands the outcome to
    /// [`AcceptorController::register`], which records it. The driver then
    /// signals the freshness condition.
    Register(PeerAddr),
    /// With the subscribers' lock held, the driver calls
    /// [`AcceptorController::publish`], which sends this event to the
    /// subscribers.
    Publish(ListenerEvent),
    /// Nothing: this is the result of the whole call.
    Done(Result<(), AddListenerError<E>>),
}

/// What came of a step that only the driver can take.
#[derive(Debug)]
pub enum HostOutcome {
    /// The socket is bound; this is its local address.
    Bound(PeerAddr),
    /// The byte is written.
    Completed,
    /// The step failed.
    Failed(std::io::Error),
}

impl<E> AddListenerStep<E> {
    /// The first step, from the outcome of resolving the caller's argument.
    pub open spec fn first(resolved: Result<ListenAddr, E>) -> AddListenerStep<E> {
        match resolved {
            Ok(addr) => AddListenerStep::Bind(addr),
            Err(e) => AddListenerStep::Done(Err(AddListenerError::ParseError(e))),
        }
    }

    /// The step after a step of the host's, given what came of it.
    ///
    /// A bound socket is followed by the "set changed" byte, and the byte by
    /// the registration. A failure ends the call with that error. An outcome
    /// that does not answer the step leaves the step as it is; so does any
    /// outcome reported for `Register`, `Publish` or `Done`.
    pub open spec fn after(self, outcome: HostOutcome) -> AddListenerStep<E> {
        match (self, outcome) {
            (AddListenerStep::Bind(_), HostOutcome::Bound(local)) => AddListenerStep::Signal {
                byte: crate::WAKE_SET_CHANGED,
                local,
            },
            (AddListenerStep::Signal { local, .. }, HostOutcome::Completed) => AddListenerStep::Register(
                local,
            ),
            (AddListenerStep::Bind(_), HostOutcome::Failed(e)) => AddListenerStep::Done(
                Err(AddListenerError::IoError(e)),
            ),
            (AddListenerStep::Signal { .. }, HostOutcome::Failed(e)) => AddListenerStep::Done(
                Err(AddListenerError::IoError(e)),
            ),
            (step, _) => step,
        }
    }

    /// The step after the registration, given what the poller made of the
    /// socket: the event is published for a listener that was registered,
    /// and the call ends with the poller's error otherwise. Any other step
    /// stays as it is.
    pub open spec fn after_registration(self, registered: Result<(), std::io::Error>) -> AddListenerStep<
        E,
    > {
        match (self, registered) {
            (AddListenerStep::Register(local), Ok(_)) => AddListenerStep::Publish(
                ListenerEvent::StartListening(local),
            ),
            (AddListenerStep::Register(_), Err(e)) => AddListenerStep::Done(
                Err(AddListenerError::IoError(e)),
            ),
            (step, _) => step,
        }
    }

    /// The registry after the registration step. No other step changes the
    /// registry.
    pub open spec fn registers(self, set: ListenSetView, registered: Result<(), std::io::Error>) -> ListenSetView {
        match self {
            AddListenerStep::Register(local) => set.registered(local, registered is Ok),
            _ => set,
        }
    }

    /// The step after the event is published: the call has ended well. Any
    /// other step stays as it is.
    pub open spec fn after_publication(self) -> AddListenerStep<E> {
        match self {
            AddListenerStep::Publish(_) => AddListenerStep::Done(Ok(())),
            step => step,
        }
    }

    /// The subscribers' channels after the publishing step. No other step
    /// changes them.
    pub open spec fn publishes(self, hub: HubView) -> HubView {
        match self {
            AddListenerStep::Publish(event) => hub.publish(event),
            _ => hub,
        }
    }
}

/// The handle that controls a running session. There is one per session;
/// giving it up ends the session.
#[derive(Debug)]
pub struct AcceptorController {
    _private: (),
}

impl AcceptorController {
    pub(crate) fn new() -> AcceptorController {
        AcceptorController { _private: () }
    }

    /// The first step of adding a listener, from the outcome of resolving
    /// the caller's argument: bind to the address, or give up with the
    /// resolver's error.
    pub fn resolved<E>(&self, resolved: Result<ListenAddr, E>) -> (step: AddListenerStep<E>)
        ensures
            step == AddListenerStep::first(resolved),
    {
        match resolved {
            Ok(addr) => AddListenerStep::Bind(addr),
            Err(e) => AddListenerStep::Done(Err(AddListenerError::ParseError(e))),
        }
    }

    /// Begins adding a listener on `addr`. The argument is resolved; the
    /// result is the first step, which is either to bind or the end of the
    /// call with the resolver's error. Nothing else has happened yet.
    pub fn add_listener<A: ToListenAddr>(&self, addr: A) -> (step: AddListenerStep<A::Err>)
        ensures
            exists|resolved: Result<ListenAddr, A::Err>|
                call_ensures(A::to_listen_addr, (addr,), resolved) && step
                    == AddListenerStep::first(resolved),
            step is Bind || step is Done,
    {
        let resolved = addr.to_listen_addr();
        self.resolved(resolved)
    }

    /// Goes on after a step of the host's: `outcome` is what came of `step`.
    pub fn proceed<E>(&self, step: AddListenerStep<E>, outcome: HostOutcome) -> (next:
        AddListenerStep<E>)
        ensures
            next == step.after(outcome),
    {
        match (step, outcome) {
            (AddListenerStep::Bind(_), HostOutcome::Bound(local)) => AddListenerStep::Signal {
                byte: crate::WAKE_SET_CHANGED,
                local,
            },
            (AddListenerStep::Signal { local, .. }, HostOutcome::Completed) => AddListenerStep::Register(
                local,
            ),
            (AddListenerStep::Bind(_), HostOutcome::Failed(e)) => AddListenerStep::Done(
                Err(AddListenerError::IoError(e)),
            ),
            (AddListenerStep::Signal { .. }, HostOutcome::Failed(e)) => AddListenerStep::Done(
                Err(AddListenerError::IoError(e)),
            ),
            (step, _) => step,
        }
    }

    /// Takes the registration step: `registered` is what the poller made of
    /// the socket under the token `set.next_token()`. The registry becomes
    /// fresh; the listener is appended if the poller took the socket, and
    /// the call goes on to publish its address; if not, the call ends with
    /// the poller's error. At any other step nothing is changed.
    pub fn register<E>(
        &self,
        step: AddListenerStep<E>,
        set: &mut ListenSet,
        registered: Result<(), std::io::Error>,
    ) -> (next: AddListenerStep<E>)
        ensures
            next == step.after_registration(registered),
            final(set)@ == step.registers(old(set)@, registered),
    {
        match step {
            AddListenerStep::Register(local) => match set.register(local, registered) {
                Ok(_) => AddListenerStep::Publish(ListenerEvent::StartListening(local)),
                Err(e) => AddListenerStep::Done(Err(AddListenerError::IoError(e))),
            },
            step => step,
        }
    }

    /// Takes the publishing step: the event is sent to every subscriber, and
    /// the call has ended well. At any other step nothing is changed.
    pub fn publish<E>(&self, step: AddListenerStep<E>, hub: &mut ListenerEventsHub) -> (next:
        AddListenerStep<E>)
        ensures
            next == step.after_publication(),
            final(hub)@ == step.publishes(old(hub)@),
    {
        match step {
            AddListenerStep::Publish(event) => {
                hub.publish(event);
                AddListenerStep::Done(Ok(()))
            },
            step => step,
        }
    }

    /// Opens a subscription to the listener events of the session's
    /// acceptor: the receiving side and the sending side of a new channel
    /// that every later broadcast is sent to.
    pub fn listener_events(&self, hub: &mut ListenerEventsHub) -> (pair: (
        ListenerEventsReactor,
        ListenerEventsController,
    ))
        ensures
            final(hub)@ == old(hub)@.subscribe(),
            final(hub)@.wf(),
            pair.0.channel() == old(hub)@.channels.len(),
            pair.1.channel() == old(hub)@.channels.len(),
    {
        hub.listener_events()
    }

    /// Gives the controller up. The result is the byte to write to the
    /// wakeup channel, which ends the session at the reactor's next wakeup.
    pub fn shutdown(self) -> (byte: u8)
        ensures
            byte == crate::WAKE_SHUTDOWN,
    {
        crate::WAKE_SHUTDOWN
    }
}

/// A lookup that finds no address, or more than one, ends the call before
/// its first step on the host, with the error that says which of the two it
/// was.
pub proof fn lemma_unresolved_address_is_refused(found: Resolved)
    requires
        found.0 is Ok,
        found.0->Ok_0@.len() != 1,
    ensures
        found.0->Ok_0@.len() == 0 ==> AddListenerStep::first(found.single()) == AddListenerStep::Done(
            Err(AddListenerError::ParseError(StrToListenAddrError::NoAddress)),
        ),
        found.0->Ok_0@.len() > 1 ==> AddListenerStep::first(found.single()) == AddListenerStep::Done(
            Err(AddListenerError::ParseError(StrToListenAddrError::MultipleAddresses)),
        ),
{
}

/// A call that has ended stays ended, and changes nothing any more:
/// whatever is reported to it, and whichever step function is called on it,
/// the registry and the subscribers' channels are as before. So a call that
/// was refused at once registers no listener and publishes no event.
pub proof fn lemma_done_is_final<E>(
    result: Result<(), AddListenerError<E>>,
    outcome: HostOutcome,
    registered: Result<(), std::io::Error>,
    set: ListenSetView,
    hub: HubView,
)
    ensures
        AddListenerStep::Done(result).after(outcome) == AddListenerStep::Done(result),
        AddListenerStep::Done(result).after_registration(registered) == AddListenerStep::Done(
            result,
        ),
        AddListenerStep::Done(result).after_publication() == AddListenerStep::Done(result),
        AddListenerStep::Done(result).registers(set, registered) == set,
        AddListenerStep::Done(result).publishes(hub) == hub,
{
}

/// The steps come in one order, and each but the first is reached only by
/// the success of the one before: the "set changed" byte is written only
/// for a bound socket, the registry is touched only after the byte is
/// written, and an event is published only for a listener that was
/// registered. The byte is the "set changed" byte, and the address that is
/// registered and announced is the one the socket was bound to.
pub proof fn lemma_steps_keep_their_order<E>(
    step: AddListenerStep<E>,
    outcome: HostOutcome,
    registered: Result<(), std::io::Error>,
)
    ensures
        step.after(outcome) matches AddListenerStep::Signal { byte, local } ==> (step is Bind
            && byte == crate::WAKE_SET_CHANGED && outcome == HostOutcome::Bound(local)) || step
            == (AddListenerStep::<E>::Signal { byte, local }),
        step.after(outcome) matches AddListenerStep::Register(local) ==> (step is Signal
            && step->local == local && outcome is Completed) || step
            == AddListenerStep::<E>::Register(local),
        step.after(outcome) is Publish ==> step.after(outcome) == step,
        step.after(outcome) matches AddListenerStep::Done(Ok(_)) ==> step.after(outcome) == step,
        step.after(outcome) is Bind ==> step.after(outcome) == step,
        step.after_registration(registered) matches AddListenerStep::Publish(event) ==> (step
            == AddListenerStep::<E>::Register(event->0) && registered is Ok) || step
            == AddListenerStep::<E>::Publish(event),
        step.after_registration(registered) != step ==> step is Register,
        step.after_publication() matches AddListenerStep::Done(Ok(_)) ==> step is Publish
            || step.after_publication() == step,
        step.after_publication() != step ==> step is Publish,
{
}

/// Only the registration step changes the registry, and only the publishing
/// step changes the subscribers' channels.
pub proof fn lemma_only_two_steps_touch_state<E>(
    step: AddListenerStep<E>,
    registered: Result<(), std::io::Error>,
    set: ListenSetView,
    hub: HubView,
)
    ensures
        !(step is Register) ==> step.registers(set, registered) == set,
        !(step is Publish) ==> step.publishes(hub) == hub,
{
}

/// A failure while binding, signalling or registering ends the call with
/// that error. After a failed registration the registry is fresh and holds
/// the listeners it held before; no event is published.
pub proof fn lemma_failure_ends_the_call<E>(
    step: AddListenerStep<E>,
    e: std::io::Error,
    set: ListenSetView,
)
    ensures
        step is Bind || step is Signal ==> step.after(HostOutcome::Failed(e))
            == AddListenerStep::<E>::Done(Err(AddListenerError::IoError(e))),
        step is Register ==> step.after_registration(Err(e)) == AddListenerStep::<E>::Done(
            Err(AddListenerError::IoError(e)),
        ) && step.registers(set, Err(e)).listeners == set.listeners && step.registers(
            set,
            Err(e),
        ).fresh,
{
}

/// When every step works, the call binds, writes the "set changed" byte,
/// registers the listener under the registry's next token, publishes the
/// start of listening on the bound address to the subscribers, and ends
/// well.
pub proof fn lemma_call_that_works<E>(
    addr: ListenAddr,
    local: PeerAddr,
    set: ListenSetView,
    hub: HubView,
)
    ensures
        AddListenerStep::<E>::first(Ok(addr)) == AddListenerStep::<E>::Bind(addr),
        AddListenerStep::<E>::Bind(addr).after(HostOutcome::Bound(local)) == (
        AddListenerStep::<E>::Signal { byte: crate::WAKE_SET_CHANGED, local }),
        (AddListenerStep::<E>::Signal { byte: crate::WAKE_SET_CHANGED, local }).after(
            HostOutcome::Completed,
        ) == AddListenerStep::<E>::Register(local),
        AddListenerStep::<E>::Register(local).after_registration(Ok(()))
            == AddListenerStep::<E>::Publish(ListenerEvent::StartListening(local)),
        AddListenerStep::<E>::Register(local).registers(set, Ok(())).fresh,
        AddListenerStep::<E>::Register(local).registers(set, Ok(())).listeners
            == set.listeners.push(local),
        AddListenerStep::<E>::Publish(ListenerEvent::StartListening(local)).after_publication()
            == AddListenerStep::<E>::Done(Ok(())),
        AddListenerStep::<E>::Publish(ListenerEvent::StartListening(local)).publishes(hub)
            == hub.publish(ListenerEvent::StartListening(local)),
{
}

/// Every subscription that a broadcast reaches gets the event of a call
/// that registered its listener, exactly once and behind what was queued;
/// so two such subscriptions both get it.
pub proof fn lemma_call_tells_every_subscriber<E>(local: PeerAddr, hub: HubView, a: int, b: int)
    requires
        hub.reaches(a),
        hub.reaches(b),
    ensures
        ({
            let event = ListenerEvent::StartListening(local);
            let told = AddListenerStep::<E>::Register(local).after_registration(Ok(())).publishes(
                hub,
            );
            &&& told.channels[a].queue == hub.channels[a].queue.push(Some(event))
            &&& told.channels[b].queue == hub.channels[b].queue.push(Some(event))
            &&& told.reaches(a) && told.reaches(b)
        }),
{
    let event = ListenerEvent::StartListening(local);
    crate::events::lemma_publish_reaches_each_once(hub, event, a);
    crate::events::lemma_publish_reaches_each_once(hub, event, b);
}

} // verus!
