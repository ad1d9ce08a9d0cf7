//! The service, the acceptor it creates, and the start of a session.

use vstd::prelude::*;
use crate::events::{HubView, ListenerEventsHub};
use crate::reactor::ReactorView;
use crate::registry::{ListenSet, ListenSetView};

pub use crate::controller::{AcceptorController, AddListenerError};
pub use crate::events::{
    ListenerEvent,
    ListenerEventsController,
    ListenerEventsIter,
    ListenerEventsReactor,
};
pub use crate::reactor::{AcceptIter, AcceptorReactor};

verus! {

/// The handle to the library. Everything else is made, directly or
/// indirectly, through a `Service`.
#[derive(Debug)]
pub struct Service;

impl Service {
    /// Creates a new `Service`.
    pub fn new() -> Service {
        Service
    }

    /// Creates an acceptor, given the outcome of creating its readiness
    /// poller. Without a poller there is no acceptor, and the poller's error
    /// is handed back. A new acceptor has no listener and no subscriber, and
    /// its registry is fresh.
    pub fn acceptor(&self, poller: Result<(), std::io::Error>) -> (r: Result<Acceptor, std::io::Error>)
        ensures
            match poller {
                Ok(_) => r matches Ok(acceptor) && acceptor@ == AcceptorView::empty(),
                Err(e) => r matches Err(f) && f == e,
            },
    {
        match poller {
            Ok(_) => Ok(Acceptor { listen_set: ListenSet::new(), listener_events: ListenerEventsHub::new() }),
            Err(e) => Err(e),
        }
    }
}

/// The mathematical content of an [`Acceptor`].
pub struct AcceptorView {
    /// The listener registry.
    pub listen_set: ListenSetView,
    /// The listener-event channels.
    pub listener_events: HubView,
}

impl AcceptorView {
    /// An acceptor as `Service::acceptor` makes it.
    pub open spec fn empty() -> AcceptorView {
        AcceptorView { listen_set: ListenSetView::empty(), listener_events: HubView::empty() }
    }
}

/// Used to listen for and accept incoming connections: the listener
/// registry and the listener-event hub of one accepting session. A driver
/// that shares an acceptor between threads takes it apart and keeps each
/// part behind a lock of its own.
#[derive(Debug)]
pub struct Acceptor {
    listen_set: ListenSet,
    listener_events: ListenerEventsHub,
}

impl View for Acceptor {
    type V = AcceptorView;

    closed spec fn view(&self) -> AcceptorView {
        AcceptorView { listen_set: self.listen_set@, listener_events: self.listener_events@ }
    }
}

impl ListenSet {
    /// Starts a session on this registry, given the outcome of creating the
    /// wakeup channel and registering its read end with the poller under
    /// `TOKEN_NOTIFY`. If that worked, the result is the session's reactor,
    /// with no request outstanding, and its controller; if not, the error.
    /// The registry is as before.
    pub fn start(&mut self, control: Result<(), std::io::Error>) -> (r: Result<
        (AcceptorReactor, AcceptorController),
        std::io::Error,
    >)
        ensures
            final(self)@ == old(self)@,
            match control {
                Ok(_) => r matches Ok(pair) && pair.0@ == ReactorView::idle(),
                Err(e) => r matches Err(f) && f == e,
            },
    {
        match control {
            Ok(_) => Ok((AcceptorReactor::new(), AcceptorController::new())),
            Err(e) => Err(e),
        }
    }
}

impl Acceptor {
    /// Starts a session: see [`ListenSet::start`].
    pub fn start(&mut self, control: Result<(), std::io::Error>) -> (r: Result<
        (AcceptorReactor, AcceptorController),
        std::io::Error,
    >)
        ensures
            final(self)@ == old(self)@,
            match control {
                Ok(_) => r matches Ok(pair) && pair.0@ == ReactorView::idle(),
                Err(e) => r matches Err(f) && f == e,
            },
    {
        self.listen_set.start(control)
    }

    /// Takes the acceptor apart into its registry and its hub.
    pub fn into_parts(self) -> (parts: (ListenSet, ListenerEventsHub))
        ensures
            parts.0@ == self@.listen_set,
            parts.1@ == self@.listener_events,
    {
        (self.listen_set, self.listener_events)
    }

    /// Puts an acceptor together from a registry and a hub.
    pub fn from_parts(listen_set: ListenSet, listener_events: ListenerEventsHub) -> (acceptor:
        Acceptor)
        ensures
            acceptor@.listen_set == listen_set@,
            acceptor@.listener_events == listener_events@,
    {
        Acceptor { listen_set, listener_events }
    }
}

} // verus!
