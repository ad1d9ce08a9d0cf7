//! The connection-acceptance core of a networking library, written without
//! any I/O of its own: a registry of listening sockets, the accept loop as a
//! state machine, the controller's registration protocol and the
//! listener-event publish/subscribe hub.
//!
//! A driver owns the sockets, the readiness poller, the wakeup channel and
//! the locks. It performs the action that a step of this library names and
//! hands back what came of it.

use vstd::prelude::*;

pub mod address;
pub mod connection;
pub mod registry;
pub mod reactor;
pub mod events;
pub mod controller;
pub mod service;

verus! {

/// `std::io::Error`, carried through from the driver to the caller. Nothing
/// here looks inside one.
#[verifier::external_type_specification]
#[verifier::external_body]
pub struct ExIoError(std::io::Error);

/// The poll token reserved for the session's wakeup channel. No listener is
/// ever given this token.
pub const TOKEN_NOTIFY: usize = usize::MAX;

/// The byte on the wakeup channel that says the set of listeners changed.
pub const WAKE_SET_CHANGED: u8 = 0;

/// The byte on the wakeup channel that ends the session.
pub const WAKE_SHUTDOWN: u8 = 1;

} // verus!
