//! An accepted connection.
//!
//! The reactor wraps every stream that a listener accepts before it hands
//! the stream to the caller. What the stream is, and how it is read and
//! written, is the driver's business.

use vstd::prelude::*;

verus! {

/// A connection to a peer, over a stream of type `S`.
#[derive(Debug)]
pub struct Connection<S> {
    inner: ConnectionInner<S>,
}

#[derive(Debug)]
enum ConnectionInner<S> {
    Tcp(S),
}

impl<S> Connection<S> {
    /// The connection over the TCP stream `tcp_stream`.
    pub closed spec fn tcp(tcp_stream: S) -> Connection<S> {
        Connection { inner: ConnectionInner::Tcp(tcp_stream) }
    }

    /// The stream that the connection runs over.
    pub closed spec fn stream(self) -> S {
        match self.inner {
            ConnectionInner::Tcp(s) => s,
        }
    }

    /// A connection is the connection over its stream, and no other.
    pub proof fn lemma_stream_of_tcp(self)
        ensures
            self == Connection::tcp(self.stream()),
            forall|s: S| #[trigger] Connection::tcp(s).stream() == s,
    {
    }

    /// Wraps an established TCP stream.
    pub fn from_tcp(tcp_stream: S) -> (connection: Connection<S>)
        ensures
            connection == Connection::tcp(tcp_stream),
    {
        Connection { inner: ConnectionInner::Tcp(tcp_stream) }
    }

    /// Unwraps the stream, for the one who reads and writes it.
    pub fn into_stream(self) -> (stream: S)
        ensures
            stream == self.stream(),
    {
        match self.inner {
            ConnectionInner::Tcp(s) => s,
        }
    }
}

} // verus!
