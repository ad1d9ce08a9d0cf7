//! Listenable and peer addresses, and the rule that picks the one address a
//! listener is bound to.

use vstd::prelude::*;

verus! {

/// A concrete socket address, as plain numbers.
#[derive(Clone, Copy, Debug, PartialEq, Eq, Structural)]
pub enum SocketAddress {
    /// An IPv4 address (big-endian bits) and a port.
    V4 { ip: u32, port: u16 },
    /// An IPv6 address (big-endian bits), a port, the flow label and the scope.
    V6 { ip6: u128, port: u16, flowinfo: u32, scope_id: u32 },
}

/// An address that a listener can be bound to.
#[derive(Clone, Copy, Debug, PartialEq, Eq, Structural)]
pub enum ListenAddr {
    Tcp(SocketAddress),
}

/// The address of an endpoint that peers can connect to.
#[derive(Clone, Copy, Debug, PartialEq, Eq, Structural)]
pub enum PeerAddr {
    Tcp(SocketAddress),
}

/// Anything that can be turned into exactly one listenable address.
pub trait ToListenAddr: Sized {
    type Err;

    fn to_listen_addr(self) -> Result<ListenAddr, Self::Err>;
}

/// Why a textual address gave no listenable address.
#[derive(Debug)]
pub enum StrToListenAddrError {
    /// The lookup itself failed.
    IoError(std::io::Error),
    /// The lookup found nothing.
    NoAddress,
    /// The lookup found more than one address.
    MultipleAddresses,
}

/// What a lookup of a textual address gave: the addresses found, in the
/// resolver's order, or the resolver's failure.
#[derive(Debug)]
pub struct Resolved(pub Result<Vec<SocketAddress>, std::io::Error>);

impl Resolved {
    /// The one address of a lookup that found exactly one; otherwise the
    /// reason there is none.
    pub open spec fn single(self) -> Result<ListenAddr, StrToListenAddrError> {
        match self.0 {
            Err(e) => Err(StrToListenAddrError::IoError(e)),
            Ok(found) => if found@.len() == 0 {
                Err(StrToListenAddrError::NoAddress)
            } else if found@.len() == 1 {
                Ok(ListenAddr::Tcp(found@[0]))
            } else {
                Err(StrToListenAddrError::MultipleAddresses)
            },
        }
    }
}

impl ToListenAddr for Resolved {
    type Err = StrToListenAddrError;

    fn to_listen_addr(self) -> (r: Result<ListenAddr, StrToListenAddrError>)
        ensures
            r == self.single(),
    {
        match self.0 {
            Err(e) => Err(StrToListenAddrError::IoError(e)),
            Ok(found) => {
                if found.len() == 0 {
                    Err(StrToListenAddrError::NoAddress)
                } else if found.len() == 1 {
                    Ok(ListenAddr::Tcp(found[0]))
                } else {
                    Err(StrToListenAddrError::MultipleAddresses)
                }
            },
        }
    }
}

} // verus!
