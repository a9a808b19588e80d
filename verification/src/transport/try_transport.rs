//! Transports that tell why they cannot be used.

use crate::address::Multiaddr;
use vstd::prelude::*;

verus! {

/// Why a transport cannot dial or listen.
#[derive(Debug, PartialEq, Eq)]
pub enum TransportError<E> {
    /// The address is not supported; it is handed back.
    MultiaddrNotSupported(Multiaddr),
    /// Anything else.
    Other(E),
}

/// An object that can dial and listen, and tells why it cannot.
pub trait TryTransport: Sized {
    /// What a connection gives in the end.
    type Output;

    /// Error of a connection.
    type Error;

    /// Stream of incoming connections.
    type Listener;

    /// Pending computation that ends with the output of an incoming connection.
    type ListenerUpgrade;

    /// Pending computation that ends with the output of an outgoing connection.
    type Dial;

    /// Starts listening on an address.
    fn listen_on(self, addr: Multiaddr) -> Result<
        (Self::Listener, Multiaddr),
        TransportError<Self::Error>,
    >;

    /// Dials an address.
    fn dial(self, addr: Multiaddr) -> Result<Self::Dial, TransportError<Self::Error>>;

    /// Translates an address that a remote has observed into one of ours.
    fn nat_traversal(&self, server: &Multiaddr, observed: &Multiaddr) -> Option<Multiaddr>;
}

} // verus!
