//! Handles entering a connection with a peer.
//!
//! [`Dialer`] and [`Listener`] are implemented on objects that allow dialing and listening;
//! [`Transport`] on objects that do both and start listening in the background.

pub mod and_then;
pub mod buffered;
pub mod denied;
pub mod error;
pub mod map;
pub mod map_err;
pub mod or;
pub mod or_else;
pub mod refused;
pub mod side_err;
pub mod try_transport;
pub mod upgrade;

use crate::address::Multiaddr;
use crate::upgrade::{InboundUpgrade, OutboundUpgrade};
use and_then::{DialerAndThen, ListenerAndThen};
use map::{MapDialer, MapListener};
use or::Or;
use or_else::{DialerOrElse, ListenerOrElse};
use side_err::{DialerMapErr, ListenerMapErr};
use std::marker::PhantomData;
use upgrade::Upgrade;
use vstd::prelude::*;

verus! {

/// The side of a connection.
#[derive(Debug, Copy, Clone, PartialEq, Eq, Structural)]
pub enum Endpoint {
    /// The side that dialed.
    Dialer,
    /// The side that listened.
    Listener,
}

/// An object that can listen.
pub trait Listener: Sized {
    /// What a connection gives in the end.
    type Output;

    /// Error of a connection.
    type Error;

    /// Stream of incoming connections.
    type Inbound;

    /// Pending computation that ends with the output of an incoming connection.
    type Upgrade;

    /// Starts listening on an address. The listener and the address come back if the address is
    /// not supported.
    fn listen_on(self, addr: Multiaddr) -> Result<(Self::Inbound, Multiaddr), (Self, Multiaddr)>;

    /// Translates an address that a remote has observed into one of ours.
    fn nat_traversal(&self, server: &Multiaddr, observed: &Multiaddr) -> Option<Multiaddr>;
}

/// Combinations of an object that listens with other objects.
pub trait ListenerExt: Listener {
    /// Tries the other one where this one does not support an address.
    fn or_listener<T>(self, other: T) -> (r: Or<Self, T>)
        ensures
            r == Or(self, other),
    {
        Or::new(self, other)
    }

    /// Applies a function to the output of incoming connections.
    fn map_listener<F, T>(self, f: F) -> (r: MapListener<Self, F, T>) where F: FnOnce(Self::Output, Multiaddr) -> T + Clone
        ensures
            r == (MapListener { inner: self, fun: f, output: PhantomData::<T> }),
    {
        MapListener::new(self, f)
    }

    /// Applies a function to the error of incoming connections.
    fn map_listener_err<F, E>(self, f: F) -> (r: ListenerMapErr<Self, F, E>) where F: FnOnce(Self::Error, Multiaddr) -> E + Clone
        ensures
            r == (ListenerMapErr { inner: self, fun: f, output: PhantomData::<E> }),
    {
        ListenerMapErr::new(self, f)
    }

    /// Goes on from the output of incoming connections with another computation.
    fn listener_and_then<F, T>(self, f: F) -> (r: ListenerAndThen<Self, F, T>) where F: FnOnce(Self::Output, Multiaddr) -> T + Clone
        ensures
            r == (ListenerAndThen { inner: self, fun: f, output: PhantomData::<T> }),
    {
        ListenerAndThen::new(self, f)
    }

    /// Goes on from the error of incoming connections with another computation.
    fn listener_or_else<F, T>(self, f: F) -> (r: ListenerOrElse<Self, F, T>) where F: FnOnce(Self::Error, Multiaddr) -> T + Clone
        ensures
            r == (ListenerOrElse { inner: self, fun: f, output: PhantomData::<T> }),
    {
        ListenerOrElse::new(self, f)
    }

    /// Upgrades incoming connections.
    fn with_listener_upgrade<U>(self, upgrade: U) -> (r: Upgrade<Self, U>) where
        U: InboundUpgrade<Self::Output> + Clone,

        ensures
            r == (Upgrade { inner: self, upgrade }),
    {
        Upgrade::new(self, upgrade)
    }
}

impl<X: Listener> ListenerExt for X {

}

/// An object that can dial.
pub trait Dialer: Sized {
    /// What a connection gives in the end.
    type Output;

    /// Error of a connection.
    type Error;

    /// Pending computation that ends with the output of an outgoing connection.
    type Outbound;

    /// Dials an address. The dialer and the address come back if the address is not supported.
    fn dial(self, addr: Multiaddr) -> Result<Self::Outbound, (Self, Multiaddr)>;
}

/// Combinations of an object that dials with other objects.
pub trait DialerExt: Dialer {
    /// Tries the other one where this one does not support an address.
    fn or_dialer<T>(self, other: T) -> (r: Or<Self, T>)
        ensures
            r == Or(self, other),
    {
        Or::new(self, other)
    }

    /// Applies a function to the output of outgoing connections.
    fn map_dialer<F, T>(self, f: F) -> (r: MapDialer<Self, F, T>) where F: FnOnce(Self::Output, Multiaddr) -> T
        ensures
            r == (MapDialer { inner: self, fun: f, output: PhantomData::<T> }),
    {
        MapDialer::new(self, f)
    }

    /// Applies a function to the error of outgoing connections.
    fn map_dialer_err<F, E>(self, f: F) -> (r: DialerMapErr<Self, F, E>) where F: FnOnce(Self::Error, Multiaddr) -> E
        ensures
            r == (DialerMapErr { inner: self, fun: f, output: PhantomData::<E> }),
    {
        DialerMapErr::new(self, f)
    }

    /// Goes on from the output of outgoing connections with another computation.
    fn dialer_and_then<F, T>(self, f: F) -> (r: DialerAndThen<Self, F, T>) where F: FnOnce(Self::Output, Multiaddr) -> T
        ensures
            r == (DialerAndThen { inner: self, fun: f, output: PhantomData::<T> }),
    {
        DialerAndThen::new(self, f)
    }

    /// Goes on from the error of outgoing connections with another computation.
    fn dialer_or_else<F, T>(self, f: F) -> (r: DialerOrElse<Self, F, T>) where F: FnOnce(Self::Error, Multiaddr) -> T
        ensures
            r == (DialerOrElse { inner: self, fun: f, output: PhantomData::<T> }),
    {
        DialerOrElse::new(self, f)
    }

    /// Upgrades outgoing connections.
    fn with_dialer_upgrade<U>(self, upgrade: U) -> (r: Upgrade<Self, U>) where
        U: OutboundUpgrade<Self::Output>,

        ensures
            r == (Upgrade { inner: self, upgrade }),
    {
        Upgrade::new(self, upgrade)
    }
}

impl<X: Dialer> DialerExt for X {

}

/// An object that can dial and listen, where starting to listen takes time.
pub trait Transport: Sized {
    /// What a connection gives in the end.
    type Output;

    /// Error of a listener.
    type Error;

    /// Pending computation that ends with a listener and its addresses.
    type ListenOn;

    /// Stream of incoming connections.
    type Listener;

    /// Pending computation that ends with the output of an incoming connection.
    type ListenerUpgrade;

    /// Pending computation that ends with the output of an outgoing connection.
    type Dial;

    /// Starts listening on an address. The transport and the address come back if the address
    /// is not supported.
    fn listen_on(self, addr: Multiaddr) -> Result<Self::ListenOn, (Self, Multiaddr)>;

    /// Dials an address. The transport and the address come back if the address is not
    /// supported.
    fn dial(self, addr: Multiaddr) -> Result<Self::Dial, (Self, Multiaddr)>;

    /// Translates an address that a remote has observed into one of ours.
    fn nat_traversal(&self, server: &Multiaddr, observed: &Multiaddr) -> Option<Multiaddr>;
}

} // verus!
