//! A transport with a given output and error that supports no address.

use crate::address::Multiaddr;
use crate::transport::{Dialer, Listener};
use std::marker::PhantomData;
use vstd::prelude::*;

verus! {

/// Dials and listens on no address, with any output and error.
#[derive(Debug)]
pub struct Refused<T, E> {
    /// The output and the error.
    pub types: PhantomData<(T, E)>,
}

impl<T, E> Refused<T, E> {
    /// A transport that supports no address.
    pub fn new() -> (r: Self)
        ensures
            r == (Refused::<T, E> { types: PhantomData::<(T, E)> }),
    {
        Refused { types: PhantomData }
    }
}

impl<T, E> Listener for Refused<T, E> {
    type Output = T;

    type Error = E;

    type Inbound = void::Void;

    type Upgrade = void::Void;

    fn listen_on(self, addr: Multiaddr) -> (r: Result<
        (Self::Inbound, Multiaddr),
        (Self, Multiaddr),
    >)
        ensures
            r == Err::<(void::Void, Multiaddr), (Self, Multiaddr)>((self, addr)),
    {
        Err((self, addr))
    }

    fn nat_traversal(&self, server: &Multiaddr, observed: &Multiaddr) -> (r: Option<Multiaddr>)
        ensures
            r is None,
    {
        None
    }
}

impl<T, E> Dialer for Refused<T, E> {
    type Output = T;

    type Error = E;

    type Outbound = void::Void;

    fn dial(self, addr: Multiaddr) -> (r: Result<Self::Outbound, (Self, Multiaddr)>)
        ensures
            r == Err::<void::Void, (Self, Multiaddr)>((self, addr)),
    {
        Err((self, addr))
    }
}

} // verus!
