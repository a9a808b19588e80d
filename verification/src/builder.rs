//! Puts a transport together from what dials and what listens.

use crate::address::Multiaddr;
use crate::transport::denied::Denied;
use crate::transport::refused::Refused;
use crate::transport::{Dialer, Listener};
use vstd::prelude::*;

verus! {

/// Dials with one object and listens with another one.
#[derive(Debug)]
pub struct Transport<D, L> {
    /// What dials.
    pub dialer: D,
    /// What listens.
    pub listener: L,
}

impl<D: Clone, L: Clone> Clone for Transport<D, L> {
    fn clone(&self) -> (r: Self)
        ensures
            cloned(self.dialer, r.dialer),
            cloned(self.listener, r.listener),
    {
        Transport { dialer: self.dialer.clone(), listener: self.listener.clone() }
    }
}

impl<D, L> Transport<D, L> {
    /// What dials and what listens.
    pub fn into(self) -> (r: (D, L))
        ensures
            r == (self.dialer, self.listener),
    {
        (self.dialer, self.listener)
    }

    /// Makes what dials into something else.
    pub fn replace_dialer<F, T>(self, f: F) -> (r: Transport<T, L>) where F: FnOnce(D) -> T
        requires
            call_requires(f, (self.dialer,)),
        ensures
            call_ensures(f, (self.dialer,), r.dialer),
            r.listener == self.listener,
    {
        Transport { dialer: f(self.dialer), listener: self.listener }
    }

    /// Makes what listens into something else.
    pub fn replace_listener<F, T>(self, f: F) -> (r: Transport<D, T>) where F: FnOnce(L) -> T
        requires
            call_requires(f, (self.listener,)),
        ensures
            r.dialer == self.dialer,
            call_ensures(f, (self.listener,), r.listener),
    {
        Transport { dialer: self.dialer, listener: f(self.listener) }
    }
}

impl Transport<Denied, Denied> {
    /// Neither dials nor listens.
    pub fn denied() -> (r: Self)
        ensures
            r == (Transport { dialer: Denied, listener: Denied }),
    {
        Transport { dialer: Denied, listener: Denied }
    }
}

impl<DT, DE, LT, LE> Transport<Refused<DT, DE>, Refused<LT, LE>> {
    /// Neither dials nor listens, with given outputs and errors.
    pub fn refused() -> (r: Self)
        ensures
            r == (Transport {
                dialer: Refused::<DT, DE> { types: std::marker::PhantomData::<(DT, DE)> },
                listener: Refused::<LT, LE> { types: std::marker::PhantomData::<(LT, LE)> },
            }),
    {
        Transport { dialer: Refused::new(), listener: Refused::new() }
    }
}

impl<D: Dialer, L: Listener> Transport<D, L> {
    /// Dials with one object and listens with another one.
    pub fn new(dialer: D, listener: L) -> (r: Self)
        ensures
            r == (Transport { dialer, listener }),
    {
        Transport { dialer, listener }
    }
}

impl<L: Listener> Transport<Denied, L> {
    /// Only listens.
    pub fn listener(listener: L) -> (r: Self)
        ensures
            r == (Transport { dialer: Denied, listener }),
    {
        Transport::new(Denied, listener)
    }

    /// Adds what dials.
    pub fn with_dialer<D: Dialer>(self, dialer: D) -> (r: Transport<D, L>)
        ensures
            r == (Transport { dialer, listener: self.listener }),
    {
        Transport { dialer, listener: self.listener }
    }
}

impl<D: Dialer> Transport<D, Denied> {
    /// Only dials.
    pub fn dialer(dialer: D) -> (r: Self)
        ensures
            r == (Transport { dialer, listener: Denied }),
    {
        Transport::new(dialer, Denied)
    }

    /// Adds what listens.
    pub fn with_listener<L: Listener>(self, listener: L) -> (r: Transport<D, L>)
        ensures
            r == (Transport { dialer: self.dialer, listener }),
    {
        Transport { dialer: self.dialer, listener }
    }
}

impl<D: Dialer, L> Dialer for Transport<D, L> {
    type Output = D::Output;

    type Error = D::Error;

    type Outbound = D::Outbound;

    fn dial(self, addr: Multiaddr) -> (r: Result<Self::Outbound, (Self, Multiaddr)>)
        ensures
            exists|inner: Result<D::Outbound, (D, Multiaddr)>| #[trigger]
                call_ensures(D::dial, (self.dialer, addr), inner) && r == match inner {
                    Ok(future) => Ok::<D::Outbound, (Self, Multiaddr)>(future),
                    Err((dialer, a)) => Err((Transport { dialer, listener: self.listener }, a)),
                },
    {
        match self.dialer.dial(addr) {
            Ok(future) => Ok(future),
            Err((dialer, addr)) => Err((Transport { dialer, listener: self.listener }, addr)),
        }
    }
}

impl<D, L: Listener> Listener for Transport<D, L> {
    type Output = L::Output;

    type Error = L::Error;

    type Inbound = L::Inbound;

    type Upgrade = L::Upgrade;

    fn listen_on(self, addr: Multiaddr) -> (r: Result<
        (Self::Inbound, Multiaddr),
        (Self, Multiaddr),
    >)
        ensures
            exists|inner: Result<(L::Inbound, Multiaddr), (L, Multiaddr)>| #[trigger]
                call_ensures(L::listen_on, (self.listener, addr), inner) && r == match inner {
                    Ok(stream) => Ok::<(L::Inbound, Multiaddr), (Self, Multiaddr)>(stream),
                    Err((listener, a)) => Err((Transport { dialer: self.dialer, listener }, a)),
                },
    {
        match self.listener.listen_on(addr) {
            Ok(stream) => Ok(stream),
            Err((listener, addr)) => Err((Transport { dialer: self.dialer, listener }, addr)),
        }
    }

    fn nat_traversal(&self, server: &Multiaddr, observed: &Multiaddr) -> (r: Option<Multiaddr>)
        ensures
            call_ensures(L::nat_traversal, (&self.listener, server, observed), r),
    {
        self.listener.nat_traversal(server, observed)
    }
}

} // verus!
