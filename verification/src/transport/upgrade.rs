//! Upgrades connections once they are made.

use crate::address::{Multiaddr, MultiaddrSeq};
use crate::async_value::{Async, Poll};
use crate::transport::{Dialer, Listener, Transport};
use crate::upgrade::apply::{
    apply_inbound, apply_outbound, InboundUpgradeApply, NameWrap, OutboundUpgradeApply,
};
use crate::upgrade::{InboundUpgrade, OutboundUpgrade};
use vstd::prelude::*;

verus! {

/// Upgrades all connections.
#[derive(Debug)]
pub struct Upgrade<T, U> {
    /// What dials or listens.
    pub inner: T,
    /// The upgrade.
    pub upgrade: U,
}

impl<T: Clone, U: Clone> Clone for Upgrade<T, U> {
    fn clone(&self) -> (r: Self)
        ensures
            cloned(self.inner, r.inner),
            cloned(self.upgrade, r.upgrade),
    {
        Upgrade { inner: self.inner.clone(), upgrade: self.upgrade.clone() }
    }
}

impl<T: Copy, U: Copy> Copy for Upgrade<T, U> {

}

impl<T, U> Upgrade<T, U> {
    /// Upgrades all connections.
    pub fn new(inner: T, upgrade: U) -> (r: Self)
        ensures
            r == (Upgrade { inner, upgrade }),
    {
        Upgrade { inner, upgrade }
    }
}

impl<T, U> Transport for Upgrade<T, U> where
    T: Transport,
    U: InboundUpgrade<T::Output> + OutboundUpgrade<
        T::Output,
        Output = <U as InboundUpgrade<T::Output>>::Output,
    > + Clone,
 {
    type Output = <U as InboundUpgrade<T::Output>>::Output;

    type Error = T::Error;

    type ListenOn = UpgradeListenOn<T::ListenOn, U>;

    type Listener = UpgradeListener<T::Listener, U>;

    type ListenerUpgrade = UpgradeListenerUpgrade<T::ListenerUpgrade, U>;

    type Dial = UpgradeDial<T::Dial, U>;

    fn listen_on(self, addr: Multiaddr) -> (r: Result<Self::ListenOn, (Self, Multiaddr)>)
        ensures
            exists|inner: Result<T::ListenOn, (T, Multiaddr)>| #[trigger]
                call_ensures(T::listen_on, (self.inner, addr), inner) && r == match inner {
                    Ok(future) => Ok::<UpgradeListenOn<T::ListenOn, U>, (Self, Multiaddr)>(
                        UpgradeListenOn { future, upgrade: Some(self.upgrade) },
                    ),
                    Err((listener, a)) => Err(
                        (Upgrade { inner: listener, upgrade: self.upgrade }, a),
                    ),
                },
    {
        match self.inner.listen_on(addr) {
            Ok(future) => Ok(UpgradeListenOn { future, upgrade: Some(self.upgrade) }),
            Err((listener, addr)) => Err((Upgrade::new(listener, self.upgrade), addr)),
        }
    }

    fn dial(self, addr: Multiaddr) -> (r: Result<Self::Dial, (Self, Multiaddr)>)
        ensures
            exists|inner: Result<T::Dial, (T, Multiaddr)>| #[trigger]
                call_ensures(T::dial, (self.inner, addr), inner) && r == match inner {
                    Ok(future) => Ok::<UpgradeDial<T::Dial, U>, (Self, Multiaddr)>(
                        UpgradeDial { future, upgrade: Some(self.upgrade) },
                    ),
                    Err((dialer, a)) => Err((Upgrade { inner: dialer, upgrade: self.upgrade }, a)),
                },
    {
        match self.inner.dial(addr) {
            Ok(future) => Ok(UpgradeDial { future, upgrade: Some(self.upgrade) }),
            Err((dialer, addr)) => Err((Upgrade::new(dialer, self.upgrade), addr)),
        }
    }

    fn nat_traversal(&self, server: &Multiaddr, observed: &Multiaddr) -> (r: Option<Multiaddr>)
        ensures
            call_ensures(T::nat_traversal, (&self.inner, server, observed), r),
    {
        self.inner.nat_traversal(server, observed)
    }
}

impl<L, U> Listener for Upgrade<L, U> where L: Listener, U: InboundUpgrade<L::Output> + Clone {
    type Output = <U as InboundUpgrade<L::Output>>::Output;

    type Error = L::Error;

    type Inbound = UpgradeListener<L::Inbound, U>;

    type Upgrade = UpgradeListenerUpgrade<L::Upgrade, U>;

    fn listen_on(self, addr: Multiaddr) -> (r: Result<
        (Self::Inbound, Multiaddr),
        (Self, Multiaddr),
    >)
        ensures
            exists|inner: Result<(L::Inbound, Multiaddr), (L, Multiaddr)>| #[trigger]
                call_ensures(L::listen_on, (self.inner, addr), inner) && r == match inner {
                    Ok((listener, a)) => Ok::<
                        (UpgradeListener<L::Inbound, U>, Multiaddr),
                        (Self, Multiaddr),
                    >((UpgradeListener { listener, upgrade: self.upgrade }, a)),
                    Err((listener, a)) => Err(
                        (Upgrade { inner: listener, upgrade: self.upgrade }, a),
                    ),
                },
    {
        match self.inner.listen_on(addr) {
            Ok((listener, addr)) => Ok((UpgradeListener { listener, upgrade: self.upgrade }, addr)),
            Err((listener, addr)) => Err((Upgrade::new(listener, self.upgrade), addr)),
        }
    }

    fn nat_traversal(&self, server: &Multiaddr, observed: &Multiaddr) -> (r: Option<Multiaddr>)
        ensures
            call_ensures(L::nat_traversal, (&self.inner, server, observed), r),
    {
        self.inner.nat_traversal(server, observed)
    }
}

impl<D, U> Dialer for Upgrade<D, U> where D: Dialer, U: OutboundUpgrade<D::Output> {
    type Output = <U as OutboundUpgrade<D::Output>>::Output;

    type Error = D::Error;

    type Outbound = UpgradeDial<D::Outbound, U>;

    fn dial(self, addr: Multiaddr) -> (r: Result<Self::Outbound, (Self, Multiaddr)>)
        ensures
            exists|inner: Result<D::Outbound, (D, Multiaddr)>| #[trigger]
                call_ensures(D::dial, (self.inner, addr), inner) && r == match inner {
                    Ok(future) => Ok::<UpgradeDial<D::Outbound, U>, (Self, Multiaddr)>(
                        UpgradeDial { future, upgrade: Some(self.upgrade) },
                    ),
                    Err((dialer, a)) => Err((Upgrade { inner: dialer, upgrade: self.upgrade }, a)),
                },
    {
        match self.inner.dial(addr) {
            Ok(future) => Ok(UpgradeDial { future, upgrade: Some(self.upgrade) }),
            Err((dialer, addr)) => Err((Upgrade::new(dialer, self.upgrade), addr)),
        }
    }
}

/// A listener that is being started and whose connections are to be upgraded.
#[derive(Debug)]
pub struct UpgradeListenOn<F, U> {
    /// The start of the listener.
    pub future: F,
    /// The upgrade, until the listener has started.
    pub upgrade: Option<U>,
}

impl<F, U> UpgradeListenOn<F, U> {
    /// What becomes of the outcome of starting the listener.
    pub fn poll<L, E>(&mut self, polled: Poll<(L, MultiaddrSeq), E>) -> (r: Poll<
        (UpgradeListener<L, U>, MultiaddrSeq),
        E,
    >)
        requires
            !(polled matches Ok(Async::NotReady)) ==> old(self).upgrade is Some,
        ensures
            final(self).future == old(self).future,
            match polled {
                Ok(Async::Ready((listener, addrs))) => final(self).upgrade is None && r == Ok::<
                    Async<(UpgradeListener<L, U>, MultiaddrSeq)>,
                    E,
                >(
                    Async::Ready(
                        (
                            UpgradeListener { listener, upgrade: old(self).upgrade->Some_0 },
                            addrs,
                        ),
                    ),
                ),
                Ok(Async::NotReady) => final(self).upgrade == old(self).upgrade && (
                r matches Ok(Async::NotReady)),
                Err(e) => final(self).upgrade is None && (r matches Err(f) && e == f),
            },
    {
        match polled {
            Ok(Async::Ready((listener, addrs))) => {
                let upgrade = self.upgrade.take().unwrap();
                Ok(Async::Ready((UpgradeListener { listener, upgrade }, addrs)))
            },
            Ok(Async::NotReady) => Ok(Async::NotReady),
            Err(e) => {
                self.upgrade = None;
                Err(e)
            },
        }
    }
}

/// Incoming connections that are to be upgraded.
#[derive(Debug)]
pub struct UpgradeListener<L, U> {
    /// The incoming connections.
    pub listener: L,
    /// The upgrade.
    pub upgrade: U,
}

impl<L, U: Clone> UpgradeListener<L, U> {
    /// What becomes of the next incoming connection.
    pub fn poll<F, E>(&mut self, polled: Poll<Option<(F, Multiaddr)>, E>) -> (r: Poll<
        Option<(UpgradeListenerUpgrade<F, U>, Multiaddr)>,
        E,
    >)
        ensures
            *final(self) == *old(self),
            match polled {
                Ok(Async::Ready(Some((future, addr)))) => exists|u: U| #[trigger]
                    cloned(old(self).upgrade, u) && r == Ok::<
                        Async<Option<(UpgradeListenerUpgrade<F, U>, Multiaddr)>>,
                        E,
                    >(
                        Async::Ready(
                            Some((UpgradeListenerUpgrade { future, upgrade: Some(u) }, addr)),
                        ),
                    ),
                Ok(Async::Ready(None)) => r matches Ok(Async::Ready(None)),
                Ok(Async::NotReady) => r matches Ok(Async::NotReady),
                Err(e) => r matches Err(f) && e == f,
            },
    {
        match polled {
            Ok(Async::Ready(Some((future, addr)))) => {
                let upgrade = self.upgrade.clone();
                assert(cloned(self.upgrade, upgrade));
                let up = UpgradeListenerUpgrade { future, upgrade: Some(upgrade) };
                Ok(Async::Ready(Some((up, addr))))
            },
            Ok(Async::Ready(None)) => Ok(Async::Ready(None)),
            Ok(Async::NotReady) => Ok(Async::NotReady),
            Err(e) => Err(e),
        }
    }
}

/// An incoming connection that is to be upgraded.
#[derive(Debug)]
pub struct UpgradeListenerUpgrade<F, U> {
    /// The connection while it is being made.
    pub future: F,
    /// The upgrade, until the connection is made.
    pub upgrade: Option<U>,
}

impl<F, U> UpgradeListenerUpgrade<F, U> {
    /// Starts the upgrade once the connection is made.
    pub fn poll<C, E>(&mut self, polled: Poll<C, E>) -> (r: Poll<
        InboundUpgradeApply<C, U>,
        E,
    >) where U: InboundUpgrade<C>
        requires
            !(polled matches Ok(Async::NotReady)) ==> (old(self).upgrade matches Some(u)
                && crate::upgrade::apply::names_countable(u)),
        ensures
            final(self).future == old(self).future,
            match polled {
                Ok(Async::Ready(conn)) => final(self).upgrade is None && (r matches Ok(
                    Async::Ready(a),
                ) && a.wf() && crate::upgrade::apply::starts_inbound(
                    a@,
                    conn,
                    old(self).upgrade->Some_0,
                )),
                Ok(Async::NotReady) => final(self).upgrade == old(self).upgrade && (
                r matches Ok(Async::NotReady)),
                Err(e) => final(self).upgrade is None && (r matches Err(f) && e == f),
            },
    {
        match polled {
            Ok(Async::Ready(conn)) => {
                let upgrade = self.upgrade.take().unwrap();
                Ok(Async::Ready(apply_inbound(conn, upgrade)))
            },
            Ok(Async::NotReady) => Ok(Async::NotReady),
            Err(e) => {
                self.upgrade = None;
                Err(e)
            },
        }
    }
}

/// An outgoing connection that is to be upgraded.
#[derive(Debug)]
pub struct UpgradeDial<F, U> {
    /// The connection while it is being made.
    pub future: F,
    /// The upgrade, until the connection is made.
    pub upgrade: Option<U>,
}

impl<F, U> UpgradeDial<F, U> {
    /// Starts the upgrade once the connection is made.
    ///
    /// `select` starts the agreement on a protocol.
    pub fn poll<C, E, G, S>(&mut self, polled: Poll<C, E>, select: G) -> (r: Poll<
        OutboundUpgradeApply<C, U, S>,
        E,
    >) where U: OutboundUpgrade<C>, G: FnOnce(C, Vec<NameWrap<U::Info>>) -> S
        requires
            !(polled matches Ok(Async::NotReady)) ==> old(self).upgrade is Some,
            polled matches Ok(Async::Ready(conn)) ==> forall|names: Vec<NameWrap<U::Info>>|
                #[trigger] call_requires(select, (conn, names)),
        ensures
            final(self).future == old(self).future,
            match polled {
                Ok(Async::Ready(conn)) => final(self).upgrade is None && (r matches Ok(
                    Async::Ready(a),
                ) && crate::upgrade::apply::starts_outbound(
                    a@,
                    conn,
                    old(self).upgrade->Some_0,
                    select,
                )),
                Ok(Async::NotReady) => final(self).upgrade == old(self).upgrade && (
                r matches Ok(Async::NotReady)),
                Err(e) => final(self).upgrade is None && (r matches Err(f) && e == f),
            },
    {
        match polled {
            Ok(Async::Ready(conn)) => {
                let upgrade = self.upgrade.take().unwrap();
                Ok(Async::Ready(apply_outbound(conn, upgrade, select)))
            },
            Ok(Async::NotReady) => Ok(Async::NotReady),
            Err(e) => {
                self.upgrade = None;
                Err(e)
            },
        }
    }
}

} // verus!
