//! The transport for the most common protocols.

use crate::address::Multiaddr;
use crate::builder::Transport;
use crate::transport::denied::Denied;
use crate::transport::or::Or;
use crate::transport::{Dialer, Listener};
use vstd::prelude::*;

verus! {

/// Dials and listens with the most common protocols: TCP/IP, DNS and WebSockets.
#[derive(Debug)]
pub struct CommonTransport<I> {
    /// What dials and listens.
    pub inner: I,
}

impl<I: Clone> Clone for CommonTransport<I> {
    fn clone(&self) -> (r: Self)
        ensures
            cloned(self.inner, r.inner),
    {
        CommonTransport { inner: self.inner.clone() }
    }
}

impl<D: Dialer + Clone, W: Dialer, L: Listener + Clone, V: Listener> CommonTransport<
    Transport<Or<D, W>, Or<L, V>>,
> {
    /// Dials and listens without WebSockets where that is possible, with them on top of the same
    /// protocols else.
    pub fn new<F, G>(dialer: D, listener: L, websocket_dialer: F, websocket_listener: G) -> (r:
        Self) where F: FnOnce(D) -> W, G: FnOnce(L) -> V
        requires
            forall|d: D| #[trigger] cloned(dialer, d) ==> call_requires(websocket_dialer, (d,)),
            forall|l: L| #[trigger]
                cloned(listener, l) ==> call_requires(websocket_listener, (l,)),
        ensures
            r.inner.dialer.0 == dialer,
            exists|d: D| #[trigger]
                cloned(dialer, d) && call_ensures(websocket_dialer, (d,), r.inner.dialer.1),
            r.inner.listener.0 == listener,
            exists|l: L| #[trigger]
                cloned(listener, l) && call_ensures(websocket_listener, (l,), r.inner.listener.1),
    {
        let dns_dialer = dialer.clone();
        assert(cloned(dialer, dns_dialer));
        let dialer = Or::new(dialer, websocket_dialer(dns_dialer));
        let tcp_listener = listener.clone();
        assert(cloned(listener, tcp_listener));
        let listener = Or::new(listener, websocket_listener(tcp_listener));
        CommonTransport { inner: Transport::new(dialer, listener) }
    }
}

impl<D: Dialer, L: Listener> CommonTransport<Transport<D, L>> {
    /// Dials and listens without WebSockets.
    pub fn without_websocket(dialer: D, listener: L) -> (r: Self)
        ensures
            r == (CommonTransport { inner: Transport { dialer, listener } }),
    {
        CommonTransport { inner: Transport::new(dialer, listener) }
    }
}

impl<D: Dialer> CommonTransport<Transport<D, Denied>> {
    /// Only dials, as a browser can.
    pub fn browser(dialer: D) -> (r: Self)
        ensures
            r == (CommonTransport { inner: Transport { dialer, listener: Denied } }),
    {
        CommonTransport { inner: Transport::dialer(dialer) }
    }
}

impl<I: Dialer> Dialer for CommonTransport<I> {
    type Output = I::Output;

    type Error = I::Error;

    type Outbound = I::Outbound;

    fn dial(self, addr: Multiaddr) -> (r: Result<Self::Outbound, (Self, Multiaddr)>)
        ensures
            exists|result: Result<I::Outbound, (I, Multiaddr)>| #[trigger]
                call_ensures(I::dial, (self.inner, addr), result) && r == match result {
                    Ok(future) => Ok::<I::Outbound, (Self, Multiaddr)>(future),
                    Err((inner, a)) => Err((CommonTransport { inner }, a)),
                },
    {
        match self.inner.dial(addr) {
            Ok(future) => Ok(future),
            Err((inner, addr)) => Err((CommonTransport { inner }, addr)),
        }
    }
}

impl<I: Listener> Listener for CommonTransport<I> {
    type Output = I::Output;

    type Error = I::Error;

    type Inbound = I::Inbound;

    type Upgrade = I::Upgrade;

    fn listen_on(self, addr: Multiaddr) -> (r: Result<
        (Self::Inbound, Multiaddr),
        (Self, Multiaddr),
    >)
        ensures
            exists|result: Result<(I::Inbound, Multiaddr), (I, Multiaddr)>| #[trigger]
                call_ensures(I::listen_on, (self.inner, addr), result) && r == match result {
                    Ok(stream) => Ok::<(I::Inbound, Multiaddr), (Self, Multiaddr)>(stream),
                    Err((inner, a)) => Err((CommonTransport { inner }, a)),
                },
    {
        match self.inner.listen_on(addr) {
            Ok(stream) => Ok(stream),
            Err((inner, addr)) => Err((CommonTransport { inner }, addr)),
        }
    }

    fn nat_traversal(&self, server: &Multiaddr, observed: &Multiaddr) -> (r: Option<Multiaddr>)
        ensures
            call_ensures(I::nat_traversal, (&self.inner, server, observed), r),
    {
        self.inner.nat_traversal(server, observed)
    }
}

} // verus!
