//! Applies a function to the error of connections.

use crate::address::Multiaddr;
use crate::async_value::{Async, Poll};
use crate::transport::{Dialer, Listener};
use std::marker::PhantomData;
use vstd::prelude::*;

verus! {

/// Applies a function to the error of all connections.
#[derive(Debug)]
pub struct MapErr<T, F, U> {
    /// What dials and listens.
    pub transport: T,
    /// The function.
    pub fun: F,
    /// What the function gives.
    pub output: PhantomData<U>,
}

impl<T: Clone, F: Clone, U> Clone for MapErr<T, F, U> {
    fn clone(&self) -> (r: Self)
        ensures
            cloned(self.transport, r.transport),
            cloned(self.fun, r.fun),
    {
        MapErr { transport: self.transport.clone(), fun: self.fun.clone(), output: PhantomData }
    }
}

impl<T: Copy, F: Copy, U> Copy for MapErr<T, F, U> {

}

impl<T, F, U> MapErr<T, F, U> {
    /// Applies the function to the error of all connections.
    pub fn new(transport: T, fun: F) -> (r: Self)
        ensures
            r == (MapErr { transport, fun, output: PhantomData::<U> }),
    {
        MapErr { transport, fun, output: PhantomData }
    }
}

impl<L, F, U> Listener for MapErr<L, F, U> where L: Listener, F: FnOnce(L::Error) -> U + Clone {
    type Output = L::Output;

    type Error = U;

    type Inbound = MapErrListener<L::Inbound, F, U>;

    type Upgrade = MapErrListenerUpgrade<L::Upgrade, F, U>;

    fn listen_on(self, addr: Multiaddr) -> (r: Result<
        (Self::Inbound, Multiaddr),
        (Self, Multiaddr),
    >)
        ensures
            exists|inner: Result<(L::Inbound, Multiaddr), (L, Multiaddr)>| #[trigger]
                call_ensures(L::listen_on, (self.transport, addr), inner) && r == match inner {
                    Ok((stream, a)) => Ok::<
                        (MapErrListener<L::Inbound, F, U>, Multiaddr),
                        (Self, Multiaddr),
                    >((MapErrListener { inner: stream, fun: self.fun, output: PhantomData::<U> }, a)),
                    Err((transport, a)) => Err(
                        (MapErr { transport, fun: self.fun, output: PhantomData::<U> }, a),
                    ),
                },
    {
        match self.transport.listen_on(addr) {
            Ok((stream, listen_addr)) => {
                let stream = MapErrListener { inner: stream, fun: self.fun, output: PhantomData };
                Ok((stream, listen_addr))
            },
            Err((transport, addr)) => Err((MapErr::new(transport, self.fun), addr)),
        }
    }

    fn nat_traversal(&self, server: &Multiaddr, observed: &Multiaddr) -> (r: Option<Multiaddr>)
        ensures
            call_ensures(L::nat_traversal, (&self.transport, server, observed), r),
    {
        self.transport.nat_traversal(server, observed)
    }
}

impl<D, F, U> Dialer for MapErr<D, F, U> where D: Dialer, F: FnOnce(D::Error) -> U {
    type Output = D::Output;

    type Error = U;

    type Outbound = MapErrDial<D::Outbound, F, U>;

    fn dial(self, addr: Multiaddr) -> (r: Result<Self::Outbound, (Self, Multiaddr)>)
        ensures
            exists|inner: Result<D::Outbound, (D, Multiaddr)>| #[trigger]
                call_ensures(D::dial, (self.transport, addr), inner) && r == match inner {
                    Ok(future) => Ok::<MapErrDial<D::Outbound, F, U>, (Self, Multiaddr)>(
                        MapErrDial { inner: future, fun: Some(self.fun), output: PhantomData::<U> },
                    ),
                    Err((transport, a)) => Err(
                        (MapErr { transport, fun: self.fun, output: PhantomData::<U> }, a),
                    ),
                },
    {
        match self.transport.dial(addr) {
            Ok(future) => Ok(
                MapErrDial { inner: future, fun: Some(self.fun), output: PhantomData },
            ),
            Err((transport, addr)) => Err((MapErr::new(transport, self.fun), addr)),
        }
    }
}

/// Incoming connections whose errors are mapped.
#[derive(Debug)]
pub struct MapErrListener<T, F, U> {
    /// The incoming connections.
    pub inner: T,
    /// The function.
    pub fun: F,
    /// What the function gives.
    pub output: PhantomData<U>,
}

impl<T, F: Clone, U> MapErrListener<T, F, U> {
    /// What becomes of the next incoming connection.
    pub fn poll<X, E>(&mut self, polled: Poll<Option<(X, Multiaddr)>, E>) -> (r: Poll<
        Option<(MapErrListenerUpgrade<X, F, U>, Multiaddr)>,
        E,
    >)
        ensures
            *final(self) == *old(self),
            match polled {
                Ok(Async::Ready(Some((value, addr)))) => exists|f: F| #[trigger]
                    cloned(old(self).fun, f) && r == Ok::<
                        Async<Option<(MapErrListenerUpgrade<X, F, U>, Multiaddr)>>,
                        E,
                    >(
                        Async::Ready(
                            Some(
                                (
                                    MapErrListenerUpgrade {
                                        inner: value,
                                        fun: Some(f),
                                        output: PhantomData::<U>,
                                    },
                                    addr,
                                ),
                            ),
                        ),
                    ),
                Ok(Async::Ready(None)) => r matches Ok(Async::Ready(None)),
                Ok(Async::NotReady) => r matches Ok(Async::NotReady),
                Err(e) => r matches Err(f) && e == f,
            },
    {
        match polled {
            Ok(Async::Ready(Some((value, addr)))) => {
                let f = self.fun.clone();
                assert(cloned(self.fun, f));
                let up = MapErrListenerUpgrade { inner: value, fun: Some(f), output: PhantomData };
                Ok(Async::Ready(Some((up, addr))))
            },
            Ok(Async::Ready(None)) => Ok(Async::Ready(None)),
            Ok(Async::NotReady) => Ok(Async::NotReady),
            Err(e) => Err(e),
        }
    }
}

/// An incoming connection whose error is mapped.
#[derive(Debug)]
pub struct MapErrListenerUpgrade<T, F, U> {
    /// The computation.
    pub inner: T,
    /// The function, until it is applied.
    pub fun: Option<F>,
    /// What the function gives.
    pub output: PhantomData<U>,
}

impl<T, F, U> MapErrListenerUpgrade<T, F, U> {
    /// What becomes of the outcome of polling the computation.
    pub fn poll<A, E>(&mut self, polled: Poll<A, E>) -> (r: Poll<A, U>) where F: FnOnce(E) -> U
        requires
            polled matches Err(e) ==> (old(self).fun matches Some(f) && call_requires(f, (e,))),
        ensures
            final(self).inner == old(self).inner,
            match polled {
                Ok(a) => final(self).fun == old(self).fun && r == Ok::<Async<A>, U>(a),
                Err(e) => final(self).fun is None && (r matches Err(u) && call_ensures(
                    old(self).fun->Some_0,
                    (e,),
                    u,
                )),
            },
    {
        match polled {
            Ok(a) => Ok(a),
            Err(err) => {
                let fun = self.fun.take().unwrap();
                Err(fun(err))
            },
        }
    }
}

/// An outgoing connection whose error is mapped.
#[derive(Debug)]
pub struct MapErrDial<T, F, U> {
    /// The computation.
    pub inner: T,
    /// The function, until it is applied.
    pub fun: Option<F>,
    /// What the function gives.
    pub output: PhantomData<U>,
}

impl<T, F, U> MapErrDial<T, F, U> {
    /// What becomes of the outcome of polling the computation.
    pub fn poll<A, E>(&mut self, polled: Poll<A, E>) -> (r: Poll<A, U>) where F: FnOnce(E) -> U
        requires
            polled matches Err(e) ==> (old(self).fun matches Some(f) && call_requires(f, (e,))),
        ensures
            final(self).inner == old(self).inner,
            match polled {
                Ok(a) => final(self).fun == old(self).fun && r == Ok::<Async<A>, U>(a),
                Err(e) => final(self).fun is None && (r matches Err(u) && call_ensures(
                    old(self).fun->Some_0,
                    (e,),
                    u,
                )),
            },
    {
        match polled {
            Ok(a) => Ok(a),
            Err(err) => {
                let fun = self.fun.take().unwrap();
                Err(fun(err))
            },
        }
    }
}

} // verus!
