//! Applies a function to the error and the address of the connections of one side.

use crate::address::Multiaddr;
use crate::async_value::{Async, Poll};
use crate::transport::{Dialer, Listener};
use std::marker::PhantomData;
use vstd::prelude::*;

verus! {

/// Applies a function to the error of outgoing connections.
#[derive(Debug)]
pub struct DialerMapErr<T, F, U> {
    /// What dials or listens.
    pub inner: T,
    /// The function.
    pub fun: F,
    /// What the function gives.
    pub output: PhantomData<U>,
}

impl<T, F, U> DialerMapErr<T, F, U> {
    /// Applies the function to the error of outgoing connections.
    pub fn new(inner: T, fun: F) -> (r: Self)
        ensures
            r == (DialerMapErr { inner, fun, output: PhantomData::<U> }),
    {
        DialerMapErr { inner, fun, output: PhantomData }
    }
}

impl<T: Clone, F: Clone, U> Clone for DialerMapErr<T, F, U> {
    fn clone(&self) -> (r: Self)
        ensures
            cloned(self.inner, r.inner),
            cloned(self.fun, r.fun),
    {
        DialerMapErr { inner: self.inner.clone(), fun: self.fun.clone(), output: PhantomData }
    }
}

impl<T: Copy, F: Copy, U> Copy for DialerMapErr<T, F, U> {

}

impl<D, F, U> Dialer for DialerMapErr<D, F, U> where D: Dialer, F: FnOnce(D::Error, Multiaddr) -> U {
    type Output = D::Output;

    type Error = U;

    type Outbound = MapErrFuture<D::Outbound, F, U>;

    fn dial(self, addr: Multiaddr) -> (r: Result<Self::Outbound, (Self, Multiaddr)>)
        ensures
            exists|inner: Result<D::Outbound, (D, Multiaddr)>| #[trigger]
                call_ensures(D::dial, (self.inner, addr), inner) && r == match inner {
                    Ok(future) => Ok::<MapErrFuture<D::Outbound, F, U>, (Self, Multiaddr)>(
                        MapErrFuture { inner: future, args: Some((self.fun, addr)), output: PhantomData::<U> },
                    ),
                    Err((dialer, a)) => Err(
                        (DialerMapErr { inner: dialer, fun: self.fun, output: PhantomData::<U> }, a),
                    ),
                },
    {
        let fun = self.fun;
        match self.inner.dial(addr.clone()) {
            Ok(future) => Ok(MapErrFuture { inner: future, args: Some((fun, addr)), output: PhantomData::<U> }),
            Err((dialer, addr)) => Err((DialerMapErr::new(dialer, fun), addr)),
        }
    }
}

impl<L: Listener, F, U> Listener for DialerMapErr<L, F, U> {
    type Output = L::Output;

    type Error = L::Error;

    type Inbound = L::Inbound;

    type Upgrade = L::Upgrade;

    fn listen_on(self, addr: Multiaddr) -> (r: Result<
        (Self::Inbound, Multiaddr),
        (Self, Multiaddr),
    >)
        ensures
            exists|inner: Result<(L::Inbound, Multiaddr), (L, Multiaddr)>| #[trigger]
                call_ensures(L::listen_on, (self.inner, addr), inner) && r == match inner {
                    Ok(x) => Ok::<(L::Inbound, Multiaddr), (Self, Multiaddr)>(x),
                    Err((listener, a)) => Err(
                        (DialerMapErr { inner: listener, fun: self.fun, output: PhantomData::<U> }, a),
                    ),
                },
    {
        match self.inner.listen_on(addr) {
            Ok(x) => Ok(x),
            Err((listener, addr)) => Err((DialerMapErr::new(listener, self.fun), addr)),
        }
    }

    fn nat_traversal(&self, server: &Multiaddr, observed: &Multiaddr) -> (r: Option<Multiaddr>)
        ensures
            call_ensures(L::nat_traversal, (&self.inner, server, observed), r),
    {
        self.inner.nat_traversal(server, observed)
    }
}

/// Applies a function to the error of incoming connections.
#[derive(Debug)]
pub struct ListenerMapErr<T, F, U> {
    /// What dials or listens.
    pub inner: T,
    /// The function.
    pub fun: F,
    /// What the function gives.
    pub output: PhantomData<U>,
}

impl<T, F, U> ListenerMapErr<T, F, U> {
    /// Applies the function to the error of incoming connections.
    pub fn new(inner: T, fun: F) -> (r: Self)
        ensures
            r == (ListenerMapErr { inner, fun, output: PhantomData::<U> }),
    {
        ListenerMapErr { inner, fun, output: PhantomData }
    }
}

impl<T: Clone, F: Clone, U> Clone for ListenerMapErr<T, F, U> {
    fn clone(&self) -> (r: Self)
        ensures
            cloned(self.inner, r.inner),
            cloned(self.fun, r.fun),
    {
        ListenerMapErr { inner: self.inner.clone(), fun: self.fun.clone(), output: PhantomData }
    }
}

impl<T: Copy, F: Copy, U> Copy for ListenerMapErr<T, F, U> {

}

impl<L, F, U> Listener for ListenerMapErr<L, F, U> where
    L: Listener,
    F: FnOnce(L::Error, Multiaddr) -> U + Clone,
 {
    type Output = L::Output;

    type Error = U;

    type Inbound = MapErrStream<L::Inbound, F, U>;

    type Upgrade = MapErrFuture<L::Upgrade, F, U>;

    fn listen_on(self, addr: Multiaddr) -> (r: Result<
        (Self::Inbound, Multiaddr),
        (Self, Multiaddr),
    >)
        ensures
            exists|inner: Result<(L::Inbound, Multiaddr), (L, Multiaddr)>| #[trigger]
                call_ensures(L::listen_on, (self.inner, addr), inner) && r == match inner {
                    Ok((stream, a)) => Ok::<
                        (MapErrStream<L::Inbound, F, U>, Multiaddr),
                        (Self, Multiaddr),
                    >((MapErrStream { stream, fun: self.fun, output: PhantomData::<U> }, a)),
                    Err((listener, a)) => Err(
                        (ListenerMapErr { inner: listener, fun: self.fun, output: PhantomData::<U> }, a),
                    ),
                },
    {
        match self.inner.listen_on(addr) {
            Ok((stream, addr)) => Ok(
                (MapErrStream { stream, fun: self.fun, output: PhantomData }, addr),
            ),
            Err((listener, addr)) => Err((ListenerMapErr::new(listener, self.fun), addr)),
        }
    }

    fn nat_traversal(&self, server: &Multiaddr, observed: &Multiaddr) -> (r: Option<Multiaddr>)
        ensures
            call_ensures(L::nat_traversal, (&self.inner, server, observed), r),
    {
        self.inner.nat_traversal(server, observed)
    }
}

impl<D: Dialer, F, U> Dialer for ListenerMapErr<D, F, U> {
    type Output = D::Output;

    type Error = D::Error;

    type Outbound = D::Outbound;

    fn dial(self, addr: Multiaddr) -> (r: Result<Self::Outbound, (Self, Multiaddr)>)
        ensures
            exists|inner: Result<D::Outbound, (D, Multiaddr)>| #[trigger]
                call_ensures(D::dial, (self.inner, addr), inner) && r == match inner {
                    Ok(future) => Ok::<D::Outbound, (Self, Multiaddr)>(future),
                    Err((dialer, a)) => Err(
                        (ListenerMapErr { inner: dialer, fun: self.fun, output: PhantomData::<U> }, a),
                    ),
                },
    {
        match self.inner.dial(addr) {
            Ok(future) => Ok(future),
            Err((dialer, addr)) => Err((ListenerMapErr::new(dialer, self.fun), addr)),
        }
    }
}

/// Applies a function to the error of every incoming connection.
#[derive(Debug)]
pub struct MapErrStream<T, F, U> {
    /// The incoming connections.
    pub stream: T,
    /// The function.
    pub fun: F,
    /// What the function gives.
    pub output: PhantomData<U>,
}

impl<T: Clone, F: Clone, U> Clone for MapErrStream<T, F, U> {
    fn clone(&self) -> (r: Self)
        ensures
            cloned(self.stream, r.stream),
            cloned(self.fun, r.fun),
    {
        MapErrStream { stream: self.stream.clone(), fun: self.fun.clone(), output: PhantomData }
    }
}

impl<T, F: Clone, U> MapErrStream<T, F, U> {
    /// What becomes of the next incoming connection.
    pub fn poll<X, E>(&mut self, polled: Poll<Option<(X, Multiaddr)>, E>) -> (r: Poll<
        Option<(MapErrFuture<X, F, U>, Multiaddr)>,
        E,
    >)
        ensures
            *final(self) == *old(self),
            match polled {
                Ok(Async::Ready(Some((future, addr)))) => exists|f: F| #[trigger]
                    cloned(old(self).fun, f) && r == Ok::<Async<Option<(MapErrFuture<X, F, U>, Multiaddr)>>, E>(
                        Async::Ready(
                            Some((MapErrFuture { inner: future, args: Some((f, addr)), output: PhantomData::<U> }, addr)),
                        ),
                    ),
                Ok(Async::Ready(None)) => r matches Ok(Async::Ready(None)),
                Ok(Async::NotReady) => r matches Ok(Async::NotReady),
                Err(e) => r matches Err(f) && e == f,
            },
    {
        match polled {
            Ok(Async::Ready(Some((future, addr)))) => {
                let f = self.fun.clone();
                assert(cloned(self.fun, f));
                let a = addr.clone();
                let future = MapErrFuture { inner: future, args: Some((f, a)), output: PhantomData::<U> };
                Ok(Async::Ready(Some((future, addr))))
            },
            Ok(Async::Ready(None)) => Ok(Async::Ready(None)),
            Ok(Async::NotReady) => Ok(Async::NotReady),
            Err(e) => Err(e),
        }
    }
}

/// Applies a function to the error of a computation.
#[derive(Debug)]
pub struct MapErrFuture<T, F, U> {
    /// The computation.
    pub inner: T,
    /// The function and what it is told, until it is applied.
    pub args: Option<(F, Multiaddr)>,
    /// What the function gives.
    pub output: PhantomData<U>,
}

impl<T, F, U> MapErrFuture<T, F, U> {
    /// What becomes of the outcome of polling the computation.
    pub fn poll<A, E>(&mut self, polled: Poll<A, E>) -> (r: Poll<A, U>) where
        F: FnOnce(E, Multiaddr) -> U,

        requires
            polled matches Err(e) ==> (old(self).args matches Some((f, a)) && call_requires(
                f,
                (e, a),
            )),
        ensures
            final(self).inner == old(self).inner,
            match polled {
                Ok(x) => final(self).args == old(self).args && r == Ok::<Async<A>, U>(x),
                Err(e) => {
                    let (f, a) = old(self).args->Some_0;
                    &&& final(self).args is None
                    &&& r matches Err(u) && call_ensures(f, (e, a), u)
                },
            },
    {
        match polled {
            Ok(x) => Ok(x),
            Err(e) => {
                let (f, a) = self.args.take().unwrap();
                Err(f(e, a))
            },
        }
    }
}

} // verus!
