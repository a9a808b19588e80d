//! Applies a function to the output of connections.

use crate::address::Multiaddr;
use crate::async_value::{Async, Poll};
use crate::transport::{Dialer, Listener};
use std::marker::PhantomData;
use vstd::prelude::*;

verus! {

/// Applies a function to the output of outgoing connections.
#[derive(Debug)]
pub struct MapDialer<T, F, U> {
    /// What dials or listens.
    pub inner: T,
    /// The function.
    pub fun: F,
    /// What the function gives.
    pub output: PhantomData<U>,
}

impl<T, F, U> MapDialer<T, F, U> {
    /// Applies the function to the output of outgoing connections.
    pub fn new(inner: T, fun: F) -> (r: Self)
        ensures
            r == (MapDialer { inner, fun, output: PhantomData::<U> }),
    {
        MapDialer { inner, fun, output: PhantomData }
    }
}

impl<T: Clone, F: Clone, U> Clone for MapDialer<T, F, U> {
    fn clone(&self) -> (r: Self)
        ensures
            cloned(self.inner, r.inner),
            cloned(self.fun, r.fun),
    {
        MapDialer { inner: self.inner.clone(), fun: self.fun.clone(), output: PhantomData }
    }
}

impl<T: Copy, F: Copy, U> Copy for MapDialer<T, F, U> {

}

impl<D, F, U> Dialer for MapDialer<D, F, U> where D: Dialer, F: FnOnce(D::Output, Multiaddr) -> U {
    type Output = U;

    type Error = D::Error;

    type Outbound = MapFuture<D::Outbound, F, U>;

    fn dial(self, addr: Multiaddr) -> (r: Result<Self::Outbound, (Self, Multiaddr)>)
        ensures
            exists|inner: Result<D::Outbound, (D, Multiaddr)>| #[trigger]
                call_ensures(D::dial, (self.inner, addr), inner) && r == match inner {
                    Ok(future) => Ok::<MapFuture<D::Outbound, F, U>, (Self, Multiaddr)>(
                        MapFuture { inner: future, args: Some((self.fun, addr)), output: PhantomData::<U> },
                    ),
                    Err((dialer, a)) => Err(
                        (MapDialer { inner: dialer, fun: self.fun, output: PhantomData::<U> }, a),
                    ),
                },
    {
        let fun = self.fun;
        match self.inner.dial(addr.clone()) {
            Ok(future) => Ok(MapFuture { inner: future, args: Some((fun, addr)), output: PhantomData::<U> }),
            Err((dialer, addr)) => Err((MapDialer::new(dialer, fun), addr)),
        }
    }
}

impl<L: Listener, F, U> Listener for MapDialer<L, F, U> {
    type Output = L::Output;

    type Error = L::Error;

    type Inbound = L::Inbound;

    type Upgrade = L::Upgrade;

    fn listen_on(self, addr: Multiaddr) -> (r: Result<
        (Self::Inbound, Multiaddr),
        (Self, Multiaddr),
    >)
        ensures
            exists|inner: Result<(L::Inbound, Multiaddr), (L, Multiaddr)>| #[trigger]
                call_ensures(L::listen_on, (self.inner, addr), inner) && r == match inner {
                    Ok(x) => Ok::<(L::Inbound, Multiaddr), (Self, Multiaddr)>(x),
                    Err((listener, a)) => Err(
                        (MapDialer { inner: listener, fun: self.fun, output: PhantomData::<U> }, a),
                    ),
                },
    {
        match self.inner.listen_on(addr) {
            Ok(x) => Ok(x),
            Err((listener, addr)) => Err((MapDialer::new(listener, self.fun), addr)),
        }
    }

    fn nat_traversal(&self, server: &Multiaddr, observed: &Multiaddr) -> (r: Option<Multiaddr>)
        ensures
            call_ensures(L::nat_traversal, (&self.inner, server, observed), r),
    {
        self.inner.nat_traversal(server, observed)
    }
}

/// Applies a function to the output of incoming connections.
#[derive(Debug)]
pub struct MapListener<T, F, U> {
    /// What dials or listens.
    pub inner: T,
    /// The function.
    pub fun: F,
    /// What the function gives.
    pub output: PhantomData<U>,
}

impl<T, F, U> MapListener<T, F, U> {
    /// Applies the function to the output of incoming connections.
    pub fn new(inner: T, fun: F) -> (r: Self)
        ensures
            r == (MapListener { inner, fun, output: PhantomData::<U> }),
    {
        MapListener { inner, fun, output: PhantomData }
    }
}

impl<T: Clone, F: Clone, U> Clone for MapListener<T, F, U> {
    fn clone(&self) -> (r: Self)
        ensures
            cloned(self.inner, r.inner),
            cloned(self.fun, r.fun),
    {
        MapListener { inner: self.inner.clone(), fun: self.fun.clone(), output: PhantomData }
    }
}

impl<T: Copy, F: Copy, U> Copy for MapListener<T, F, U> {

}

impl<L, F, U> Listener for MapListener<L, F, U> where
    L: Listener,
    F: FnOnce(L::Output, Multiaddr) -> U + Clone,
 {
    type Output = U;

    type Error = L::Error;

    type Inbound = MapStream<L::Inbound, F, U>;

    type Upgrade = MapFuture<L::Upgrade, F, U>;

    fn listen_on(self, addr: Multiaddr) -> (r: Result<
        (Self::Inbound, Multiaddr),
        (Self, Multiaddr),
    >)
        ensures
            exists|inner: Result<(L::Inbound, Multiaddr), (L, Multiaddr)>| #[trigger]
                call_ensures(L::listen_on, (self.inner, addr), inner) && r == match inner {
                    Ok((stream, a)) => Ok::<
                        (MapStream<L::Inbound, F, U>, Multiaddr),
                        (Self, Multiaddr),
                    >((MapStream { stream, fun: self.fun, output: PhantomData::<U> }, a)),
                    Err((listener, a)) => Err(
                        (MapListener { inner: listener, fun: self.fun, output: PhantomData::<U> }, a),
                    ),
                },
    {
        match self.inner.listen_on(addr) {
            Ok((stream, addr)) => Ok(
                (MapStream { stream, fun: self.fun, output: PhantomData }, addr),
            ),
            Err((listener, addr)) => Err((MapListener::new(listener, self.fun), addr)),
        }
    }

    fn nat_traversal(&self, server: &Multiaddr, observed: &Multiaddr) -> (r: Option<Multiaddr>)
        ensures
            call_ensures(L::nat_traversal, (&self.inner, server, observed), r),
    {
        self.inner.nat_traversal(server, observed)
    }
}

impl<D: Dialer, F, U> Dialer for MapListener<D, F, U> {
    type Output = D::Output;

    type Error = D::Error;

    type Outbound = D::Outbound;

    fn dial(self, addr: Multiaddr) -> (r: Result<Self::Outbound, (Self, Multiaddr)>)
        ensures
            exists|inner: Result<D::Outbound, (D, Multiaddr)>| #[trigger]
                call_ensures(D::dial, (self.inner, addr), inner) && r == match inner {
                    Ok(future) => Ok::<D::Outbound, (Self, Multiaddr)>(future),
                    Err((dialer, a)) => Err(
                        (MapListener { inner: dialer, fun: self.fun, output: PhantomData::<U> }, a),
                    ),
                },
    {
        match self.inner.dial(addr) {
            Ok(future) => Ok(future),
            Err((dialer, addr)) => Err((MapListener::new(dialer, self.fun), addr)),
        }
    }
}

/// Applies a function to every incoming connection.
#[derive(Debug)]
pub struct MapStream<T, F, U> {
    /// The incoming connections.
    pub stream: T,
    /// The function.
    pub fun: F,
    /// What the function gives.
    pub output: PhantomData<U>,
}

impl<T: Clone, F: Clone, U> Clone for MapStream<T, F, U> {
    fn clone(&self) -> (r: Self)
        ensures
            cloned(self.stream, r.stream),
            cloned(self.fun, r.fun),
    {
        MapStream { stream: self.stream.clone(), fun: self.fun.clone(), output: PhantomData }
    }
}

impl<T, F: Clone, U> MapStream<T, F, U> {
    /// What becomes of the next incoming connection.
    pub fn poll<X, E>(&mut self, polled: Poll<Option<(X, Multiaddr)>, E>) -> (r: Poll<
        Option<(MapFuture<X, F, U>, Multiaddr)>,
        E,
    >)
        ensures
            *final(self) == *old(self),
            match polled {
                Ok(Async::Ready(Some((future, addr)))) => exists|f: F| #[trigger]
                    cloned(old(self).fun, f) && r == Ok::<Async<Option<(MapFuture<X, F, U>, Multiaddr)>>, E>(
                        Async::Ready(
                            Some((MapFuture { inner: future, args: Some((f, addr)), output: PhantomData::<U> }, addr)),
                        ),
                    ),
                Ok(Async::Ready(None)) => r matches Ok(Async::Ready(None)),
                Ok(Async::NotReady) => r matches Ok(Async::NotReady),
                Err(e) => r matches Err(f) && e == f,
            },
    {
        match polled {
            Ok(Async::Ready(Some((future, addr)))) => {
                let f = self.fun.clone();
                assert(cloned(self.fun, f));
                let a = addr.clone();
                let future = MapFuture { inner: future, args: Some((f, a)), output: PhantomData::<U> };
                Ok(Async::Ready(Some((future, addr))))
            },
            Ok(Async::Ready(None)) => Ok(Async::Ready(None)),
            Ok(Async::NotReady) => Ok(Async::NotReady),
            Err(e) => Err(e),
        }
    }
}

/// Applies a function to the result of a computation.
#[derive(Debug)]
pub struct MapFuture<T, F, U> {
    /// The computation.
    pub inner: T,
    /// The function and what it is told, until it is applied.
    pub args: Option<(F, Multiaddr)>,
    /// What the function gives.
    pub output: PhantomData<U>,
}

impl<T, F, U> MapFuture<T, F, U> {
    /// What becomes of the outcome of polling the computation.
    pub fn poll<A, E>(&mut self, polled: Poll<A, E>) -> (r: Poll<U, E>) where
        F: FnOnce(A, Multiaddr) -> U,

        requires
            polled matches Ok(Async::Ready(x)) ==> (old(self).args matches Some((f, a))
                && call_requires(f, (x, a))),
        ensures
            final(self).inner == old(self).inner,
            match polled {
                Ok(Async::Ready(x)) => {
                    let (f, a) = old(self).args->Some_0;
                    &&& final(self).args is None
                    &&& r matches Ok(Async::Ready(u)) && call_ensures(f, (x, a), u)
                },
                Ok(Async::NotReady) => final(self).args == old(self).args && r == Ok::<
                    Async<U>,
                    E,
                >(Async::NotReady),
                Err(e) => final(self).args == old(self).args && r == Err::<Async<U>, E>(e),
            },
    {
        match polled {
            Ok(Async::Ready(x)) => {
                let (f, a) = self.args.take().unwrap();
                Ok(Async::Ready(f(x, a)))
            },
            Ok(Async::NotReady) => Ok(Async::NotReady),
            Err(e) => Err(e),
        }
    }
}

} // verus!
