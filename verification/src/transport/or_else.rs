//! Applies a function to the error of connections; what it gives is another computation.

use crate::address::Multiaddr;
use crate::async_value::{Async, Either, Poll};
use crate::transport::{Dialer, Listener};
use std::marker::PhantomData;
use vstd::prelude::*;

verus! {

/// Applies a function to the error of outgoing connections.
#[derive(Debug)]
pub struct DialerOrElse<T, F, U> {
    /// What dials or listens.
    pub inner: T,
    /// The function.
    pub fun: F,
    /// What the function gives.
    pub output: PhantomData<U>,
}

impl<T, F, U> DialerOrElse<T, F, U> {
    /// Applies the function to the error of outgoing connections.
    pub fn new(inner: T, fun: F) -> (r: Self)
        ensures
            r == (DialerOrElse { inner, fun, output: PhantomData::<U> }),
    {
        DialerOrElse { inner, fun, output: PhantomData }
    }
}

impl<T: Clone, F: Clone, U> Clone for DialerOrElse<T, F, U> {
    fn clone(&self) -> (r: Self)
        ensures
            cloned(self.inner, r.inner),
            cloned(self.fun, r.fun),
    {
        DialerOrElse { inner: self.inner.clone(), fun: self.fun.clone(), output: PhantomData }
    }
}

impl<T: Copy, F: Copy, U> Copy for DialerOrElse<T, F, U> {

}

impl<D, F, U> Dialer for DialerOrElse<D, F, U> where D: Dialer, F: FnOnce(D::Error, Multiaddr) -> U {
    type Output = D::Output;

    type Error = U;

    type Outbound = OrElseFuture<D::Outbound, F, U>;

    fn dial(self, addr: Multiaddr) -> (r: Result<Self::Outbound, (Self, Multiaddr)>)
        ensures
            exists|inner: Result<D::Outbound, (D, Multiaddr)>| #[trigger]
                call_ensures(D::dial, (self.inner, addr), inner) && r == match inner {
                    Ok(future) => Ok::<OrElseFuture<D::Outbound, F, U>, (Self, Multiaddr)>(
                        OrElseFuture { inner: Either::A::<_, U>(future), args: Some((self.fun, addr)) },
                    ),
                    Err((dialer, a)) => Err(
                        (DialerOrElse { inner: dialer, fun: self.fun, output: PhantomData::<U> }, a),
                    ),
                },
    {
        let fun = self.fun;
        match self.inner.dial(addr.clone()) {
            Ok(future) => Ok(OrElseFuture { inner: Either::A::<_, U>(future), args: Some((fun, addr)) }),
            Err((dialer, addr)) => Err((DialerOrElse::new(dialer, fun), addr)),
        }
    }
}

impl<L: Listener, F, U> Listener for DialerOrElse<L, F, U> {
    type Output = L::Output;

    type Error = L::Error;

    type Inbound = L::Inbound;

    type Upgrade = L::Upgrade;

    fn listen_on(self, addr: Multiaddr) -> (r: Result<
        (Self::Inbound, Multiaddr),
        (Self, Multiaddr),
    >)
        ensures
            exists|inner: Result<(L::Inbound, Multiaddr), (L, Multiaddr)>| #[trigger]
                call_ensures(L::listen_on, (self.inner, addr), inner) && r == match inner {
                    Ok(x) => Ok::<(L::Inbound, Multiaddr), (Self, Multiaddr)>(x),
                    Err((listener, a)) => Err(
                        (DialerOrElse { inner: listener, fun: self.fun, output: PhantomData::<U> }, a),
                    ),
                },
    {
        match self.inner.listen_on(addr) {
            Ok(x) => Ok(x),
            Err((listener, addr)) => Err((DialerOrElse::new(listener, self.fun), addr)),
        }
    }

    fn nat_traversal(&self, server: &Multiaddr, observed: &Multiaddr) -> (r: Option<Multiaddr>)
        ensures
            call_ensures(L::nat_traversal, (&self.inner, server, observed), r),
    {
        self.inner.nat_traversal(server, observed)
    }
}

/// Applies a function to the error of incoming connections.
#[derive(Debug)]
pub struct ListenerOrElse<T, F, U> {
    /// What dials or listens.
    pub inner: T,
    /// The function.
    pub fun: F,
    /// What the function gives.
    pub output: PhantomData<U>,
}

impl<T, F, U> ListenerOrElse<T, F, U> {
    /// Applies the function to the error of incoming connections.
    pub fn new(inner: T, fun: F) -> (r: Self)
        ensures
            r == (ListenerOrElse { inner, fun, output: PhantomData::<U> }),
    {
        ListenerOrElse { inner, fun, output: PhantomData }
    }
}

impl<T: Clone, F: Clone, U> Clone for ListenerOrElse<T, F, U> {
    fn clone(&self) -> (r: Self)
        ensures
            cloned(self.inner, r.inner),
            cloned(self.fun, r.fun),
    {
        ListenerOrElse { inner: self.inner.clone(), fun: self.fun.clone(), output: PhantomData }
    }
}

impl<T: Copy, F: Copy, U> Copy for ListenerOrElse<T, F, U> {

}

impl<L, F, U> Listener for ListenerOrElse<L, F, U> where
    L: Listener,
    F: FnOnce(L::Error, Multiaddr) -> U + Clone,
 {
    type Output = L::Output;

    type Error = U;

    type Inbound = OrElseStream<L::Inbound, F, U>;

    type Upgrade = OrElseFuture<L::Upgrade, F, U>;

    fn listen_on(self, addr: Multiaddr) -> (r: Result<
        (Self::Inbound, Multiaddr),
        (Self, Multiaddr),
    >)
        ensures
            exists|inner: Result<(L::Inbound, Multiaddr), (L, Multiaddr)>| #[trigger]
                call_ensures(L::listen_on, (self.inner, addr), inner) && r == match inner {
                    Ok((stream, a)) => Ok::<
                        (OrElseStream<L::Inbound, F, U>, Multiaddr),
                        (Self, Multiaddr),
                    >((OrElseStream { stream, fun: self.fun, output: PhantomData::<U> }, a)),
                    Err((listener, a)) => Err(
                        (ListenerOrElse { inner: listener, fun: self.fun, output: PhantomData::<U> }, a),
                    ),
                },
    {
        match self.inner.listen_on(addr) {
            Ok((stream, addr)) => Ok(
                (OrElseStream { stream, fun: self.fun, output: PhantomData }, addr),
            ),
            Err((listener, addr)) => Err((ListenerOrElse::new(listener, self.fun), addr)),
        }
    }

    fn nat_traversal(&self, server: &Multiaddr, observed: &Multiaddr) -> (r: Option<Multiaddr>)
        ensures
            call_ensures(L::nat_traversal, (&self.inner, server, observed), r),
    {
        self.inner.nat_traversal(server, observed)
    }
}

impl<D: Dialer, F, U> Dialer for ListenerOrElse<D, F, U> {
    type Output = D::Output;

    type Error = D::Error;

    type Outbound = D::Outbound;

    fn dial(self, addr: Multiaddr) -> (r: Result<Self::Outbound, (Self, Multiaddr)>)
        ensures
            exists|inner: Result<D::Outbound, (D, Multiaddr)>| #[trigger]
                call_ensures(D::dial, (self.inner, addr), inner) && r == match inner {
                    Ok(future) => Ok::<D::Outbound, (Self, Multiaddr)>(future),
                    Err((dialer, a)) => Err(
                        (ListenerOrElse { inner: dialer, fun: self.fun, output: PhantomData::<U> }, a),
                    ),
                },
    {
        match self.inner.dial(addr) {
            Ok(future) => Ok(future),
            Err((dialer, addr)) => Err((ListenerOrElse::new(dialer, self.fun), addr)),
        }
    }
}

/// Applies a function to the error of every incoming connection.
#[derive(Debug)]
pub struct OrElseStream<T, F, U> {
    /// The incoming connections.
    pub stream: T,
    /// The function.
    pub fun: F,
    /// What the function gives.
    pub output: PhantomData<U>,
}

impl<T: Clone, F: Clone, U> Clone for OrElseStream<T, F, U> {
    fn clone(&self) -> (r: Self)
        ensures
            cloned(self.stream, r.stream),
            cloned(self.fun, r.fun),
    {
        OrElseStream { stream: self.stream.clone(), fun: self.fun.clone(), output: PhantomData }
    }
}

impl<T, F: Clone, U> OrElseStream<T, F, U> {
    /// What becomes of the next incoming connection.
    pub fn poll<X, E>(&mut self, polled: Poll<Option<(X, Multiaddr)>, E>) -> (r: Poll<
        Option<(OrElseFuture<X, F, U>, Multiaddr)>,
        E,
    >)
        ensures
            *final(self) == *old(self),
            match polled {
                Ok(Async::Ready(Some((future, addr)))) => exists|f: F| #[trigger]
                    cloned(old(self).fun, f) && r == Ok::<Async<Option<(OrElseFuture<X, F, U>, Multiaddr)>>, E>(
                        Async::Ready(
                            Some((OrElseFuture { inner: Either::A::<_, U>(future), args: Some((f, addr)) }, addr)),
                        ),
                    ),
                Ok(Async::Ready(None)) => r matches Ok(Async::Ready(None)),
                Ok(Async::NotReady) => r matches Ok(Async::NotReady),
                Err(e) => r matches Err(f) && e == f,
            },
    {
        match polled {
            Ok(Async::Ready(Some((future, addr)))) => {
                let f = self.fun.clone();
                assert(cloned(self.fun, f));
                let a = addr.clone();
                let future = OrElseFuture { inner: Either::A::<_, U>(future), args: Some((f, a)) };
                Ok(Async::Ready(Some((future, addr))))
            },
            Ok(Async::Ready(None)) => Ok(Async::Ready(None)),
            Ok(Async::NotReady) => Ok(Async::NotReady),
            Err(e) => Err(e),
        }
    }
}

/// Applies a function to the error of a computation.
#[derive(Debug)]
pub struct OrElseFuture<T, F, U> {
    /// The first computation, or the one that the function gave.
    pub inner: Either<T, U>,
    /// The function and what it is told, until it is applied.
    pub args: Option<(F, Multiaddr)>,
}

impl<T, F, U> OrElseFuture<T, F, U> {
    /// What becomes of the outcome of polling the computation that is under way.
    ///
    /// The function is applied once. The computation that it gives is polled the next time.
    pub fn poll<A, E, G>(&mut self, polled: Either<Poll<A, E>, Poll<A, G>>) -> (r: Poll<A, G>) where
        F: FnOnce(E, Multiaddr) -> U,

        requires
            polled is A <==> old(self).inner is A,
            polled matches Either::A(Err(x)) ==> (old(self).args matches Some((f, a))
                && call_requires(f, (x, a))),
        ensures
            match polled {
                Either::A(Err(x)) => {
                    let (f, a) = old(self).args->Some_0;
                    &&& r == Ok::<Async<A>, G>(Async::NotReady)
                    &&& final(self).args is None
                    &&& final(self).inner matches Either::B(u) && call_ensures(f, (x, a), u)
                },
                Either::A(Ok(a)) => *final(self) == *old(self) && r == Ok::<Async<A>, G>(a),
                Either::B(p) => *final(self) == *old(self) && r == p,
            },
    {
        match polled {
            Either::A(Err(x)) => {
                let (f, a) = self.args.take().unwrap();
                let future = f(x, a);
                self.inner = Either::B(future);
                Ok(Async::NotReady)
            },
            Either::A(Ok(a)) => Ok(a),
            Either::B(p) => p,
        }
    }
}

} // verus!
