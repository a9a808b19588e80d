//! Applies a function to the output of connections; what it gives is another computation.

use crate::address::Multiaddr;
use crate::async_value::{Async, Either, Poll};
use crate::transport::{Dialer, Endpoint, Listener};
use std::marker::PhantomData;
use vstd::prelude::*;

verus! {

/// Applies a function to the output of all connections.
#[derive(Debug)]
pub struct AndThen<T, F, U> {
    /// What dials or listens.
    pub inner: T,
    /// The function.
    pub fun: F,
    /// What the function gives.
    pub output: PhantomData<U>,
}

impl<T, F, U> AndThen<T, F, U> {
    /// Applies the function to the output of all connections.
    pub fn new(inner: T, fun: F) -> (r: Self)
        ensures
            r == (AndThen { inner, fun, output: PhantomData::<U> }),
    {
        AndThen { inner, fun, output: PhantomData }
    }
}

impl<T: Clone, F: Clone, U> Clone for AndThen<T, F, U> {
    fn clone(&self) -> (r: Self)
        ensures
            cloned(self.inner, r.inner),
            cloned(self.fun, r.fun),
    {
        AndThen { inner: self.inner.clone(), fun: self.fun.clone(), output: PhantomData }
    }
}

impl<T: Copy, F: Copy, U> Copy for AndThen<T, F, U> {

}

impl<L, F, U> Listener for AndThen<L, F, U> where
    L: Listener,
    F: FnOnce(L::Output, Endpoint, Multiaddr) -> U + Clone,
 {
    type Output = U;

    type Error = L::Error;

    type Inbound = AndThenStream2<L::Inbound, F, U>;

    type Upgrade = AndThenFuture2<L::Upgrade, F, U>;

    fn listen_on(self, addr: Multiaddr) -> (r: Result<
        (Self::Inbound, Multiaddr),
        (Self, Multiaddr),
    >)
        ensures
            exists|inner: Result<(L::Inbound, Multiaddr), (L, Multiaddr)>| #[trigger]
                call_ensures(L::listen_on, (self.inner, addr), inner) && r == match inner {
                    Ok((stream, a)) => Ok::<
                        (AndThenStream2<L::Inbound, F, U>, Multiaddr),
                        (Self, Multiaddr),
                    >((AndThenStream2 { stream, fun: self.fun, output: PhantomData::<U> }, a)),
                    Err((listener, a)) => Err(
                        (AndThen { inner: listener, fun: self.fun, output: PhantomData::<U> }, a),
                    ),
                },
    {
        match self.inner.listen_on(addr) {
            Ok((stream, addr)) => Ok(
                (AndThenStream2 { stream, fun: self.fun, output: PhantomData }, addr),
            ),
            Err((listener, addr)) => Err((AndThen::new(listener, self.fun), addr)),
        }
    }

    fn nat_traversal(&self, server: &Multiaddr, observed: &Multiaddr) -> (r: Option<Multiaddr>)
        ensures
            call_ensures(L::nat_traversal, (&self.inner, server, observed), r),
    {
        self.inner.nat_traversal(server, observed)
    }
}

impl<D, F, U> Dialer for AndThen<D, F, U> where D: Dialer, F: FnOnce(D::Output, Endpoint, Multiaddr) -> U {
    type Output = U;

    type Error = D::Error;

    type Outbound = AndThenFuture2<D::Outbound, F, U>;

    fn dial(self, addr: Multiaddr) -> (r: Result<Self::Outbound, (Self, Multiaddr)>)
        ensures
            exists|inner: Result<D::Outbound, (D, Multiaddr)>| #[trigger]
                call_ensures(D::dial, (self.inner, addr), inner) && r == match inner {
                    Ok(future) => Ok::<AndThenFuture2<D::Outbound, F, U>, (Self, Multiaddr)>(
                        AndThenFuture2 { inner: Either::A::<_, U>(future), args: Some((self.fun, Endpoint::Dialer, addr)) },
                    ),
                    Err((dialer, a)) => Err(
                        (AndThen { inner: dialer, fun: self.fun, output: PhantomData::<U> }, a),
                    ),
                },
    {
        let fun = self.fun;
        match self.inner.dial(addr.clone()) {
            Ok(future) => Ok(AndThenFuture2 { inner: Either::A::<_, U>(future), args: Some((fun, Endpoint::Dialer, addr)) }),
            Err((dialer, addr)) => Err((AndThen::new(dialer, fun), addr)),
        }
    }
}

/// Applies a function to the output of incoming connections.
#[derive(Debug)]
pub struct ListenerAndThen<T, F, U> {
    /// What dials or listens.
    pub inner: T,
    /// The function.
    pub fun: F,
    /// What the function gives.
    pub output: PhantomData<U>,
}

impl<T, F, U> ListenerAndThen<T, F, U> {
    /// Applies the function to the output of incoming connections.
    pub fn new(inner: T, fun: F) -> (r: Self)
        ensures
            r == (ListenerAndThen { inner, fun, output: PhantomData::<U> }),
    {
        ListenerAndThen { inner, fun, output: PhantomData }
    }
}

impl<T: Clone, F: Clone, U> Clone for ListenerAndThen<T, F, U> {
    fn clone(&self) -> (r: Self)
        ensures
            cloned(self.inner, r.inner),
            cloned(self.fun, r.fun),
    {
        ListenerAndThen { inner: self.inner.clone(), fun: self.fun.clone(), output: PhantomData }
    }
}

impl<T: Copy, F: Copy, U> Copy for ListenerAndThen<T, F, U> {

}

impl<D: Dialer, F, U> Dialer for ListenerAndThen<D, F, U> {
    type Output = D::Output;

    type Error = D::Error;

    type Outbound = D::Outbound;

    fn dial(self, addr: Multiaddr) -> (r: Result<Self::Outbound, (Self, Multiaddr)>)
        ensures
            exists|inner: Result<D::Outbound, (D, Multiaddr)>| #[trigger]
                call_ensures(D::dial, (self.inner, addr), inner) && r == match inner {
                    Ok(future) => Ok::<D::Outbound, (Self, Multiaddr)>(future),
                    Err((dialer, a)) => Err(
                        (ListenerAndThen { inner: dialer, fun: self.fun, output: PhantomData::<U> }, a),
                    ),
                },
    {
        match self.inner.dial(addr) {
            Ok(future) => Ok(future),
            Err((dialer, addr)) => Err((ListenerAndThen::new(dialer, self.fun), addr)),
        }
    }
}

impl<L, F, U> Listener for ListenerAndThen<L, F, U> where
    L: Listener,
    F: FnOnce(L::Output, Multiaddr) -> U + Clone,
 {
    type Output = U;

    type Error = L::Error;

    type Inbound = AndThenStream<L::Inbound, F, U>;

    type Upgrade = AndThenFuture<L::Upgrade, F, U>;

    fn listen_on(self, addr: Multiaddr) -> (r: Result<
        (Self::Inbound, Multiaddr),
        (Self, Multiaddr),
    >)
        ensures
            exists|inner: Result<(L::Inbound, Multiaddr), (L, Multiaddr)>| #[trigger]
                call_ensures(L::listen_on, (self.inner, addr), inner) && r == match inner {
                    Ok((stream, a)) => Ok::<
                        (AndThenStream<L::Inbound, F, U>, Multiaddr),
                        (Self, Multiaddr),
                    >((AndThenStream { stream, fun: self.fun, output: PhantomData::<U> }, a)),
                    Err((listener, a)) => Err(
                        (ListenerAndThen { inner: listener, fun: self.fun, output: PhantomData::<U> }, a),
                    ),
                },
    {
        match self.inner.listen_on(addr) {
            Ok((stream, addr)) => Ok(
                (AndThenStream { stream, fun: self.fun, output: PhantomData }, addr),
            ),
            Err((listener, addr)) => Err((ListenerAndThen::new(listener, self.fun), addr)),
        }
    }

    fn nat_traversal(&self, server: &Multiaddr, observed: &Multiaddr) -> (r: Option<Multiaddr>)
        ensures
            call_ensures(L::nat_traversal, (&self.inner, server, observed), r),
    {
        self.inner.nat_traversal(server, observed)
    }
}

/// Applies a function to the output of outgoing connections.
#[derive(Debug)]
pub struct DialerAndThen<T, F, U> {
    /// What dials or listens.
    pub inner: T,
    /// The function.
    pub fun: F,
    /// What the function gives.
    pub output: PhantomData<U>,
}

impl<T, F, U> DialerAndThen<T, F, U> {
    /// Applies the function to the output of outgoing connections.
    pub fn new(inner: T, fun: F) -> (r: Self)
        ensures
            r == (DialerAndThen { inner, fun, output: PhantomData::<U> }),
    {
        DialerAndThen { inner, fun, output: PhantomData }
    }
}

impl<T: Clone, F: Clone, U> Clone for DialerAndThen<T, F, U> {
    fn clone(&self) -> (r: Self)
        ensures
            cloned(self.inner, r.inner),
            cloned(self.fun, r.fun),
    {
        DialerAndThen { inner: self.inner.clone(), fun: self.fun.clone(), output: PhantomData }
    }
}

impl<T: Copy, F: Copy, U> Copy for DialerAndThen<T, F, U> {

}

impl<D, F, U> Dialer for DialerAndThen<D, F, U> where D: Dialer, F: FnOnce(D::Output, Multiaddr) -> U {
    type Output = U;

    type Error = D::Error;

    type Outbound = AndThenFuture<D::Outbound, F, U>;

    fn dial(self, addr: Multiaddr) -> (r: Result<Self::Outbound, (Self, Multiaddr)>)
        ensures
            exists|inner: Result<D::Outbound, (D, Multiaddr)>| #[trigger]
                call_ensures(D::dial, (self.inner, addr), inner) && r == match inner {
                    Ok(future) => Ok::<AndThenFuture<D::Outbound, F, U>, (Self, Multiaddr)>(
                        AndThenFuture { inner: Either::A::<_, U>(future), args: Some((self.fun, addr)) },
                    ),
                    Err((dialer, a)) => Err(
                        (DialerAndThen { inner: dialer, fun: self.fun, output: PhantomData::<U> }, a),
                    ),
                },
    {
        let fun = self.fun;
        match self.inner.dial(addr.clone()) {
            Ok(future) => Ok(AndThenFuture { inner: Either::A::<_, U>(future), args: Some((fun, addr)) }),
            Err((dialer, addr)) => Err((DialerAndThen::new(dialer, fun), addr)),
        }
    }
}

impl<L: Listener, F, U> Listener for DialerAndThen<L, F, U> {
    type Output = L::Output;

    type Error = L::Error;

    type Inbound = L::Inbound;

    type Upgrade = L::Upgrade;

    fn listen_on(self, addr: Multiaddr) -> (r: Result<
        (Self::Inbound, Multiaddr),
        (Self, Multiaddr),
    >)
        ensures
            exists|inner: Result<(L::Inbound, Multiaddr), (L, Multiaddr)>| #[trigger]
                call_ensures(L::listen_on, (self.inner, addr), inner) && r == match inner {
                    Ok(x) => Ok::<(L::Inbound, Multiaddr), (Self, Multiaddr)>(x),
                    Err((listener, a)) => Err(
                        (DialerAndThen { inner: listener, fun: self.fun, output: PhantomData::<U> }, a),
                    ),
                },
    {
        match self.inner.listen_on(addr) {
            Ok(x) => Ok(x),
            Err((listener, addr)) => Err((DialerAndThen::new(listener, self.fun), addr)),
        }
    }

    fn nat_traversal(&self, server: &Multiaddr, observed: &Multiaddr) -> (r: Option<Multiaddr>)
        ensures
            call_ensures(L::nat_traversal, (&self.inner, server, observed), r),
    {
        self.inner.nat_traversal(server, observed)
    }
}

/// Applies a function to every incoming connection.
#[derive(Debug)]
pub struct AndThenStream<T, F, U> {
    /// The incoming connections.
    pub stream: T,
    /// The function.
    pub fun: F,
    /// What the function gives.
    pub output: PhantomData<U>,
}

impl<T: Clone, F: Clone, U> Clone for AndThenStream<T, F, U> {
    fn clone(&self) -> (r: Self)
        ensures
            cloned(self.stream, r.stream),
            cloned(self.fun, r.fun),
    {
        AndThenStream { stream: self.stream.clone(), fun: self.fun.clone(), output: PhantomData }
    }
}

impl<T, F: Clone, U> AndThenStream<T, F, U> {
    /// What becomes of the next incoming connection.
    pub fn poll<X, E>(&mut self, polled: Poll<Option<(X, Multiaddr)>, E>) -> (r: Poll<
        Option<(AndThenFuture<X, F, U>, Multiaddr)>,
        E,
    >)
        ensures
            *final(self) == *old(self),
            match polled {
                Ok(Async::Ready(Some((future, addr)))) => exists|f: F| #[trigger]
                    cloned(old(self).fun, f) && r == Ok::<Async<Option<(AndThenFuture<X, F, U>, Multiaddr)>>, E>(
                        Async::Ready(
                            Some((AndThenFuture { inner: Either::A::<_, U>(future), args: Some((f, addr)) }, addr)),
                        ),
                    ),
                Ok(Async::Ready(None)) => r matches Ok(Async::Ready(None)),
                Ok(Async::NotReady) => r matches Ok(Async::NotReady),
                Err(e) => r matches Err(f) && e == f,
            },
    {
        match polled {
            Ok(Async::Ready(Some((future, addr)))) => {
                let f = self.fun.clone();
                assert(cloned(self.fun, f));
                let a = addr.clone();
                let future = AndThenFuture { inner: Either::A::<_, U>(future), args: Some((f, a)) };
                Ok(Async::Ready(Some((future, addr))))
            },
            Ok(Async::Ready(None)) => Ok(Async::Ready(None)),
            Ok(Async::NotReady) => Ok(Async::NotReady),
            Err(e) => Err(e),
        }
    }
}

/// Applies a function to every incoming connection.
#[derive(Debug)]
pub struct AndThenStream2<T, F, U> {
    /// The incoming connections.
    pub stream: T,
    /// The function.
    pub fun: F,
    /// What the function gives.
    pub output: PhantomData<U>,
}

impl<T: Clone, F: Clone, U> Clone for AndThenStream2<T, F, U> {
    fn clone(&self) -> (r: Self)
        ensures
            cloned(self.stream, r.stream),
            cloned(self.fun, r.fun),
    {
        AndThenStream2 { stream: self.stream.clone(), fun: self.fun.clone(), output: PhantomData }
    }
}

impl<T, F: Clone, U> AndThenStream2<T, F, U> {
    /// What becomes of the next incoming connection.
    pub fn poll<X, E>(&mut self, polled: Poll<Option<(X, Multiaddr)>, E>) -> (r: Poll<
        Option<(AndThenFuture2<X, F, U>, Multiaddr)>,
        E,
    >)
        ensures
            *final(self) == *old(self),
            match polled {
                Ok(Async::Ready(Some((future, addr)))) => exists|f: F| #[trigger]
                    cloned(old(self).fun, f) && r == Ok::<Async<Option<(AndThenFuture2<X, F, U>, Multiaddr)>>, E>(
                        Async::Ready(
                            Some((AndThenFuture2 { inner: Either::A::<_, U>(future), args: Some((f, Endpoint::Listener, addr)) }, addr)),
                        ),
                    ),
                Ok(Async::Ready(None)) => r matches Ok(Async::Ready(None)),
                Ok(Async::NotReady) => r matches Ok(Async::NotReady),
                Err(e) => r matches Err(f) && e == f,
            },
    {
        match polled {
            Ok(Async::Ready(Some((future, addr)))) => {
                let f = self.fun.clone();
                assert(cloned(self.fun, f));
                let a = addr.clone();
                let future = AndThenFuture2 { inner: Either::A::<_, U>(future), args: Some((f, Endpoint::Listener, a)) };
                Ok(Async::Ready(Some((future, addr))))
            },
            Ok(Async::Ready(None)) => Ok(Async::Ready(None)),
            Ok(Async::NotReady) => Ok(Async::NotReady),
            Err(e) => Err(e),
        }
    }
}

/// Applies a function to the result of a computation.
#[derive(Debug)]
pub struct AndThenFuture<T, F, U> {
    /// The first computation, or the one that the function gave.
    pub inner: Either<T, U>,
    /// The function and what it is told, until it is applied.
    pub args: Option<(F, Multiaddr)>,
}

impl<T, F, U> AndThenFuture<T, F, U> {
    /// What becomes of the outcome of polling the computation that is under way.
    ///
    /// The function is applied once. The computation that it gives is polled the next time.
    pub fn poll<A, B, E>(&mut self, polled: Either<Poll<A, E>, Poll<B, E>>) -> (r: Poll<B, E>) where
        F: FnOnce(A, Multiaddr) -> U,

        requires
            polled is A <==> old(self).inner is A,
            polled matches Either::A(Ok(Async::Ready(x))) ==> (old(self).args matches Some((f, a))
                && call_requires(f, (x, a))),
        ensures
            match polled {
                Either::A(Ok(Async::Ready(x))) => {
                    let (f, a) = old(self).args->Some_0;
                    &&& r == Ok::<Async<B>, E>(Async::NotReady)
                    &&& final(self).args is None
                    &&& final(self).inner matches Either::B(u) && call_ensures(f, (x, a), u)
                },
                Either::A(Ok(Async::NotReady)) => *final(self) == *old(self) && r == Ok::<Async<B>, E>(
                    Async::NotReady,
                ),
                Either::A(Err(e)) => *final(self) == *old(self) && r == Err::<Async<B>, E>(e),
                Either::B(p) => *final(self) == *old(self) && r == p,
            },
    {
        match polled {
            Either::A(Ok(Async::Ready(x))) => {
                let (f, a) = self.args.take().unwrap();
                let future = f(x, a);
                self.inner = Either::B(future);
                Ok(Async::NotReady)
            },
            Either::A(Ok(Async::NotReady)) => Ok(Async::NotReady),
            Either::A(Err(e)) => Err(e),
            Either::B(p) => p,
        }
    }
}

/// Applies a function to the result of a computation.
#[derive(Debug)]
pub struct AndThenFuture2<T, F, U> {
    /// The first computation, or the one that the function gave.
    pub inner: Either<T, U>,
    /// The function and what it is told, until it is applied.
    pub args: Option<(F, Endpoint, Multiaddr)>,
}

impl<T, F, U> AndThenFuture2<T, F, U> {
    /// What becomes of the outcome of polling the computation that is under way.
    ///
    /// The function is applied once. The computation that it gives is polled the next time.
    pub fn poll<A, B, E>(&mut self, polled: Either<Poll<A, E>, Poll<B, E>>) -> (r: Poll<B, E>) where
        F: FnOnce(A, Endpoint, Multiaddr) -> U,

        requires
            polled is A <==> old(self).inner is A,
            polled matches Either::A(Ok(Async::Ready(x))) ==> (old(self).args matches Some((f, e, a))
                && call_requires(f, (x, e, a))),
        ensures
            match polled {
                Either::A(Ok(Async::Ready(x))) => {
                    let (f, e, a) = old(self).args->Some_0;
                    &&& r == Ok::<Async<B>, E>(Async::NotReady)
                    &&& final(self).args is None
                    &&& final(self).inner matches Either::B(u) && call_ensures(f, (x, e, a), u)
                },
                Either::A(Ok(Async::NotReady)) => *final(self) == *old(self) && r == Ok::<Async<B>, E>(
                    Async::NotReady,
                ),
                Either::A(Err(e)) => *final(self) == *old(self) && r == Err::<Async<B>, E>(e),
                Either::B(p) => *final(self) == *old(self) && r == p,
            },
    {
        match polled {
            Either::A(Ok(Async::Ready(x))) => {
                let (f, e, a) = self.args.take().unwrap();
                let future = f(x, e, a);
                self.inner = Either::B(future);
                Ok(Async::NotReady)
            },
            Either::A(Ok(Async::NotReady)) => Ok(Async::NotReady),
            Either::A(Err(e)) => Err(e),
            Either::B(p) => p,
        }
    }
}

} // verus!
