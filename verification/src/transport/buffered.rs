//! Puts buffers on connections.

use crate::address::Multiaddr;
use crate::async_value::{Async, Poll};
use crate::transport::{Dialer, Listener};
use vstd::prelude::*;

verus! {

/// Puts buffers on the connections of another transport.
#[derive(Debug)]
pub struct BufferedTransport<T> {
    /// The transport.
    pub transport: T,
    /// The size of each buffer.
    pub bufsize: usize,
}

impl<T: Clone> Clone for BufferedTransport<T> {
    fn clone(&self) -> (r: Self)
        ensures
            cloned(self.transport, r.transport),
            r.bufsize == self.bufsize,
    {
        BufferedTransport { transport: self.transport.clone(), bufsize: self.bufsize }
    }
}

impl<T> BufferedTransport<T> {
    /// Puts buffers of the given size on the connections of a transport.
    pub fn new(transport: T, bufsize: usize) -> (r: Self)
        ensures
            r == (BufferedTransport { transport, bufsize }),
    {
        BufferedTransport { transport, bufsize }
    }
}

impl<L: Listener> Listener for BufferedTransport<L> {
    type Output = Buffered<L::Output>;

    type Error = L::Error;

    type Inbound = BufferedListener<L::Inbound>;

    type Upgrade = ApplyBuffer<L::Upgrade>;

    fn listen_on(self, addr: Multiaddr) -> (r: Result<
        (Self::Inbound, Multiaddr),
        (Self, Multiaddr),
    >)
        ensures
            exists|inner: Result<(L::Inbound, Multiaddr), (L, Multiaddr)>| #[trigger]
                call_ensures(L::listen_on, (self.transport, addr), inner) && r == match inner {
                    Ok((listener, a)) => Ok::<
                        (BufferedListener<L::Inbound>, Multiaddr),
                        (Self, Multiaddr),
                    >((BufferedListener { listener, bufsize: self.bufsize }, a)),
                    Err((transport, a)) => Err(
                        (BufferedTransport { transport, bufsize: self.bufsize }, a),
                    ),
                },
    {
        match self.transport.listen_on(addr) {
            Ok((listener, addr)) => {
                let listener = BufferedListener { listener, bufsize: self.bufsize };
                Ok((listener, addr))
            },
            Err((transport, addr)) => {
                let transport = BufferedTransport { transport, bufsize: self.bufsize };
                Err((transport, addr))
            },
        }
    }

    fn nat_traversal(&self, server: &Multiaddr, observed: &Multiaddr) -> (r: Option<Multiaddr>)
        ensures
            call_ensures(L::nat_traversal, (&self.transport, server, observed), r),
    {
        self.transport.nat_traversal(server, observed)
    }
}

impl<D: Dialer> Dialer for BufferedTransport<D> {
    type Output = Buffered<D::Output>;

    type Error = D::Error;

    type Outbound = ApplyBuffer<D::Outbound>;

    fn dial(self, addr: Multiaddr) -> (r: Result<Self::Outbound, (Self, Multiaddr)>)
        ensures
            exists|inner: Result<D::Outbound, (D, Multiaddr)>| #[trigger]
                call_ensures(D::dial, (self.transport, addr), inner) && r == match inner {
                    Ok(dial) => Ok::<ApplyBuffer<D::Outbound>, (Self, Multiaddr)>(
                        ApplyBuffer { future: dial, bufsize: self.bufsize },
                    ),
                    Err((transport, a)) => Err(
                        (BufferedTransport { transport, bufsize: self.bufsize }, a),
                    ),
                },
    {
        match self.transport.dial(addr) {
            Ok(dial) => Ok(ApplyBuffer { future: dial, bufsize: self.bufsize }),
            Err((transport, addr)) => {
                let transport = BufferedTransport { transport, bufsize: self.bufsize };
                Err((transport, addr))
            },
        }
    }
}

/// Puts buffers on incoming connections.
#[derive(Debug)]
pub struct BufferedListener<T> {
    /// The incoming connections.
    pub listener: T,
    /// The size of each buffer.
    pub bufsize: usize,
}

impl<T: Clone> Clone for BufferedListener<T> {
    fn clone(&self) -> (r: Self)
        ensures
            cloned(self.listener, r.listener),
            r.bufsize == self.bufsize,
    {
        BufferedListener { listener: self.listener.clone(), bufsize: self.bufsize }
    }
}

impl<S> BufferedListener<S> {
    /// What becomes of the next incoming connection.
    pub fn poll<T, E>(&mut self, polled: Poll<Option<(T, Multiaddr)>, E>) -> (r: Poll<
        Option<(ApplyBuffer<T>, Multiaddr)>,
        E,
    >)
        ensures
            *final(self) == *old(self),
            r == match polled {
                Ok(Async::Ready(Some((future, addr)))) => Ok::<
                    Async<Option<(ApplyBuffer<T>, Multiaddr)>>,
                    E,
                >(
                    Async::Ready(
                        Some((ApplyBuffer { future, bufsize: old(self).bufsize }, addr)),
                    ),
                ),
                Ok(Async::Ready(None)) => Ok(Async::Ready(None)),
                Ok(Async::NotReady) => Ok(Async::NotReady),
                Err(e) => Err(e),
            },
    {
        match polled {
            Ok(Async::Ready(Some((future, addr)))) => {
                let future = ApplyBuffer { future, bufsize: self.bufsize };
                Ok(Async::Ready(Some((future, addr))))
            },
            Ok(Async::Ready(None)) => Ok(Async::Ready(None)),
            Ok(Async::NotReady) => Ok(Async::NotReady),
            Err(e) => Err(e),
        }
    }
}

/// Puts buffers on a connection once it is made.
#[derive(Debug)]
pub struct ApplyBuffer<T> {
    /// The computation that makes the connection.
    pub future: T,
    /// The size of each buffer.
    pub bufsize: usize,
}

impl<T: Clone> Clone for ApplyBuffer<T> {
    fn clone(&self) -> (r: Self)
        ensures
            cloned(self.future, r.future),
            r.bufsize == self.bufsize,
    {
        ApplyBuffer { future: self.future.clone(), bufsize: self.bufsize }
    }
}

impl<T> ApplyBuffer<T> {
    /// What becomes of the outcome of making the connection.
    pub fn poll<A, E>(&mut self, polled: Poll<A, E>) -> (r: Poll<Buffered<A>, E>)
        ensures
            *final(self) == *old(self),
            r == match polled {
                Ok(Async::Ready(output)) => Ok::<Async<Buffered<A>>, E>(
                    Async::Ready(
                        Buffered {
                            output,
                            read_capacity: old(self).bufsize,
                            write_capacity: old(self).bufsize,
                        },
                    ),
                ),
                Ok(Async::NotReady) => Ok(Async::NotReady),
                Err(e) => Err(e),
            },
    {
        match polled {
            Ok(Async::Ready(output)) => {
                let buffered = Buffered {
                    output,
                    read_capacity: self.bufsize,
                    write_capacity: self.bufsize,
                };
                Ok(Async::Ready(buffered))
            },
            Ok(Async::NotReady) => Ok(Async::NotReady),
            Err(e) => Err(e),
        }
    }
}

/// A connection and the sizes of the buffers that are put on its two halves.
#[derive(Debug, PartialEq, Eq)]
pub struct Buffered<T> {
    /// The connection.
    pub output: T,
    /// The size of the buffer for reading.
    pub read_capacity: usize,
    /// The size of the buffer for writing.
    pub write_capacity: usize,
}

} // verus!
