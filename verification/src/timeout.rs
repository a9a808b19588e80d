//! Wraps around a transport and adds a timeout to all the incoming and outgoing connections.
//!
//! The timeout includes the upgrading process.

use crate::address::Multiaddr;
use crate::async_value::{Async, Poll};
use crate::transport::{Dialer, Listener};
use std::time::Duration;
use vstd::prelude::*;

verus! {

/// A hundred years of 365 days, in seconds.
pub const CENTURY: u64 = 100 * 365 * 24 * 3600;

/// How many nanoseconds a second has.
pub const NANOSECONDS: u64 = 1_000_000_000;

/// The duration of a number of seconds.
pub uninterp spec fn seconds(secs: u64) -> Duration;

/// How long a duration is, in nanoseconds.
pub uninterp spec fn nanoseconds(duration: Duration) -> nat;

/// `Duration::from_secs` of std: a function of the number of seconds, which is as long as that
/// many seconds.
#[verifier::external_body]
fn from_secs(secs: u64) -> (r: Duration)
    ensures
        r == seconds(secs),
        nanoseconds(r) == secs * NANOSECONDS,
{
    Duration::from_secs(secs)
}

/// Wraps around a transport and adds a timeout to all the incoming and outgoing connections.
///
/// The timeout includes the upgrade. There is no timeout on the listener or on the stream of
/// incoming substreams.
#[derive(Debug, Copy)]
pub struct TransportTimeout<InnerTrans> {
    /// What dials and listens.
    pub inner: InnerTrans,
    /// How long an outgoing connection may take.
    pub outgoing_timeout: Duration,
    /// How long an incoming connection may take.
    pub incoming_timeout: Duration,
}

impl<InnerTrans: Clone> Clone for TransportTimeout<InnerTrans> {
    fn clone(&self) -> (r: Self)
        ensures
            cloned(self.inner, r.inner),
            r.outgoing_timeout == self.outgoing_timeout,
            r.incoming_timeout == self.incoming_timeout,
    {
        TransportTimeout {
            inner: self.inner.clone(),
            outgoing_timeout: self.outgoing_timeout,
            incoming_timeout: self.incoming_timeout,
        }
    }
}

impl<InnerTrans> TransportTimeout<InnerTrans> {
    /// Adds timeouts to all connections.
    pub fn new(trans: InnerTrans, timeout: Duration) -> (r: Self)
        ensures
            r == (TransportTimeout {
                inner: trans,
                outgoing_timeout: timeout,
                incoming_timeout: timeout,
            }),
    {
        TransportTimeout { inner: trans, outgoing_timeout: timeout, incoming_timeout: timeout }
    }

    /// Adds timeouts to the outgoing connections. The incoming ones have a hundred years.
    pub fn with_outgoing_timeout(trans: InnerTrans, timeout: Duration) -> (r: Self)
        ensures
            r == (TransportTimeout {
                inner: trans,
                outgoing_timeout: timeout,
                incoming_timeout: seconds(CENTURY),
            }),
            nanoseconds(r.incoming_timeout) == CENTURY * NANOSECONDS,
    {
        TransportTimeout {
            inner: trans,
            outgoing_timeout: timeout,
            incoming_timeout: from_secs(CENTURY),
        }
    }

    /// Adds timeouts to the incoming connections. The outgoing ones have a hundred years.
    pub fn with_ingoing_timeout(trans: InnerTrans, timeout: Duration) -> (r: Self)
        ensures
            r == (TransportTimeout {
                inner: trans,
                outgoing_timeout: seconds(CENTURY),
                incoming_timeout: timeout,
            }),
            nanoseconds(r.outgoing_timeout) == CENTURY * NANOSECONDS,
    {
        TransportTimeout {
            inner: trans,
            outgoing_timeout: from_secs(CENTURY),
            incoming_timeout: timeout,
        }
    }
}

impl<L: Listener> Listener for TransportTimeout<L> {
    type Output = L::Output;

    type Error = Error<L::Error>;

    type Inbound = TimeoutListener<L::Inbound>;

    type Upgrade = TokioTimerMapErr<L::Upgrade>;

    fn listen_on(self, addr: Multiaddr) -> (r: Result<
        (Self::Inbound, Multiaddr),
        (Self, Multiaddr),
    >)
        ensures
            exists|result: Result<(L::Inbound, Multiaddr), (L, Multiaddr)>| #[trigger]
                call_ensures(L::listen_on, (self.inner, addr), result) && r == match result {
                    Ok((listener, a)) => Ok::<
                        (TimeoutListener<L::Inbound>, Multiaddr),
                        (Self, Multiaddr),
                    >((TimeoutListener { inner: listener, timeout: self.incoming_timeout }, a)),
                    Err((inner, a)) => Err((TransportTimeout { inner, ..self }, a)),
                },
    {
        match self.inner.listen_on(addr) {
            Ok((listener, addr)) => {
                let listener = TimeoutListener { inner: listener, timeout: self.incoming_timeout };
                Ok((listener, addr))
            },
            Err((inner, addr)) => {
                let transport = TransportTimeout {
                    inner,
                    outgoing_timeout: self.outgoing_timeout,
                    incoming_timeout: self.incoming_timeout,
                };
                Err((transport, addr))
            },
        }
    }

    fn nat_traversal(&self, server: &Multiaddr, observed: &Multiaddr) -> (r: Option<Multiaddr>)
        ensures
            call_ensures(L::nat_traversal, (&self.inner, server, observed), r),
    {
        self.inner.nat_traversal(server, observed)
    }
}

impl<D: Dialer> Dialer for TransportTimeout<D> {
    type Output = D::Output;

    type Error = Error<D::Error>;

    type Outbound = TokioTimerMapErr<D::Outbound>;

    fn dial(self, addr: Multiaddr) -> (r: Result<Self::Outbound, (Self, Multiaddr)>)
        ensures
            exists|result: Result<D::Outbound, (D, Multiaddr)>| #[trigger]
                call_ensures(D::dial, (self.inner, addr), result) && r == match result {
                    Ok(dial) => Ok::<TokioTimerMapErr<D::Outbound>, (Self, Multiaddr)>(
                        TokioTimerMapErr { inner: dial, timeout: self.outgoing_timeout },
                    ),
                    Err((inner, a)) => Err((TransportTimeout { inner, ..self }, a)),
                },
    {
        match self.inner.dial(addr) {
            Ok(dial) => Ok(TokioTimerMapErr { inner: dial, timeout: self.outgoing_timeout }),
            Err((inner, addr)) => {
                let transport = TransportTimeout {
                    inner,
                    outgoing_timeout: self.outgoing_timeout,
                    incoming_timeout: self.incoming_timeout,
                };
                Err((transport, addr))
            },
        }
    }
}

/// Incoming connections that get a timeout.
#[derive(Debug)]
pub struct TimeoutListener<InnerStream> {
    /// The incoming connections.
    pub inner: InnerStream,
    /// How long each may take.
    pub timeout: Duration,
}

impl<InnerStream> TimeoutListener<InnerStream> {
    /// What becomes of the next incoming connection.
    pub fn poll<O, E>(&mut self, polled: Poll<Option<(O, Multiaddr)>, E>) -> (r: Poll<
        Option<(TokioTimerMapErr<O>, Multiaddr)>,
        E,
    >)
        ensures
            *final(self) == *old(self),
            r == match polled {
                Ok(Async::Ready(Some((inner, addr)))) => Ok::<
                    Async<Option<(TokioTimerMapErr<O>, Multiaddr)>>,
                    E,
                >(
                    Async::Ready(
                        Some((TokioTimerMapErr { inner, timeout: old(self).timeout }, addr)),
                    ),
                ),
                Ok(Async::Ready(None)) => Ok(Async::Ready(None)),
                Ok(Async::NotReady) => Ok(Async::NotReady),
                Err(e) => Err(e),
            },
    {
        match polled {
            Ok(Async::Ready(Some((inner, addr)))) => {
                let fut = TokioTimerMapErr { inner, timeout: self.timeout };
                Ok(Async::Ready(Some((fut, addr))))
            },
            Ok(Async::Ready(None)) => Ok(Async::Ready(None)),
            Ok(Async::NotReady) => Ok(Async::NotReady),
            Err(e) => Err(e),
        }
    }
}

/// A connection with a timeout, which runs from the moment at which it is started.
#[must_use]
#[derive(Debug)]
pub struct TokioTimerMapErr<InnerFut> {
    /// The connection while it is being made.
    pub inner: InnerFut,
    /// How long that may take.
    pub timeout: Duration,
}

/// How a computation with a timeout ends.
#[derive(Debug)]
pub enum TimerError<E> {
    /// The computation failed.
    Inner(E),
    /// The time is over.
    Elapsed,
    /// The timer failed.
    Timer,
}

/// Why a connection could not be made.
#[derive(Debug)]
pub enum Error<E> {
    /// The transport failed.
    Transport(E),
    /// The time is over.
    Timeout,
    /// The timer failed.
    Timer,
}

impl<InnerFut> TokioTimerMapErr<InnerFut> {
    /// What becomes of the outcome of polling the computation and its timer.
    pub fn poll<A, E>(&mut self, polled: Poll<A, TimerError<E>>) -> (r: Poll<A, Error<E>>)
        ensures
            *final(self) == *old(self),
            r == match polled {
                Ok(a) => Ok::<Async<A>, Error<E>>(a),
                Err(TimerError::Inner(e)) => Err(Error::Transport(e)),
                Err(TimerError::Elapsed) => Err(Error::Timeout),
                Err(TimerError::Timer) => Err(Error::Timer),
            },
    {
        match polled {
            Ok(a) => Ok(a),
            Err(TimerError::Inner(e)) => Err(Error::Transport(e)),
            Err(TimerError::Elapsed) => Err(Error::Timeout),
            Err(TimerError::Timer) => Err(Error::Timer),
        }
    }
}

impl<E> Error<E> {
    /// What is said of the error before what its cause says.
    pub fn prefix(&self) -> (r: &'static str)
        ensures
            r@ == match self {
                Error::Transport(_) => "transport error: "@,
                Error::Timeout => "timeout"@,
                Error::Timer => "timer error"@,
            },
    {
        match self {
            Error::Transport(_) => "transport error: ",
            Error::Timeout => "timeout",
            Error::Timer => "timer error",
        }
    }

    /// The error that this one stems from.
    pub fn cause(&self) -> (r: Option<&E>)
        ensures
            match self {
                Error::Transport(e) => r matches Some(c) && *c == *e,
                _ => r is None,
            },
    {
        match self {
            Error::Transport(e) => Some(e),
            Error::Timeout => None,
            Error::Timer => None,
        }
    }
}

} // verus!
