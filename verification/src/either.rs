//! One of two things that are used in the same way.

use crate::address::Multiaddr;
use crate::async_value::{Async, Either, Poll};
use crate::muxing::{Shutdown, StreamMuxer};
use vstd::pervasive::unreached;
use vstd::prelude::*;

verus! {

/// One of two errors.
#[derive(Debug, Copy, Clone, PartialEq, Eq)]
pub enum EitherError<A, B> {
    /// The first.
    A(A),
    /// The second.
    B(B),
}

/// One of two outputs.
#[derive(Debug, Copy, Clone, PartialEq, Eq)]
pub enum EitherOutput<A, B> {
    /// The first.
    A(A),
    /// The second.
    B(B),
}

/// A substream that is being opened on one of two connections.
#[derive(Debug, Copy, Clone, PartialEq, Eq)]
pub enum EitherOutbound<A, B> {
    /// On the first.
    A(A),
    /// On the second.
    B(B),
}

/// One of two streams of incoming connections.
#[derive(Debug, Copy, Clone, PartialEq, Eq)]
pub enum EitherListenStream<A, B> {
    /// The first.
    A(A),
    /// The second.
    B(B),
}

/// One of two computations.
#[derive(Debug, Copy, Clone, PartialEq, Eq)]
pub enum EitherFuture<A, B> {
    /// The first.
    A(A),
    /// The second.
    B(B),
}

/// An accepted or opened substream of the first connection.
pub open spec fn first_substream<S, T, E>(p: Poll<Option<S>, E>) -> Poll<
    Option<EitherOutput<S, T>>,
    E,
> {
    match p {
        Ok(Async::Ready(Some(s))) => Ok(Async::Ready(Some(EitherOutput::A(s)))),
        Ok(Async::Ready(None)) => Ok(Async::Ready(None)),
        Ok(Async::NotReady) => Ok(Async::NotReady),
        Err(e) => Err(e),
    }
}

/// An accepted or opened substream of the second connection.
pub open spec fn second_substream<S, T, E>(p: Poll<Option<T>, E>) -> Poll<
    Option<EitherOutput<S, T>>,
    E,
> {
    match p {
        Ok(Async::Ready(Some(s))) => Ok(Async::Ready(Some(EitherOutput::B(s)))),
        Ok(Async::Ready(None)) => Ok(Async::Ready(None)),
        Ok(Async::NotReady) => Ok(Async::NotReady),
        Err(e) => Err(e),
    }
}

fn map_first<S, T, E>(p: Poll<Option<S>, E>) -> (r: Poll<Option<EitherOutput<S, T>>, E>)
    ensures
        r == first_substream::<S, T, E>(p),
{
    match p {
        Ok(Async::Ready(Some(s))) => Ok(Async::Ready(Some(EitherOutput::A(s)))),
        Ok(Async::Ready(None)) => Ok(Async::Ready(None)),
        Ok(Async::NotReady) => Ok(Async::NotReady),
        Err(e) => Err(e),
    }
}

fn map_second<S, T, E>(p: Poll<Option<T>, E>) -> (r: Poll<Option<EitherOutput<S, T>>, E>)
    ensures
        r == second_substream::<S, T, E>(p),
{
    match p {
        Ok(Async::Ready(Some(s))) => Ok(Async::Ready(Some(EitherOutput::B(s)))),
        Ok(Async::Ready(None)) => Ok(Async::Ready(None)),
        Ok(Async::NotReady) => Ok(Async::NotReady),
        Err(e) => Err(e),
    }
}

impl<A, B> StreamMuxer for EitherOutput<A, B> where
    A: StreamMuxer,
    B: StreamMuxer<Error = <A as StreamMuxer>::Error>,
 {
    type Substream = EitherOutput<A::Substream, B::Substream>;

    type OutboundSubstream = EitherOutbound<A::OutboundSubstream, B::OutboundSubstream>;

    type Error = A::Error;

    open spec fn owns(&self, sub: Self::Substream) -> bool {
        match (self, sub) {
            (EitherOutput::A(inner), EitherOutput::A(s)) => inner.owns(s),
            (EitherOutput::B(inner), EitherOutput::B(s)) => inner.owns(s),
            _ => false,
        }
    }

    open spec fn owns_outbound(&self, sub: Self::OutboundSubstream) -> bool {
        match (self, sub) {
            (EitherOutput::A(inner), EitherOutbound::A(s)) => inner.owns_outbound(s),
            (EitherOutput::B(inner), EitherOutbound::B(s)) => inner.owns_outbound(s),
            _ => false,
        }
    }

    fn poll_inbound(&self) -> (r: Poll<Option<Self::Substream>, Self::Error>)
        ensures
            match self {
                EitherOutput::A(inner) => exists|p: Poll<Option<A::Substream>, A::Error>| #[trigger]
                    call_ensures(A::poll_inbound, (inner,), p) && r == first_substream::<
                        A::Substream,
                        B::Substream,
                        A::Error,
                    >(p),
                EitherOutput::B(inner) => exists|p: Poll<Option<B::Substream>, A::Error>| #[trigger]
                    call_ensures(B::poll_inbound, (inner,), p) && r == second_substream::<
                        A::Substream,
                        B::Substream,
                        A::Error,
                    >(p),
            },
    {
        match self {
            EitherOutput::A(inner) => map_first(inner.poll_inbound()),
            EitherOutput::B(inner) => map_second(inner.poll_inbound()),
        }
    }

    fn open_outbound(&self) -> (r: Self::OutboundSubstream)
        ensures
            match self {
                EitherOutput::A(inner) => r matches EitherOutbound::A(s) && call_ensures(
                    A::open_outbound,
                    (inner,),
                    s,
                ),
                EitherOutput::B(inner) => r matches EitherOutbound::B(s) && call_ensures(
                    B::open_outbound,
                    (inner,),
                    s,
                ),
            },
    {
        match self {
            EitherOutput::A(inner) => EitherOutbound::A(inner.open_outbound()),
            EitherOutput::B(inner) => EitherOutbound::B(inner.open_outbound()),
        }
    }

    fn poll_outbound(&self, substream: &mut Self::OutboundSubstream) -> (r: Poll<
        Option<Self::Substream>,
        Self::Error,
    >)
        ensures
            match (self, *old(substream)) {
                (EitherOutput::A(inner), EitherOutbound::A(s)) => exists|
                    m: &mut A::OutboundSubstream,
                    p: Poll<Option<A::Substream>, A::Error>,
                | #[trigger]
                    call_ensures(A::poll_outbound, (inner, m), p) && r == first_substream::<
                        A::Substream,
                        B::Substream,
                        A::Error,
                    >(p) && *m == s && *final(substream) == EitherOutbound::<
                        A::OutboundSubstream,
                        B::OutboundSubstream,
                    >::A(*final(m)),
                (EitherOutput::B(inner), EitherOutbound::B(s)) => exists|
                    m: &mut B::OutboundSubstream,
                    p: Poll<Option<B::Substream>, A::Error>,
                | #[trigger]
                    call_ensures(B::poll_outbound, (inner, m), p) && r == second_substream::<
                        A::Substream,
                        B::Substream,
                        A::Error,
                    >(p) && *m == s && *final(substream) == EitherOutbound::<
                        A::OutboundSubstream,
                        B::OutboundSubstream,
                    >::B(*final(m)),
                _ => true,
            },
    {
        match self {
            EitherOutput::A(inner) => match substream {
                EitherOutbound::A(s) => map_first(inner.poll_outbound(s)),
                EitherOutbound::B(_) => unreached(),
            },
            EitherOutput::B(inner) => match substream {
                EitherOutbound::B(s) => map_second(inner.poll_outbound(s)),
                EitherOutbound::A(_) => unreached(),
            },
        }
    }

    fn destroy_outbound(&self, substream: Self::OutboundSubstream)
        ensures
            match (self, substream) {
                (EitherOutput::A(inner), EitherOutbound::A(s)) => call_ensures(
                    A::destroy_outbound,
                    (inner, s),
                    (),
                ),
                (EitherOutput::B(inner), EitherOutbound::B(s)) => call_ensures(
                    B::destroy_outbound,
                    (inner, s),
                    (),
                ),
                _ => true,
            },
    {
        match self {
            EitherOutput::A(inner) => match substream {
                EitherOutbound::A(s) => inner.destroy_outbound(s),
                EitherOutbound::B(_) => unreached(),
            },
            EitherOutput::B(inner) => match substream {
                EitherOutbound::B(s) => inner.destroy_outbound(s),
                EitherOutbound::A(_) => unreached(),
            },
        }
    }

    fn read_substream(&self, sub: &mut Self::Substream, buf: &mut [u8]) -> (r: Poll<
        usize,
        Self::Error,
    >)
        ensures
            match (self, *old(sub)) {
                (EitherOutput::A(inner), EitherOutput::A(s)) => exists|
                    m: &mut A::Substream,
                    b: &mut [u8],
                | #[trigger]
                    call_ensures(A::read_substream, (inner, m, b), r) && *m == s && b@ == old(buf)@
                        && *final(sub) == EitherOutput::<A::Substream, B::Substream>::A(*final(m))
                        && final(buf)@ == final(b)@,
                (EitherOutput::B(inner), EitherOutput::B(s)) => exists|
                    m: &mut B::Substream,
                    b: &mut [u8],
                | #[trigger]
                    call_ensures(B::read_substream, (inner, m, b), r) && *m == s && b@ == old(buf)@
                        && *final(sub) == EitherOutput::<A::Substream, B::Substream>::B(*final(m))
                        && final(buf)@ == final(b)@,
                _ => true,
            },
    {
        match self {
            EitherOutput::A(inner) => match sub {
                EitherOutput::A(s) => inner.read_substream(s, buf),
                EitherOutput::B(_) => unreached(),
            },
            EitherOutput::B(inner) => match sub {
                EitherOutput::B(s) => inner.read_substream(s, buf),
                EitherOutput::A(_) => unreached(),
            },
        }
    }

    fn write_substream(&self, sub: &mut Self::Substream, buf: &[u8]) -> (r: Poll<
        usize,
        Self::Error,
    >)
        ensures
            match (self, *old(sub)) {
                (EitherOutput::A(inner), EitherOutput::A(s)) => exists|m: &mut A::Substream|
                    #[trigger] call_ensures(A::write_substream, (inner, m, buf), r) && *m == s && *final(
                        sub
                    ) == EitherOutput::<A::Substream, B::Substream>::A(*final(m)),
                (EitherOutput::B(inner), EitherOutput::B(s)) => exists|m: &mut B::Substream|
                    #[trigger] call_ensures(B::write_substream, (inner, m, buf), r) && *m == s && *final(
                        sub
                    ) == EitherOutput::<A::Substream, B::Substream>::B(*final(m)),
                _ => true,
            },
    {
        match self {
            EitherOutput::A(inner) => match sub {
                EitherOutput::A(s) => inner.write_substream(s, buf),
                EitherOutput::B(_) => unreached(),
            },
            EitherOutput::B(inner) => match sub {
                EitherOutput::B(s) => inner.write_substream(s, buf),
                EitherOutput::A(_) => unreached(),
            },
        }
    }

    fn flush_substream(&self, sub: &mut Self::Substream) -> (r: Poll<(), Self::Error>)
        ensures
            match (self, *old(sub)) {
                (EitherOutput::A(inner), EitherOutput::A(s)) => exists|m: &mut A::Substream|
                    #[trigger] call_ensures(A::flush_substream, (inner, m), r) && *m == s && *final(
                        sub
                    ) == EitherOutput::<A::Substream, B::Substream>::A(*final(m)),
                (EitherOutput::B(inner), EitherOutput::B(s)) => exists|m: &mut B::Substream|
                    #[trigger] call_ensures(B::flush_substream, (inner, m), r) && *m == s && *final(
                        sub
                    ) == EitherOutput::<A::Substream, B::Substream>::B(*final(m)),
                _ => true,
            },
    {
        match self {
            EitherOutput::A(inner) => match sub {
                EitherOutput::A(s) => inner.flush_substream(s),
                EitherOutput::B(_) => unreached(),
            },
            EitherOutput::B(inner) => match sub {
                EitherOutput::B(s) => inner.flush_substream(s),
                EitherOutput::A(_) => unreached(),
            },
        }
    }

    fn shutdown_substream(&self, sub: &mut Self::Substream, kind: Shutdown) -> (r: Poll<
        (),
        Self::Error,
    >)
        ensures
            match (self, *old(sub)) {
                (EitherOutput::A(inner), EitherOutput::A(s)) => exists|m: &mut A::Substream|
                    #[trigger] call_ensures(A::shutdown_substream, (inner, m, kind), r) && *m == s && *final(
                        sub
                    ) == EitherOutput::<A::Substream, B::Substream>::A(*final(m)),
                (EitherOutput::B(inner), EitherOutput::B(s)) => exists|m: &mut B::Substream|
                    #[trigger] call_ensures(B::shutdown_substream, (inner, m, kind), r) && *m == s && *final(
                        sub
                    ) == EitherOutput::<A::Substream, B::Substream>::B(*final(m)),
                _ => true,
            },
    {
        match self {
            EitherOutput::A(inner) => match sub {
                EitherOutput::A(s) => inner.shutdown_substream(s, kind),
                EitherOutput::B(_) => unreached(),
            },
            EitherOutput::B(inner) => match sub {
                EitherOutput::B(s) => inner.shutdown_substream(s, kind),
                EitherOutput::A(_) => unreached(),
            },
        }
    }

    fn destroy_substream(&self, substream: Self::Substream)
        ensures
            match (self, substream) {
                (EitherOutput::A(inner), EitherOutput::A(s)) => call_ensures(
                    A::destroy_substream,
                    (inner, s),
                    (),
                ),
                (EitherOutput::B(inner), EitherOutput::B(s)) => call_ensures(
                    B::destroy_substream,
                    (inner, s),
                    (),
                ),
                _ => true,
            },
    {
        match self {
            EitherOutput::A(inner) => match substream {
                EitherOutput::A(s) => inner.destroy_substream(s),
                EitherOutput::B(_) => unreached(),
            },
            EitherOutput::B(inner) => match substream {
                EitherOutput::B(s) => inner.destroy_substream(s),
                EitherOutput::A(_) => unreached(),
            },
        }
    }

    fn shutdown(&self, kind: Shutdown) -> (r: Poll<(), Self::Error>)
        ensures
            match self {
                EitherOutput::A(inner) => call_ensures(A::shutdown, (inner, kind), r),
                EitherOutput::B(inner) => call_ensures(B::shutdown, (inner, kind), r),
            },
    {
        match self {
            EitherOutput::A(inner) => inner.shutdown(kind),
            EitherOutput::B(inner) => inner.shutdown(kind),
        }
    }

    fn flush_all(&self) -> (r: Poll<(), Self::Error>)
        ensures
            match self {
                EitherOutput::A(inner) => call_ensures(A::flush_all, (inner,), r),
                EitherOutput::B(inner) => call_ensures(B::flush_all, (inner,), r),
            },
    {
        match self {
            EitherOutput::A(inner) => inner.flush_all(),
            EitherOutput::B(inner) => inner.flush_all(),
        }
    }
}

impl<A, B> EitherListenStream<A, B> {
    /// What becomes of the outcome of polling the stream that is there.
    pub fn poll<X, Y, E>(
        &mut self,
        polled: Either<Poll<Option<(X, Multiaddr)>, E>, Poll<Option<(Y, Multiaddr)>, E>>,
    ) -> (r: Poll<Option<(EitherFuture<X, Y>, Multiaddr)>, E>)
        requires
            polled is A <==> *old(self) is A,
        ensures
            *final(self) == *old(self),
            r == match polled {
                Either::A(Ok(Async::Ready(Some((o, addr))))) => Ok::<
                    Async<Option<(EitherFuture<X, Y>, Multiaddr)>>,
                    E,
                >(Async::Ready(Some((EitherFuture::A(o), addr)))),
                Either::B(Ok(Async::Ready(Some((o, addr))))) => Ok(
                    Async::Ready(Some((EitherFuture::B(o), addr))),
                ),
                Either::A(Ok(Async::Ready(None))) => Ok(Async::Ready(None)),
                Either::B(Ok(Async::Ready(None))) => Ok(Async::Ready(None)),
                Either::A(Ok(Async::NotReady)) => Ok(Async::NotReady),
                Either::B(Ok(Async::NotReady)) => Ok(Async::NotReady),
                Either::A(Err(e)) => Err(e),
                Either::B(Err(e)) => Err(e),
            },
    {
        match polled {
            Either::A(Ok(Async::Ready(Some((o, addr))))) => Ok(
                Async::Ready(Some((EitherFuture::A(o), addr))),
            ),
            Either::B(Ok(Async::Ready(Some((o, addr))))) => Ok(
                Async::Ready(Some((EitherFuture::B(o), addr))),
            ),
            Either::A(Ok(Async::Ready(None))) => Ok(Async::Ready(None)),
            Either::B(Ok(Async::Ready(None))) => Ok(Async::Ready(None)),
            Either::A(Ok(Async::NotReady)) => Ok(Async::NotReady),
            Either::B(Ok(Async::NotReady)) => Ok(Async::NotReady),
            Either::A(Err(e)) => Err(e),
            Either::B(Err(e)) => Err(e),
        }
    }
}

impl<A, B> EitherFuture<A, B> {
    /// What becomes of the outcome of polling the computation that is there.
    pub fn poll<X, Y, E, G>(&mut self, polled: Either<Poll<X, E>, Poll<Y, G>>) -> (r: Poll<
        EitherOutput<X, Y>,
        EitherError<E, G>,
    >)
        requires
            polled is A <==> *old(self) is A,
        ensures
            *final(self) == *old(self),
            r == match polled {
                Either::A(Ok(Async::Ready(x))) => Ok::<
                    Async<EitherOutput<X, Y>>,
                    EitherError<E, G>,
                >(Async::Ready(EitherOutput::A(x))),
                Either::B(Ok(Async::Ready(y))) => Ok(Async::Ready(EitherOutput::B(y))),
                Either::A(Ok(Async::NotReady)) => Ok(Async::NotReady),
                Either::B(Ok(Async::NotReady)) => Ok(Async::NotReady),
                Either::A(Err(e)) => Err(EitherError::A(e)),
                Either::B(Err(e)) => Err(EitherError::B(e)),
            },
    {
        match polled {
            Either::A(Ok(Async::Ready(x))) => Ok(Async::Ready(EitherOutput::A(x))),
            Either::B(Ok(Async::Ready(y))) => Ok(Async::Ready(EitherOutput::B(y))),
            Either::A(Ok(Async::NotReady)) => Ok(Async::NotReady),
            Either::B(Ok(Async::NotReady)) => Ok(Async::NotReady),
            Either::A(Err(e)) => Err(EitherError::A(e)),
            Either::B(Err(e)) => Err(EitherError::B(e)),
        }
    }
}

/// A substream of either connection is there exactly if it is there on that connection, and it is
/// that one; what else is said of it is said as it is.
pub proof fn law_substreams_come_from_their_side<S, T, E>(
    p: Poll<Option<S>, E>,
    q: Poll<Option<T>, E>,
)
    ensures
        forall|s: EitherOutput<S, T>|
            first_substream::<S, T, E>(p) == Ok::<Async<Option<EitherOutput<S, T>>>, E>(
                Async::Ready(Some(s)),
            ) <==> (#[trigger] is_first(s)) && p == Ok::<Async<Option<S>>, E>(
                Async::Ready(Some(s->A_0)),
            ),
        forall|s: EitherOutput<S, T>|
            second_substream::<S, T, E>(q) == Ok::<Async<Option<EitherOutput<S, T>>>, E>(
                Async::Ready(Some(s)),
            ) <==> !(#[trigger] is_first(s)) && q == Ok::<Async<Option<T>>, E>(
                Async::Ready(Some(s->B_0)),
            ),
        first_substream::<S, T, E>(p) matches Ok(Async::NotReady) <==> p matches Ok(Async::NotReady),
        second_substream::<S, T, E>(q) matches Ok(Async::NotReady) <==> q matches Ok(
            Async::NotReady,
        ),
        first_substream::<S, T, E>(p).err() == p.err(),
        second_substream::<S, T, E>(q).err() == q.err(),
{
}

/// The value is of the first side.
pub open spec fn is_first<A, B>(s: EitherOutput<A, B>) -> bool {
    s is A
}

} // verus!
