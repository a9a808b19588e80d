//! Tries one transport, then another one.

use crate::address::Multiaddr;
use crate::either::{EitherError, EitherFuture, EitherListenStream, EitherOutput};
use crate::transport::{Dialer, Listener};
use vstd::prelude::*;

verus! {

/// Uses the first of two transports that supports an address.
#[derive(Debug)]
pub struct Or<A, B>(pub A, pub B);

impl<A: Clone, B: Clone> Clone for Or<A, B> {
    fn clone(&self) -> (r: Self)
        ensures
            cloned(self.0, r.0),
            cloned(self.1, r.1),
    {
        Or(self.0.clone(), self.1.clone())
    }
}

impl<A: Copy, B: Copy> Copy for Or<A, B> {

}

impl<A, B> Or<A, B> {
    /// Uses the first of two transports that supports an address.
    pub fn new(a: A, b: B) -> (r: Self)
        ensures
            r == Or(a, b),
    {
        Or(a, b)
    }
}

impl<A: Listener, B: Listener> Listener for Or<A, B> {
    type Output = EitherOutput<A::Output, B::Output>;

    type Error = EitherError<A::Error, B::Error>;

    type Inbound = EitherListenStream<A::Inbound, B::Inbound>;

    type Upgrade = EitherFuture<A::Upgrade, B::Upgrade>;

    fn listen_on(self, addr: Multiaddr) -> (r: Result<
        (Self::Inbound, Multiaddr),
        (Self, Multiaddr),
    >)
        ensures
            exists|first: Result<(A::Inbound, Multiaddr), (A, Multiaddr)>| #[trigger]
                call_ensures(A::listen_on, (self.0, addr), first) && match first {
                    Ok((stream, a)) => r == Ok::<
                        (EitherListenStream<A::Inbound, B::Inbound>, Multiaddr),
                        (Self, Multiaddr),
                    >((EitherListenStream::A(stream), a)),
                    Err((left, addr1)) => exists|
                        second: Result<(B::Inbound, Multiaddr), (B, Multiaddr)>,
                    | #[trigger]
                        call_ensures(B::listen_on, (self.1, addr1), second) && r == match second {
                            Ok((stream, a)) => Ok::<
                                (EitherListenStream<A::Inbound, B::Inbound>, Multiaddr),
                                (Self, Multiaddr),
                            >((EitherListenStream::B(stream), a)),
                            Err((right, a)) => Err((Or(left, right), a)),
                        },
                },
    {
        match self.0.listen_on(addr) {
            Ok((stream, addr)) => Ok((EitherListenStream::A(stream), addr)),
            Err((left, addr)) => match self.1.listen_on(addr) {
                Ok((stream, addr)) => Ok((EitherListenStream::B(stream), addr)),
                Err((right, addr)) => Err((Or(left, right), addr)),
            },
        }
    }

    fn nat_traversal(&self, server: &Multiaddr, observed: &Multiaddr) -> (r: Option<Multiaddr>)
        ensures
            exists|first: Option<Multiaddr>| #[trigger]
                call_ensures(A::nat_traversal, (&self.0, server, observed), first) && match first {
                    Some(a) => r == Some(a),
                    None => call_ensures(B::nat_traversal, (&self.1, server, observed), r),
                },
    {
        let first = self.0.nat_traversal(server, observed);
        assert(call_ensures(A::nat_traversal, (&self.0, server, observed), first));
        match first {
            Some(a) => Some(a),
            None => self.1.nat_traversal(server, observed),
        }
    }
}

impl<A: Dialer, B: Dialer> Dialer for Or<A, B> {
    type Output = EitherOutput<A::Output, B::Output>;

    type Error = EitherError<A::Error, B::Error>;

    type Outbound = EitherFuture<A::Outbound, B::Outbound>;

    fn dial(self, addr: Multiaddr) -> (r: Result<Self::Outbound, (Self, Multiaddr)>)
        ensures
            exists|first: Result<A::Outbound, (A, Multiaddr)>| #[trigger]
                call_ensures(A::dial, (self.0, addr), first) && match first {
                    Ok(future) => r == Ok::<
                        EitherFuture<A::Outbound, B::Outbound>,
                        (Self, Multiaddr),
                    >(EitherFuture::A(future)),
                    Err((left, addr1)) => exists|second: Result<B::Outbound, (B, Multiaddr)>|
                        #[trigger] call_ensures(B::dial, (self.1, addr1), second) && r
                            == match second {
                            Ok(future) => Ok::<
                                EitherFuture<A::Outbound, B::Outbound>,
                                (Self, Multiaddr),
                            >(EitherFuture::B(future)),
                            Err((right, a)) => Err((Or(left, right), a)),
                        },
                },
    {
        match self.0.dial(addr) {
            Ok(future) => Ok(EitherFuture::A(future)),
            Err((left, addr)) => match self.1.dial(addr) {
                Ok(future) => Ok(EitherFuture::B(future)),
                Err((right, addr)) => Err((Or(left, right), addr)),
            },
        }
    }
}

} // verus!
