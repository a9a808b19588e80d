//! A transport that supports no address.

use crate::address::Multiaddr;
use crate::transport::{Dialer, Listener};
use vstd::prelude::*;

verus! {

/// A type without values, of the crate `void`.
#[verifier::external_type_specification]
#[verifier::external_body]
pub struct ExVoid(void::Void);

/// Dials and listens on no address.
#[derive(Debug, Copy, Clone, PartialEq, Eq, Structural)]
pub struct Denied;

impl Listener for Denied {
    type Output = void::Void;

    type Error = void::Void;

    type Inbound = void::Void;

    type Upgrade = void::Void;

    fn listen_on(self, addr: Multiaddr) -> (r: Result<
        (Self::Inbound, Multiaddr),
        (Self, Multiaddr),
    >)
        ensures
            r == Err::<(void::Void, Multiaddr), (Denied, Multiaddr)>((Denied, addr)),
    {
        Err((Denied, addr))
    }

    fn nat_traversal(&self, server: &Multiaddr, observed: &Multiaddr) -> (r: Option<Multiaddr>)
        ensures
            r is None,
    {
        None
    }
}

impl Dialer for Denied {
    type Output = void::Void;

    type Error = void::Void;

    type Outbound = void::Void;

    fn dial(self, addr: Multiaddr) -> (r: Result<Self::Outbound, (Self, Multiaddr)>)
        ensures
            r == Err::<void::Void, (Denied, Multiaddr)>((Denied, addr)),
    {
        Err((Denied, addr))
    }
}

} // verus!
