//! Nodes of the network.

pub mod listeners;
pub mod reporter;
pub mod task;

use crate::address::Multiaddr;
use vstd::prelude::*;

verus! {

/// How a connection came about.
#[derive(Debug, PartialEq, Eq)]
pub enum ConnectedPoint {
    /// This node dialed.
    Dialer {
        /// The address that was dialed.
        address: Multiaddr,
    },
    /// This node listened.
    Listener {
        /// The address of the listener.
        listen_addr: Multiaddr,
        /// The address to answer to.
        send_back_addr: Multiaddr,
    },
}

impl Clone for ConnectedPoint {
    fn clone(&self) -> (r: Self)
        ensures
            r == *self,
    {
        match self {
            ConnectedPoint::Dialer { address } => ConnectedPoint::Dialer { address: address.clone() },
            ConnectedPoint::Listener { listen_addr, send_back_addr } => ConnectedPoint::Listener {
                listen_addr: listen_addr.clone(),
                send_back_addr: send_back_addr.clone(),
            },
        }
    }
}

impl ConnectedPoint {
    /// Did this node listen?
    pub fn is_listener(&self) -> (r: bool)
        ensures
            r == (self is Listener),
    {
        match self {
            ConnectedPoint::Dialer { .. } => false,
            ConnectedPoint::Listener { .. } => true,
        }
    }
}

} // verus!
