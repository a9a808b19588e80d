//! Reports what happens on the network.

use crate::address::{Multiaddr, MultiaddrSeq, PeerId};
use crate::async_value::Async;
use crate::nodes::ConnectedPoint;
use crate::swarm::NetworkBehaviourAction;
use std::marker::PhantomData;
use vstd::prelude::*;

verus! {

/// Keeps the last thing that happened until it is asked for.
pub struct EventReporter<Sub> {
    event: Option<Event<void::Void>>,
    _mark: PhantomData<Sub>,
}

/// Something that happened.
#[allow(inconsistent_fields)]
#[derive(Debug)]
pub enum Event<T> {
    /// A listener has started.
    Listener {
        /// The address that was to be listened on.
        addr: Multiaddr,
        /// The addresses that are listened on.
        listens: MultiaddrSeq,
    },
    /// A peer is connected.
    Connected {
        /// The peer.
        peer: PeerId,
        /// How the connection came about.
        endpoint: ConnectedPoint,
    },
    /// A peer is gone.
    Disconnected {
        /// The peer.
        peer: PeerId,
        /// How the connection came about.
        endpoint: ConnectedPoint,
    },
    /// A node tells something.
    NodeEvent {
        /// The peer.
        peer: PeerId,
        /// What it tells.
        event: T,
    },
}

impl<T: Clone> Clone for Event<T> {
    fn clone(&self) -> (r: Self)
        ensures
            match *self {
                Event::NodeEvent { peer, event } => r matches Event::NodeEvent { peer: p, event: e }
                    && p == peer && cloned(event, e),
                _ => r == *self,
            },
    {
        match self {
            Event::Listener { addr, listens } => Event::Listener {
                addr: addr.clone(),
                listens: listens.clone(),
            },
            Event::Connected { peer, endpoint } => Event::Connected {
                peer: peer.clone(),
                endpoint: endpoint.clone(),
            },
            Event::Disconnected { peer, endpoint } => Event::Disconnected {
                peer: peer.clone(),
                endpoint: endpoint.clone(),
            },
            Event::NodeEvent { peer, event } => Event::NodeEvent {
                peer: peer.clone(),
                event: event.clone(),
            },
        }
    }
}

impl<Sub> View for EventReporter<Sub> {
    type V = Option<Event<void::Void>>;

    closed spec fn view(&self) -> Option<Event<void::Void>> {
        self.event
    }
}

impl<Sub> EventReporter<Sub> {
    /// Nothing has happened yet.
    pub fn new() -> (r: Self)
        ensures
            r@ is None,
    {
        EventReporter { event: None, _mark: PhantomData }
    }

    /// A listener has started.
    pub fn inject_listener(&mut self, a: Multiaddr, b: MultiaddrSeq)
        ensures
            final(self)@ == Some(Event::<void::Void>::Listener { addr: a, listens: b }),
    {
        self.event = Some(Event::Listener { addr: a, listens: b });
    }

    /// A peer is connected.
    pub fn inject_connected(&mut self, p: PeerId, c: ConnectedPoint)
        ensures
            final(self)@ == Some(Event::<void::Void>::Connected { peer: p, endpoint: c }),
    {
        self.event = Some(Event::Connected { peer: p, endpoint: c });
    }

    /// A peer is gone.
    pub fn inject_disconnected(&mut self, p: &PeerId, c: ConnectedPoint)
        ensures
            final(self)@ == Some(Event::<void::Void>::Disconnected { peer: *p, endpoint: c }),
    {
        self.event = Some(Event::Disconnected { peer: p.clone(), endpoint: c });
    }

    /// A node tells something.
    pub fn inject_node_event(&mut self, p: PeerId, e: void::Void)
        ensures
            final(self)@ == Some(Event::NodeEvent { peer: p, event: e }),
    {
        self.event = Some(Event::NodeEvent { peer: p, event: e });
    }

    /// The last thing that happened, if nobody has asked for it yet.
    pub fn poll<A>(&mut self) -> (r: Async<NetworkBehaviourAction<A, Event<void::Void>>>)
        ensures
            final(self)@ is None,
            r == match old(self)@ {
                Some(e) => Async::Ready(
                    NetworkBehaviourAction::<A, Event<void::Void>>::GenerateEvent(e),
                ),
                None => Async::NotReady,
            },
    {
        if let Some(e) = self.event.take() {
            Async::Ready(NetworkBehaviourAction::GenerateEvent(e))
        } else {
            Async::NotReady
        }
    }
}

} // verus!
