//! What a network behaviour asks of the swarm that drives it.

use vstd::prelude::*;

verus! {

/// Something that a network behaviour wants to be done.
#[derive(Debug, PartialEq, Eq)]
pub enum NetworkBehaviourAction<A, T> {
    /// Hand an event to the user of the swarm.
    GenerateEvent(T),
    /// Anything else.
    Other(A),
}

} // verus!
