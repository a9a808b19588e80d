//! Two sides agree on a protocol.

pub mod choice;
pub mod laws;
pub mod listener_select;
pub mod progress;
pub mod protocol;

use crate::multistream_select::protocol::MultistreamSelectError;
use vstd::prelude::*;

verus! {

/// Why no protocol was chosen.
#[derive(Debug, PartialEq, Eq)]
pub enum ProtocolChoiceError<E> {
    /// Something went wrong with the messages.
    MultistreamSelectError(MultistreamSelectError<E>),
    /// There is no protocol that both sides know.
    NoProtocolFound,
}

impl<E> From<MultistreamSelectError<E>> for ProtocolChoiceError<E> {
    fn from(err: MultistreamSelectError<E>) -> (r: Self) {
        ProtocolChoiceError::MultistreamSelectError(err)
    }
}

impl<E> vstd::std_specs::convert::FromSpecImpl<MultistreamSelectError<E>> for ProtocolChoiceError<E> {
    open spec fn obeys_from_spec() -> bool {
        true
    }

    open spec fn from_spec(err: MultistreamSelectError<E>) -> Self {
        ProtocolChoiceError::MultistreamSelectError(err)
    }
}

} // verus!
