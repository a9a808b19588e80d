//! Values that tell whether an operation has come to an end.

use vstd::prelude::*;

verus! {

/// Outcome of asking for a value that may not be there yet.
#[derive(Debug, PartialEq, Eq)]
pub enum Async<T> {
    /// The value is there.
    Ready(T),
    /// The value is not there yet.
    NotReady,
}

/// Outcome of handing an item to a sink.
#[derive(Debug, PartialEq, Eq)]
pub enum AsyncSink<T> {
    /// The item was taken.
    Ready,
    /// The sink is full; the item is handed back.
    NotReady(T),
}

/// Outcome of a computation that may fail and may not have finished.
pub type Poll<T, E> = Result<Async<T>, E>;

/// One of two values.
#[derive(Debug, PartialEq, Eq)]
pub enum Either<A, B> {
    /// The first kind.
    A(A),
    /// The second kind.
    B(B),
}

impl<T> Async<T> {
    /// Is the value there?
    pub fn is_ready(&self) -> (r: bool)
        ensures
            r == (self is Ready),
    {
        match self {
            Async::Ready(_) => true,
            Async::NotReady => false,
        }
    }
}

} // verus!
