//! Errors of relayed connections.

use crate::address::PeerId;
use crate::transport::error::Error;
use vstd::prelude::*;

verus! {

/// Why a connection could not be relayed.
#[derive(Debug)]
pub enum RelayError<T, E> {
    /// Some I/O related error.
    Io(std::io::Error),
    /// Error of the transport.
    Transport(Error<T, E>),
    /// No relay is known for the peer.
    NoRelayFor(PeerId),
    /// Another error, in words.
    Message(&'static str),
    /// There may be more.
    __Nonexhaustive,
}

/// The error that another one stems from.
pub enum Cause<'a, T, E> {
    /// Some I/O related error.
    Io(&'a std::io::Error),
    /// Error of the transport.
    Transport(&'a Error<T, E>),
}

impl<T, E> RelayError<T, E> {
    /// What is said of the error before what its cause or the peer says.
    pub fn prefix(&self) -> (r: &'static str)
        ensures
            r@ == match self {
                RelayError::Io(_) => "i/o error: "@,
                RelayError::Transport(_) => "transport error: "@,
                RelayError::NoRelayFor(_) => "no relay for peer: "@,
                RelayError::Message(m) => m@,
                RelayError::__Nonexhaustive => "__Nonexhaustive"@,
            },
    {
        match self {
            RelayError::Io(_) => "i/o error: ",
            RelayError::Transport(_) => "transport error: ",
            RelayError::NoRelayFor(_) => "no relay for peer: ",
            RelayError::Message(m) => *m,
            RelayError::__Nonexhaustive => "__Nonexhaustive",
        }
    }

    /// The error that this one stems from.
    pub fn cause(&self) -> (r: Option<Cause<'_, T, E>>)
        ensures
            match self {
                RelayError::Io(e) => r matches Some(Cause::Io(c)) && *c == *e,
                RelayError::Transport(e) => r matches Some(Cause::Transport(c)) && *c == *e,
                _ => r is None,
            },
    {
        match self {
            RelayError::Io(e) => Some(Cause::Io(e)),
            RelayError::Transport(e) => Some(Cause::Transport(e)),
            RelayError::NoRelayFor(_) => None,
            RelayError::Message(_) => None,
            RelayError::__Nonexhaustive => None,
        }
    }
}

impl<T, E> From<std::io::Error> for RelayError<T, E> {
    fn from(e: std::io::Error) -> (r: Self) {
        RelayError::Io(e)
    }
}

impl<T, E> vstd::std_specs::convert::FromSpecImpl<std::io::Error> for RelayError<T, E> {
    open spec fn obeys_from_spec() -> bool {
        true
    }

    open spec fn from_spec(e: std::io::Error) -> Self {
        RelayError::Io(e)
    }
}

impl<T, E> From<Error<T, E>> for RelayError<T, E> {
    fn from(e: Error<T, E>) -> (r: Self) {
        RelayError::Transport(e)
    }
}

impl<T, E> vstd::std_specs::convert::FromSpecImpl<Error<T, E>> for RelayError<T, E> {
    open spec fn obeys_from_spec() -> bool {
        true
    }

    open spec fn from_spec(e: Error<T, E>) -> Self {
        RelayError::Transport(e)
    }
}

} // verus!
