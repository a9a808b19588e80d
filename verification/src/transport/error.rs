//! Errors of transports.

use crate::upgrade::UpgradeError;
use vstd::prelude::*;

verus! {

/// Why a connection could not be made.
#[derive(Debug)]
pub enum Error<T, U> {
    /// Some I/O related error.
    Io(std::io::Error),
    /// Error produced by a transport.
    Transport(T),
    /// Error during protocol upgrade.
    Upgrade(UpgradeError<U>),
    /// There may be more.
    __Nonexhaustive,
}

/// The error that another one stems from.
pub enum Cause<'a, T, U> {
    /// Some I/O related error.
    Io(&'a std::io::Error),
    /// Error produced by a transport.
    Transport(&'a T),
    /// Error during protocol upgrade.
    Upgrade(&'a UpgradeError<U>),
}

impl<T, U> Error<T, U> {
    /// Applies a function to the error of the transport.
    pub fn map_transport_err<F, E>(self, f: F) -> (r: Error<E, U>) where F: FnOnce(T) -> E
        requires
            self matches Error::Transport(e) ==> call_requires(f, (e,)),
        ensures
            match self {
                Error::Io(e) => r == Error::<E, U>::Io(e),
                Error::Transport(e) => r matches Error::Transport(x) && call_ensures(f, (e,), x),
                Error::Upgrade(e) => r == Error::<E, U>::Upgrade(e),
                Error::__Nonexhaustive => r is __Nonexhaustive,
            },
    {
        match self {
            Error::Io(e) => Error::Io(e),
            Error::Transport(e) => Error::Transport(f(e)),
            Error::Upgrade(e) => Error::Upgrade(e),
            Error::__Nonexhaustive => Error::__Nonexhaustive,
        }
    }

    /// Applies a function to the error of the upgrade.
    pub fn map_upgrade_err<F, E>(self, f: F) -> (r: Error<T, E>) where F: FnOnce(U) -> E
        requires
            self matches Error::Upgrade(UpgradeError::Apply(e)) ==> call_requires(f, (e,)),
        ensures
            match self {
                Error::Io(e) => r == Error::<T, E>::Io(e),
                Error::Transport(e) => r == Error::<T, E>::Transport(e),
                Error::Upgrade(UpgradeError::Apply(e)) => r matches Error::Upgrade(
                    UpgradeError::Apply(x),
                ) && call_ensures(f, (e,), x),
                Error::Upgrade(UpgradeError::Select(e)) => r == Error::<T, E>::Upgrade(
                    UpgradeError::Select(e),
                ),
                Error::__Nonexhaustive => r is __Nonexhaustive,
            },
    {
        match self {
            Error::Io(e) => Error::Io(e),
            Error::Transport(e) => Error::Transport(e),
            Error::Upgrade(e) => Error::Upgrade(e.map_err(f)),
            Error::__Nonexhaustive => Error::__Nonexhaustive,
        }
    }

    /// What is said of the error before what its cause says.
    pub fn prefix(&self) -> (r: &'static str)
        ensures
            r@ == match self {
                Error::Io(_) => "i/o error: "@,
                Error::Transport(_) => "transport error: "@,
                Error::Upgrade(_) => "upgrade error: "@,
                Error::__Nonexhaustive => "__Nonexhaustive"@,
            },
    {
        match self {
            Error::Io(_) => "i/o error: ",
            Error::Transport(_) => "transport error: ",
            Error::Upgrade(_) => "upgrade error: ",
            Error::__Nonexhaustive => "__Nonexhaustive",
        }
    }

    /// The error that this one stems from.
    pub fn cause(&self) -> (r: Option<Cause<'_, T, U>>)
        ensures
            match self {
                Error::Io(e) => r matches Some(Cause::Io(c)) && *c == *e,
                Error::Transport(e) => r matches Some(Cause::Transport(c)) && *c == *e,
                Error::Upgrade(e) => r matches Some(Cause::Upgrade(c)) && *c == *e,
                Error::__Nonexhaustive => r is None,
            },
    {
        match self {
            Error::Io(e) => Some(Cause::Io(e)),
            Error::Transport(e) => Some(Cause::Transport(e)),
            Error::Upgrade(e) => Some(Cause::Upgrade(e)),
            Error::__Nonexhaustive => None,
        }
    }
}

impl<T, U> From<UpgradeError<U>> for Error<T, U> {
    fn from(e: UpgradeError<U>) -> (r: Self) {
        Error::Upgrade(e)
    }
}

impl<T, U> vstd::std_specs::convert::FromSpecImpl<UpgradeError<U>> for Error<T, U> {
    open spec fn obeys_from_spec() -> bool {
        true
    }

    open spec fn from_spec(e: UpgradeError<U>) -> Self {
        Error::Upgrade(e)
    }
}

impl<T, U> From<std::io::Error> for Error<T, U> {
    fn from(e: std::io::Error) -> (r: Self) {
        Error::Io(e)
    }
}

impl<T, U> vstd::std_specs::convert::FromSpecImpl<std::io::Error> for Error<T, U> {
    open spec fn obeys_from_spec() -> bool {
        true
    }

    open spec fn from_spec(e: std::io::Error) -> Self {
        Error::Io(e)
    }
}

} // verus!
