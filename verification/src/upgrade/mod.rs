//! Upgrades of connections: once a protocol is agreed on, it takes the connection over.

pub mod apply;

use crate::multistream_select::ProtocolChoiceError;
use crate::protocol_name::ProtocolName;
use vstd::prelude::*;

verus! {

/// The protocols that an upgrade stands for.
pub trait UpgradeInfo {
    /// One of the protocols.
    type Info: ProtocolName + Clone;

    /// The protocols, the most wanted one first.
    fn protocol_info(&self) -> Vec<Self::Info>;
}

/// An upgrade of connections that came in.
pub trait InboundUpgrade<C>: UpgradeInfo + Sized {
    /// What the upgrade gives.
    type Output;

    /// Why it fails.
    type Error;

    /// The upgrade while it is under way.
    type Future;

    /// Starts the upgrade, once the protocol has been agreed on.
    fn upgrade_inbound(self, socket: C, info: Self::Info) -> Self::Future;
}

/// An upgrade of connections that went out.
pub trait OutboundUpgrade<C>: UpgradeInfo + Sized {
    /// What the upgrade gives.
    type Output;

    /// Why it fails.
    type Error;

    /// The upgrade while it is under way.
    type Future;

    /// Starts the upgrade, once the protocol has been agreed on.
    fn upgrade_outbound(self, socket: C, info: Self::Info) -> Self::Future;
}

/// Why a connection was not upgraded.
#[derive(Debug)]
pub enum UpgradeError<E> {
    /// No protocol was agreed on.
    Select(ProtocolChoiceError<std::io::Error>),
    /// The upgrade failed.
    Apply(E),
}

impl<E> UpgradeError<E> {
    /// Applies a function to the error of the upgrade.
    pub fn map_err<F, T>(self, f: F) -> (r: UpgradeError<T>) where F: FnOnce(E) -> T
        requires
            self matches UpgradeError::Apply(e) ==> call_requires(f, (e,)),
        ensures
            match self {
                UpgradeError::Select(e) => r == UpgradeError::<T>::Select(e),
                UpgradeError::Apply(e) => r matches UpgradeError::Apply(t) && call_ensures(
                    f,
                    (e,),
                    t,
                ),
            },
    {
        match self {
            UpgradeError::Select(e) => UpgradeError::Select(e),
            UpgradeError::Apply(e) => UpgradeError::Apply(f(e)),
        }
    }
}

impl<E> From<ProtocolChoiceError<std::io::Error>> for UpgradeError<E> {
    fn from(e: ProtocolChoiceError<std::io::Error>) -> (r: Self) {
        UpgradeError::Select(e)
    }
}

impl<E> vstd::std_specs::convert::FromSpecImpl<ProtocolChoiceError<std::io::Error>> for UpgradeError<E> {
    open spec fn obeys_from_spec() -> bool {
        true
    }

    open spec fn from_spec(e: ProtocolChoiceError<std::io::Error>) -> Self {
        UpgradeError::Select(e)
    }
}

} // verus!
