//! Agrees on a protocol and applies its upgrade.

use crate::async_value::{Async, Either, Poll};
use crate::multistream_select::listener_select::{
    listener_select_proto, ListenerSelectFuture, SelectAction, SelectInput, SelectState, SelectStep,
};
use crate::multistream_select::protocol::listener::ListenerFutureState;
use crate::multistream_select::ProtocolChoiceError;
use crate::nodes::ConnectedPoint;
use crate::protocol_name::ProtocolName;
use crate::upgrade::{InboundUpgrade, OutboundUpgrade, UpgradeError, UpgradeInfo};
use vstd::prelude::*;

verus! {

/// Something with a protocol name.
#[derive(Debug)]
pub struct NameWrap<N>(pub N);

impl<N: Clone> Clone for NameWrap<N> {
    fn clone(&self) -> (r: Self)
        ensures
            cloned(self.0, r.0),
    {
        NameWrap(self.0.clone())
    }
}

impl<N: ProtocolName> ProtocolName for NameWrap<N> {
    open spec fn name(&self) -> Seq<u8> {
        self.0.name()
    }

    fn protocol_name(&self) -> (r: &[u8]) {
        self.0.protocol_name()
    }
}

/// The wrapped items.
pub open spec fn wrapped<N>(items: Seq<N>) -> Seq<NameWrap<N>> {
    Seq::new(items.len(), |i: int| NameWrap(items[i]))
}

fn wrap_all<N>(items: Vec<N>) -> (r: Vec<NameWrap<N>>)
    ensures
        r@ == wrapped(items@),
{
    let ghost all = items@;
    let n: usize = items.len();
    let mut rest = crate::datastore::order::to_queue(items);
    let mut r: Vec<NameWrap<N>> = Vec::new();
    let mut i: usize = 0;
    assert(all.skip(0) =~= all);
    while i < n
        invariant
            n == all.len(),
            i <= n,
            rest@ == all.skip(i as int),
            r@.len() == i,
            forall|j: int| 0 <= j < i ==> (#[trigger] r@[j]).0 == all[j],
        decreases n - i,
    {
        let next = rest.pop_front();
        assert(next == Some(all[i as int]));
        r.push(NameWrap(next.unwrap()));
        i += 1;
        assert(rest@ =~= all.skip(i as int));
    }
    assert(r@ =~= wrapped(all));
    r
}

/// The names of the protocols are short enough for their lengths to be counted.
pub open spec fn names_countable<U: UpgradeInfo>(up: U) -> bool {
    forall|infos: Vec<U::Info>| #[trigger]
        call_ensures(U::protocol_info, (&up,), infos)
            ==> crate::multistream_select::protocol::listener::countable_names(
            crate::protocol_name::names(infos@),
        )
}

/// Applies an upgrade to a connection in the direction in which it was made.
///
/// `select` starts the agreement on a protocol on a connection that went out.
pub fn apply<C, U, F, S>(conn: C, up: U, cp: ConnectedPoint, select: F) -> (r: Either<
    InboundUpgradeApply<C, U>,
    OutboundUpgradeApply<C, U, S>,
>) where
    U: InboundUpgrade<C> + OutboundUpgrade<C>,
    F: FnOnce(C, Vec<NameWrap<U::Info>>) -> S,

    requires
        cp is Listener ==> names_countable(up),
        cp is Dialer ==> forall|names: Vec<NameWrap<U::Info>>| #[trigger]
            call_requires(select, (conn, names)),
    ensures
        if cp is Listener {
            r matches Either::A(a) && a.wf() && starts_inbound(a@, conn, up)
        } else {
            r matches Either::B(b) && starts_outbound(b@, conn, up, select)
        },
{
    if cp.is_listener() {
        Either::A(apply_inbound(conn, up))
    } else {
        Either::B(apply_outbound(conn, up, select))
    }
}

/// The agreement on one of the upgrade's protocols is at its start.
pub open spec fn starts_inbound<C, U: InboundUpgrade<C>>(
    s: InboundState<C, U>,
    conn: C,
    up: U,
) -> bool {
    s matches InboundState::Init { select, upgrade } && upgrade == up && (
    select matches SelectState::AwaitListener { handshake, protocols } && (
    handshake matches ListenerFutureState::Await { listener } && listener.inner == conn) && exists|
        infos: Vec<U::Info>,
    | #[trigger]
        call_ensures(U::protocol_info, (&up,), infos) && protocols == wrapped(infos@))
}

/// The agreement on one of the upgrade's protocols was started.
pub open spec fn starts_outbound<C, U: OutboundUpgrade<C>, F, S>(
    s: OutboundState<C, U, S>,
    conn: C,
    up: U,
    select: F,
) -> bool where F: FnOnce(C, Vec<NameWrap<U::Info>>) -> S {
    s matches OutboundState::Init { future, upgrade } && upgrade == up && selects(
        conn,
        up,
        select,
        future,
    )
}

/// The agreement was started on the protocols of the upgrade.
pub open spec fn selects<C, U: OutboundUpgrade<C>, F, S>(
    conn: C,
    up: U,
    select: F,
    future: S,
) -> bool where F: FnOnce(C, Vec<NameWrap<U::Info>>) -> S {
    exists|infos: Vec<U::Info>, names: Vec<NameWrap<U::Info>>|
        #![trigger call_ensures(U::protocol_info, (&up,), infos), call_ensures(select, (conn, names), future)]
        call_ensures(U::protocol_info, (&up,), infos) && names@ == wrapped(infos@) && call_ensures(
            select,
            (conn, names),
            future,
        )
}

/// The upgrade was started with a clone of the protocol.
pub open spec fn begins_inbound<C, U: InboundUpgrade<C>>(
    upgrade: U,
    conn: C,
    protocol: NameWrap<U::Info>,
    future: U::Future,
) -> bool {
    exists|info: U::Info| #[trigger]
        call_ensures(U::upgrade_inbound, (upgrade, conn, info), future) && cloned(
            protocol,
            NameWrap(info),
        )
}

/// Tries to perform an upgrade on a connection that came in.
pub fn apply_inbound<C, U: InboundUpgrade<C>>(conn: C, up: U) -> (r: InboundUpgradeApply<C, U>)
    requires
        names_countable(up),
    ensures
        r.wf(),
        starts_inbound(r@, conn, up),
{
    let infos = up.protocol_info();
    assert(call_ensures(U::protocol_info, (&up,), infos));
    let ghost all = infos@;
    let names = wrap_all(infos);
    assert(crate::protocol_name::names(names@) =~= crate::protocol_name::names(all));
    let future = listener_select_proto(conn, names);
    InboundUpgradeApply { inner: InboundUpgradeApplyState::Init { future, upgrade: up } }
}

/// Tries to perform an upgrade on a connection that went out.
///
/// `select` starts the agreement on a protocol.
pub fn apply_outbound<C, U: OutboundUpgrade<C>, F, S>(conn: C, up: U, select: F) -> (r:
    OutboundUpgradeApply<C, U, S>) where F: FnOnce(C, Vec<NameWrap<U::Info>>) -> S
    requires
        forall|names: Vec<NameWrap<U::Info>>| #[trigger] call_requires(select, (conn, names)),
    ensures
        starts_outbound(r@, conn, up, select),
{
    let infos = up.protocol_info();
    assert(call_ensures(U::protocol_info, (&up,), infos));
    let names = wrap_all(infos);
    let ghost given = names;
    let future = select(conn, names);
    assert(call_ensures(select, (conn, given), future));
    assert(selects(conn, up, select, future));
    OutboundUpgradeApply { inner: OutboundState::Init { future, upgrade: up } }
}

/// Drives the upgrade of a connection that came in.
pub struct InboundUpgradeApply<C, U: InboundUpgrade<C>> {
    inner: InboundUpgradeApplyState<C, U>,
}

#[allow(inconsistent_fields)]
enum InboundUpgradeApplyState<C, U: InboundUpgrade<C>> {
    Init { future: ListenerSelectFuture<C, NameWrap<U::Info>>, upgrade: U },
    Upgrade { future: U::Future },
    Undefined,
}

/// How far the upgrade of a connection that came in has come.
#[allow(inconsistent_fields)]
pub enum InboundState<C, U: InboundUpgrade<C>> {
    /// A protocol is being agreed on.
    Init {
        /// How far that has come.
        select: SelectState<C, NameWrap<U::Info>>,
        /// The upgrade.
        upgrade: U,
    },
    /// The upgrade is under way.
    Upgrade {
        /// The upgrade.
        future: U::Future,
    },
    /// The upgrade is over.
    Undefined,
}

/// What an upgrade of a connection that came in is told.
pub enum InboundInput<O, E> {
    /// Start, or go on.
    Start,
    /// What the agreement on a protocol is told.
    Select(SelectInput<std::io::Error>),
    /// Outcome of polling the upgrade.
    Upgraded(Poll<O, E>),
}

/// What an upgrade of a connection that came in wants to be done.
pub enum InboundAction<O, E> {
    /// Read a frame.
    Receive,
    /// Begin to send the message that ends the handshake.
    Send(Vec<u8>),
    /// Go on with sending that message.
    PollSend,
    /// Write the bytes.
    Write(Vec<u8>),
    /// Flush what was written.
    Flush,
    /// Poll the upgrade.
    PollUpgrade,
    /// The connection is upgraded, or is not yet.
    Return(Poll<O, UpgradeError<E>>),
}

impl<C, U: InboundUpgrade<C>> View for InboundUpgradeApply<C, U> {
    type V = InboundState<C, U>;

    closed spec fn view(&self) -> InboundState<C, U> {
        match self.inner {
            InboundUpgradeApplyState::Init { future, upgrade } => InboundState::Init {
                select: future@,
                upgrade,
            },
            InboundUpgradeApplyState::Upgrade { future } => InboundState::Upgrade { future },
            InboundUpgradeApplyState::Undefined => InboundState::Undefined,
        }
    }
}

/// The action is the one of the step of the agreement, which is not over.
pub open spec fn asks<C, X, O, E>(
    action: InboundAction<O, E>,
    step: SelectStep<C, X, std::io::Error>,
) -> bool {
    match step {
        SelectStep::Receive => action is Receive,
        SelectStep::Send(m) => action matches InboundAction::Send(v) && v@ == m,
        SelectStep::PollSend => action is PollSend,
        SelectStep::Write(b) => action matches InboundAction::Write(v) && v@ == b,
        SelectStep::Flush => action is Flush,
        SelectStep::Return(_) => false,
    }
}

/// What an upgrade tells the agreement on a protocol.
pub open spec fn select_input<O, E>(input: InboundInput<O, E>) -> SelectInput<std::io::Error> {
    match input {
        InboundInput::Select(i) => i,
        _ => SelectInput::Start,
    }
}

/// What becomes of the outcome of polling the upgrade.
pub open spec fn upgraded<O, E>(polled: Poll<O, E>) -> Poll<O, UpgradeError<E>> {
    match polled {
        Ok(a) => Ok(a),
        Err(e) => Err(UpgradeError::Apply(e)),
    }
}

impl<C, U: InboundUpgrade<C>> InboundState<C, U> {
    /// The input can follow in this state.
    pub open spec fn accepts(self, input: InboundInput<U::Output, U::Error>) -> bool {
        match self {
            InboundState::Init { select, .. } => !(input is Upgraded) && select.accepts(
                select_input(input),
            ),
            InboundState::Upgrade { .. } => !(input is Select),
            InboundState::Undefined => false,
        }
    }

    /// One step of the upgrade.
    pub open spec fn steps(
        self,
        input: InboundInput<U::Output, U::Error>,
        next: Self,
        action: InboundAction<U::Output, U::Error>,
    ) -> bool {
        match self {
            InboundState::Init { select, upgrade } => {
                let (s, step) = select.step(select_input(input));
                match step {
                    SelectStep::Return(Ok(Async::Ready((i, conn, protocols)))) => {
                        &&& action is PollUpgrade
                        &&& next matches InboundState::Upgrade { future } && begins_inbound(
                            upgrade,
                            conn,
                            protocols[i as int],
                            future,
                        )
                    },
                    SelectStep::Return(Ok(Async::NotReady)) => next == (InboundState::Init {
                        select: s,
                        upgrade,
                    }) && (action matches InboundAction::Return(Ok(Async::NotReady))),
                    SelectStep::Return(Err(e)) => next is Undefined && action
                        == InboundAction::<U::Output, U::Error>::Return(
                        Err(UpgradeError::Select(e)),
                    ),
                    _ => next == (InboundState::Init { select: s, upgrade }) && asks(action, step),
                }
            },
            InboundState::Upgrade { future } => match input {
                InboundInput::Upgraded(p) => action == InboundAction::Return(upgraded(p)) && if p
                    matches Ok(Async::NotReady) {
                    next == self
                } else {
                    next is Undefined
                },
                _ => next == self && action is PollUpgrade,
            },
            InboundState::Undefined => true,
        }
    }
}

/// The protocols that are being chosen from.
pub open spec fn candidates<C, X>(select: SelectState<C, X>) -> Seq<X> {
    match select {
        SelectState::AwaitListener { protocols, .. } => protocols,
        SelectState::Incoming { protocols, .. } => protocols,
        SelectState::Responding { protocols, .. } => protocols,
        SelectState::Outgoing { protocols, .. } => protocols,
        SelectState::Undefined => Seq::empty(),
    }
}

/// A connection that came in is only ever upgraded with one of the protocols of the upgrade, and
/// the upgrade is given the connection itself. Until then the connection, the upgrade and the
/// protocols stay as they are.
pub proof fn law_upgrade_uses_a_protocol_of_its_own<C, U: InboundUpgrade<C>>(
    s: InboundState<C, U>,
    input: InboundInput<U::Output, U::Error>,
    next: InboundState<C, U>,
    action: InboundAction<U::Output, U::Error>,
)
    requires
        s matches InboundState::Init { select, .. } && select.wf(),
        s.accepts(input),
        s.steps(input, next, action),
    ensures
        match (s, next) {
            (
                InboundState::Init { select, upgrade },
                InboundState::Upgrade { future },
            ) => exists|i: int|
                0 <= i < candidates(select).len() && begins_inbound(
                    upgrade,
                    select.connection()->Some_0,
                    #[trigger] candidates(select)[i],
                    future,
                ),
            (
                InboundState::Init { select, upgrade },
                InboundState::Init { select: t, upgrade: u },
            ) => u == upgrade && candidates(t) == candidates(select) && t.connection()
                == select.connection(),
            _ => true,
        },
{
    if let InboundState::Init { select, upgrade } = s {
        let (t, step) = select.step(select_input(input));
        if let SelectStep::Return(Ok(Async::Ready((i, conn, protocols)))) = step {
            assert(protocols == candidates(select));
            assert(candidates(select)[i as int] == protocols[i as int]);
        }
    }
}

fn upgrade_result<O, E>(polled: Poll<O, E>) -> (r: Poll<O, UpgradeError<E>>)
    ensures
        r == upgraded(polled),
{
    match polled {
        Ok(a) => Ok(a),
        Err(e) => Err(UpgradeError::Apply(e)),
    }
}

impl<C, U: InboundUpgrade<C>> InboundUpgradeApply<C, U> {
    /// The agreement is sound.
    pub closed spec fn wf(&self) -> bool {
        match self.inner {
            InboundUpgradeApplyState::Init { future, .. } => future.wf(),
            _ => true,
        }
    }

    /// The connection, to read from or write to, while a protocol is being agreed on.
    pub fn connection(&mut self) -> (r: Option<&mut C>)
        requires
            old(self).wf(),
        ensures
            final(self).wf(),
            match r {
                Some(c) => old(self)@ matches InboundState::Init { select, upgrade }
                    && select.connection() == Some(*c) && final(self)@ == (InboundState::<
                    C,
                    U,
                >::Init { select: select.with_connection(*final(c)), upgrade }),
                None => final(self)@ == old(self)@ && (old(self)@ matches InboundState::Init {
                    select,
                    ..
                } ==> select is Undefined),
            },
    {
        match &mut self.inner {
            InboundUpgradeApplyState::Init { future, .. } => future.connection(),
            _ => None,
        }
    }

    /// The upgrade, to be polled, while it is under way.
    pub fn upgrade(&mut self) -> (r: Option<&mut U::Future>)
        requires
            old(self).wf(),
        ensures
            final(self).wf(),
            match r {
                Some(f) => old(self)@ == (InboundState::<C, U>::Upgrade { future: *f }) && final(
                    self
                )@ == (InboundState::<C, U>::Upgrade { future: *final(f) }),
                None => !(old(self)@ is Upgrade) && final(self)@ == old(self)@,
            },
    {
        match &mut self.inner {
            InboundUpgradeApplyState::Upgrade { future } => Some(future),
            _ => None,
        }
    }

    /// One step of the upgrade.
    pub fn poll(&mut self, input: InboundInput<U::Output, U::Error>) -> (r: InboundAction<
        U::Output,
        U::Error,
    >)
        requires
            old(self).wf(),
            old(self)@.accepts(input),
        ensures
            final(self).wf(),
            old(self)@.steps(input, final(self)@, r),
    {
        let mut state: InboundUpgradeApplyState<C, U> = InboundUpgradeApplyState::Undefined;
        std::mem::swap(&mut self.inner, &mut state);
        match state {
            InboundUpgradeApplyState::Init { future, upgrade } => {
                let mut future = future;
                let select: SelectInput<std::io::Error> = match input {
                    InboundInput::Select(i) => i,
                    _ => SelectInput::Start,
                };
                match future.poll(select) {
                    SelectAction::Return(Ok(Async::Ready((info, connection, _)))) => {
                        let ghost up = upgrade;
                        let ghost conn = connection;
                        let ghost name = info.0;
                        let future = upgrade.upgrade_inbound(connection, info.0);
                        assert(call_ensures(U::upgrade_inbound, (up, conn, name), future));
                        assert(NameWrap(name) == info);
                        self.inner = InboundUpgradeApplyState::Upgrade { future };
                        InboundAction::PollUpgrade
                    },
                    SelectAction::Return(Ok(Async::NotReady)) => {
                        self.inner = InboundUpgradeApplyState::Init { future, upgrade };
                        InboundAction::Return(Ok(Async::NotReady))
                    },
                    SelectAction::Return(Err(e)) => InboundAction::Return(
                        Err(UpgradeError::from(e)),
                    ),
                    SelectAction::Receive => {
                        self.inner = InboundUpgradeApplyState::Init { future, upgrade };
                        InboundAction::Receive
                    },
                    SelectAction::Send(m) => {
                        self.inner = InboundUpgradeApplyState::Init { future, upgrade };
                        InboundAction::Send(m)
                    },
                    SelectAction::PollSend => {
                        self.inner = InboundUpgradeApplyState::Init { future, upgrade };
                        InboundAction::PollSend
                    },
                    SelectAction::Write(b) => {
                        self.inner = InboundUpgradeApplyState::Init { future, upgrade };
                        InboundAction::Write(b)
                    },
                    SelectAction::Flush => {
                        self.inner = InboundUpgradeApplyState::Init { future, upgrade };
                        InboundAction::Flush
                    },
                }
            },
            InboundUpgradeApplyState::Upgrade { future } => match input {
                InboundInput::Upgraded(p) => {
                    if let Ok(Async::NotReady) = &p {
                        self.inner = InboundUpgradeApplyState::Upgrade { future };
                    }
                    InboundAction::Return(upgrade_result(p))
                },
                _ => {
                    self.inner = InboundUpgradeApplyState::Upgrade { future };
                    InboundAction::PollUpgrade
                },
            },
            InboundUpgradeApplyState::Undefined => InboundAction::Return(Ok(Async::NotReady)),
        }
    }
}

/// Drives the upgrade of a connection that went out.
pub struct OutboundUpgradeApply<C, U: OutboundUpgrade<C>, S> {
    inner: OutboundState<C, U, S>,
}

/// How far the upgrade of a connection that went out has come.
#[allow(inconsistent_fields)]
pub enum OutboundState<C, U: OutboundUpgrade<C>, S> {
    /// A protocol is being agreed on.
    Init {
        /// The agreement.
        future: S,
        /// The upgrade.
        upgrade: U,
    },
    /// The upgrade is under way.
    Upgrade {
        /// The upgrade.
        future: U::Future,
    },
    /// The upgrade is over.
    Undefined,
}

/// What an upgrade of a connection that went out is told.
pub enum OutboundInput<C, N, O, E> {
    /// Start, or go on.
    Start,
    /// Outcome of the agreement on a protocol.
    Selected(Poll<(NameWrap<N>, C), ProtocolChoiceError<std::io::Error>>),
    /// Outcome of polling the upgrade.
    Upgraded(Poll<O, E>),
}

/// What an upgrade of a connection that went out wants to be done.
pub enum OutboundAction<O, E> {
    /// Go on with the agreement on a protocol.
    PollSelect,
    /// Poll the upgrade.
    PollUpgrade,
    /// The connection is upgraded, or is not yet.
    Return(Poll<O, UpgradeError<E>>),
}

impl<C, U: OutboundUpgrade<C>, S> View for OutboundUpgradeApply<C, U, S> {
    type V = OutboundState<C, U, S>;

    closed spec fn view(&self) -> OutboundState<C, U, S> {
        self.inner
    }
}

impl<C, U: OutboundUpgrade<C>, S> OutboundState<C, U, S> {
    /// The input can follow in this state.
    pub open spec fn accepts(self, input: OutboundInput<C, U::Info, U::Output, U::Error>) -> bool {
        match self {
            OutboundState::Init { .. } => !(input is Upgraded),
            OutboundState::Upgrade { .. } => !(input is Selected),
            OutboundState::Undefined => false,
        }
    }

    /// One step of the upgrade.
    pub open spec fn steps(
        self,
        input: OutboundInput<C, U::Info, U::Output, U::Error>,
        next: Self,
        action: OutboundAction<U::Output, U::Error>,
    ) -> bool {
        match self {
            OutboundState::Init { future, upgrade } => match input {
                OutboundInput::Selected(Ok(Async::Ready((info, conn)))) => {
                    &&& action is PollUpgrade
                    &&& next matches OutboundState::Upgrade { future: f } && call_ensures(
                        U::upgrade_outbound,
                        (upgrade, conn, info.0),
                        f,
                    )
                },
                OutboundInput::Selected(Ok(Async::NotReady)) => next == self && (
                action matches OutboundAction::Return(Ok(Async::NotReady))),
                OutboundInput::Selected(Err(e)) => next is Undefined && action == OutboundAction::<
                    U::Output,
                    U::Error,
                >::Return(Err(UpgradeError::Select(e))),
                _ => next == self && action is PollSelect,
            },
            OutboundState::Upgrade { future } => match input {
                OutboundInput::Upgraded(p) => action == OutboundAction::Return(upgraded(p)) && if p
                    matches Ok(Async::NotReady) {
                    next == self
                } else {
                    next is Undefined
                },
                _ => next == self && action is PollUpgrade,
            },
            OutboundState::Undefined => true,
        }
    }
}

impl<C, U: OutboundUpgrade<C>, S> OutboundUpgradeApply<C, U, S> {
    /// The agreement, to be polled, while it is under way.
    pub fn select(&mut self) -> (r: Option<&mut S>)
        ensures
            match r {
                Some(f) => old(self)@ matches OutboundState::Init { future, upgrade } && *f
                    == future && final(self)@ == (OutboundState::<C, U, S>::Init {
                    future: *final(f),
                    upgrade,
                }),
                None => !(old(self)@ is Init) && final(self)@ == old(self)@,
            },
    {
        match &mut self.inner {
            OutboundState::Init { future, .. } => Some(future),
            _ => None,
        }
    }

    /// The upgrade, to be polled, while it is under way.
    pub fn upgrade(&mut self) -> (r: Option<&mut U::Future>)
        ensures
            match r {
                Some(f) => old(self)@ == (OutboundState::<C, U, S>::Upgrade { future: *f })
                    && final(self)@ == (OutboundState::<C, U, S>::Upgrade { future: *final(f) }),
                None => !(old(self)@ is Upgrade) && final(self)@ == old(self)@,
            },
    {
        match &mut self.inner {
            OutboundState::Upgrade { future } => Some(future),
            _ => None,
        }
    }

    /// One step of the upgrade.
    pub fn poll(&mut self, input: OutboundInput<C, U::Info, U::Output, U::Error>) -> (r:
        OutboundAction<U::Output, U::Error>)
        requires
            old(self)@.accepts(input),
        ensures
            old(self)@.steps(input, final(self)@, r),
    {
        let mut state: OutboundState<C, U, S> = OutboundState::Undefined;
        std::mem::swap(&mut self.inner, &mut state);
        match state {
            OutboundState::Init { future, upgrade } => match input {
                OutboundInput::Selected(Ok(Async::Ready((info, connection)))) => {
                    let future = upgrade.upgrade_outbound(connection, info.0);
                    self.inner = OutboundState::Upgrade { future };
                    OutboundAction::PollUpgrade
                },
                OutboundInput::Selected(Ok(Async::NotReady)) => {
                    self.inner = OutboundState::Init { future, upgrade };
                    OutboundAction::Return(Ok(Async::NotReady))
                },
                OutboundInput::Selected(Err(e)) => OutboundAction::Return(
                    Err(UpgradeError::from(e)),
                ),
                _ => {
                    self.inner = OutboundState::Init { future, upgrade };
                    OutboundAction::PollSelect
                },
            },
            OutboundState::Upgrade { future } => match input {
                OutboundInput::Upgraded(p) => {
                    if let Ok(Async::NotReady) = &p {
                        self.inner = OutboundState::Upgrade { future };
                    }
                    OutboundAction::Return(upgrade_result(p))
                },
                _ => {
                    self.inner = OutboundState::Upgrade { future };
                    OutboundAction::PollUpgrade
                },
            },
            OutboundState::Undefined => OutboundAction::Return(Ok(Async::NotReady)),
        }
    }
}

/// While the connection or the upgrade is not ready, the upgrade waits and nothing changes but how
/// far the agreement has come; what comes of the upgrade is told as it is, and ends it.
pub proof fn law_inbound_upgrade_goes_on<C, U: InboundUpgrade<C>>(
    s: InboundState<C, U>,
    input: InboundInput<U::Output, U::Error>,
    next: InboundState<C, U>,
    action: InboundAction<U::Output, U::Error>,
)
    requires
        s.accepts(input),
        s.steps(input, next, action),
    ensures
        s is Upgrade ==> match input {
            InboundInput::Upgraded(Ok(Async::Ready(o))) => action == InboundAction::<
                U::Output,
                U::Error,
            >::Return(Ok(Async::Ready(o))) && next is Undefined,
            InboundInput::Upgraded(Ok(Async::NotReady)) => action == InboundAction::<
                U::Output,
                U::Error,
            >::Return(Ok(Async::NotReady)) && next == s,
            InboundInput::Upgraded(Err(e)) => action == InboundAction::<U::Output, U::Error>::Return(
                Err(UpgradeError::Apply(e)),
            ) && next is Undefined,
            _ => action is PollUpgrade && next == s,
        },
        s matches InboundState::Init { select, upgrade } ==> (
        input matches InboundInput::Select(i) ==> {
            &&& crate::multistream_select::progress::is_not_ready(i) && select.wf() ==> next == s
            &&& crate::multistream_select::progress::is_not_ready(i) && !(select is Responding)
                && select.wf() ==> (action matches InboundAction::Return(Ok(Async::NotReady)))
            &&& select.wf() ==> (crate::multistream_select::progress::failure(i) matches Some(e)
                ==> action == InboundAction::<U::Output, U::Error>::Return(
                Err(
                    UpgradeError::Select(
                        ProtocolChoiceError::MultistreamSelectError(
                            crate::multistream_select::protocol::MultistreamSelectError::IoError(e),
                        ),
                    ),
                ),
            ))
        }),
        s matches InboundState::Init { select, .. } ==> match action {
            InboundAction::Receive => select.step(select_input(input)).1 is Receive,
            InboundAction::Send(v) => select.step(select_input(input)).1 matches SelectStep::Send(m)
                && m == v@,
            InboundAction::PollSend => select.step(select_input(input)).1 is PollSend,
            InboundAction::Write(v) => select.step(select_input(input)).1 matches SelectStep::Write(
                b,
            ) && b == v@,
            InboundAction::Flush => select.step(select_input(input)).1 is Flush,
            InboundAction::PollUpgrade => select.step(select_input(input)).1 matches SelectStep::Return(
                Ok(Async::Ready(_)),
            ),
            InboundAction::Return(Ok(Async::NotReady)) => select.step(
                select_input(input),
            ).1 matches SelectStep::Return(Ok(Async::NotReady)),
            InboundAction::Return(Err(UpgradeError::Select(e))) => select.step(
                select_input(input),
            ).1 matches SelectStep::Return(Err(f)) && f == e,
            InboundAction::Return(_) => false,
        },
        input matches InboundInput::Select(i) ==> select_input(input) == i,
        action matches InboundAction::Return(Ok(Async::Ready(o))) ==> input
            == InboundInput::<U::Output, U::Error>::Upgraded(Ok(Async::Ready(o))),
        action matches InboundAction::Return(Err(UpgradeError::Apply(e))) ==> input
            == InboundInput::<U::Output, U::Error>::Upgraded(Err(e)),
        action is PollUpgrade ==> next is Upgrade,
{
    if let (InboundState::Init { select, .. }, InboundInput::Select(i)) = (s, input) {
        if select.wf() {
            if crate::multistream_select::progress::is_not_ready(i) {
                crate::multistream_select::progress::law_choice_waits(select, i);
            }
            crate::multistream_select::progress::law_failures_of_a_choice(select, i);
        }
    }
}

/// A connection that went out is upgraded with the protocol that was agreed on; while that or the
/// upgrade is not ready, nothing changes; what comes of either is told as it is.
pub proof fn law_outbound_upgrade_goes_on<C, U: OutboundUpgrade<C>, S>(
    s: OutboundState<C, U, S>,
    input: OutboundInput<C, U::Info, U::Output, U::Error>,
    next: OutboundState<C, U, S>,
    action: OutboundAction<U::Output, U::Error>,
)
    requires
        s.accepts(input),
        s.steps(input, next, action),
    ensures
        match input {
            OutboundInput::Start => next == s && (if s is Init {
                action is PollSelect
            } else {
                action is PollUpgrade
            }),
            OutboundInput::Selected(Ok(Async::Ready((info, conn)))) => action is PollUpgrade && (
            next matches OutboundState::Upgrade { future } && (s matches OutboundState::Init {
                upgrade,
                ..
            } && call_ensures(U::upgrade_outbound, (upgrade, conn, info.0), future))),
            OutboundInput::Selected(Ok(Async::NotReady)) => next == s && action == OutboundAction::<
                U::Output,
                U::Error,
            >::Return(Ok(Async::NotReady)),
            OutboundInput::Selected(Err(e)) => next is Undefined && action == OutboundAction::<
                U::Output,
                U::Error,
            >::Return(Err(UpgradeError::Select(e))),
            OutboundInput::Upgraded(Ok(Async::Ready(o))) => next is Undefined && action
                == OutboundAction::<U::Output, U::Error>::Return(Ok(Async::Ready(o))),
            OutboundInput::Upgraded(Ok(Async::NotReady)) => next == s && action == OutboundAction::<
                U::Output,
                U::Error,
            >::Return(Ok(Async::NotReady)),
            OutboundInput::Upgraded(Err(e)) => next is Undefined && action == OutboundAction::<
                U::Output,
                U::Error,
            >::Return(Err(UpgradeError::Apply(e))),
        },
{
}

/// Once a protocol is agreed on, the upgrade is begun with a clone of that very protocol, on the
/// connection that comes out of the agreement.
pub proof fn law_upgrade_begins_with_the_agreed_protocol<C, U: InboundUpgrade<C>>(
    s: InboundState<C, U>,
    input: InboundInput<U::Output, U::Error>,
    next: InboundState<C, U>,
    action: InboundAction<U::Output, U::Error>,
    i: nat,
    conn: C,
    protocols: Seq<NameWrap<U::Info>>,
)
    requires
        s.accepts(input),
        s.steps(input, next, action),
        s matches InboundState::Init { select, .. } && select.step(select_input(input)).1
            == SelectStep::<C, NameWrap<U::Info>, std::io::Error>::Return(
            Ok(Async::Ready((i, conn, protocols))),
        ),
    ensures
        next matches InboundState::Upgrade { future } && (s matches InboundState::Init {
            upgrade,
            ..
        } && exists|info: U::Info| #[trigger]
            call_ensures(U::upgrade_inbound, (upgrade, conn, info), future) && cloned(
                protocols[i as int],
                NameWrap(info),
            )),
{
}

/// An upgrade starts on its own connection, with the protocols that it stands for, each under its
/// own name and in their order.
pub proof fn law_upgrade_starts_with_its_protocols<C, U: InboundUpgrade<C>>(
    s: InboundState<C, U>,
    conn: C,
    up: U,
)
    requires
        starts_inbound(s, conn, up),
    ensures
        s matches InboundState::Init { select, upgrade } && upgrade == up && select.connection()
            == Some(conn) && exists|infos: Vec<U::Info>| #[trigger]
            call_ensures(U::protocol_info, (&up,), infos) && crate::protocol_name::names(
                candidates(select),
            ) == crate::protocol_name::names(infos@),
{
    if let InboundState::Init { select, .. } = s {
        let infos = choose|infos: Vec<U::Info>| #[trigger]
            call_ensures(U::protocol_info, (&up,), infos) && candidates(select) == wrapped(infos@);
        assert(crate::protocol_name::names(candidates(select)) =~= crate::protocol_name::names(
            infos@,
        ));
    }
}

/// An outgoing upgrade starts the agreement on its own connection, with its own protocols.
pub proof fn law_outbound_upgrade_starts_with_its_protocols<C, U: OutboundUpgrade<C>, F, S>(
    s: OutboundState<C, U, S>,
    conn: C,
    up: U,
    select: F,
) where F: FnOnce(C, Vec<NameWrap<U::Info>>) -> S
    requires
        starts_outbound(s, conn, up, select),
    ensures
        s matches OutboundState::Init { future, upgrade } && upgrade == up && exists|
            infos: Vec<U::Info>,
            names: Vec<NameWrap<U::Info>>,
        |
            #![trigger call_ensures(U::protocol_info, (&up,), infos), call_ensures(select, (conn, names), future)]
            call_ensures(U::protocol_info, (&up,), infos) && crate::protocol_name::names(names@)
                == crate::protocol_name::names(infos@) && call_ensures(
                select,
                (conn, names),
                future,
            ),
{
    if let OutboundState::Init { future, .. } = s {
        let (infos, names) = choose|infos: Vec<U::Info>, names: Vec<NameWrap<U::Info>>|
            #![trigger call_ensures(U::protocol_info, (&up,), infos), call_ensures(select, (conn, names), future)]
            call_ensures(U::protocol_info, (&up,), infos) && names@ == wrapped(infos@)
                && call_ensures(select, (conn, names), future);
        assert(crate::protocol_name::names(names@) =~= crate::protocol_name::names(infos@));
    }
}

} // verus!
