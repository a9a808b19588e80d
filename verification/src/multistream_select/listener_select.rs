//! The listener chooses a protocol.

use crate::address::same_bytes;
use crate::async_value::{Async, Poll};
use crate::multistream_select::protocol::listener::{
    HandshakeAction, HandshakeInput, HandshakeStep, Listener, ListenerFuture, ListenerFutureState,
    SendState,
};
use crate::multistream_select::protocol::{
    DialerMessage, DialerToListenerMessage, ListenerMessage, ListenerToDialerMessage,
    MultistreamSelectError, SendAction, SendInput, SendStep,
};
use crate::multistream_select::ProtocolChoiceError;
use crate::protocol_name::{copy_name, ProtocolName};
use vstd::prelude::*;

verus! {

/// Helps to choose a protocol among the ones that are supported.
///
/// On success, gives the connection, the chosen protocol and the protocols. The connection now
/// uses the chosen protocol.
pub fn listener_select_proto<R, X: ProtocolName + Clone>(inner: R, protocols: Vec<X>) -> (r:
    ListenerSelectFuture<R, X>)
    requires
        crate::multistream_select::protocol::listener::countable_names(
            crate::protocol_name::names(protocols@),
        ),
    ensures
        r.wf(),
        r@ matches SelectState::AwaitListener { handshake, protocols: ps } && ps == protocols@ && (
        handshake matches ListenerFutureState::Await { listener } && listener.inner == inner),
{
    ListenerSelectFuture {
        inner: ListenerSelectState::AwaitListener { listener_fut: Listener::new(inner), protocols },
    }
}

/// Chooses a protocol among the ones that are supported.
pub struct ListenerSelectFuture<R, X> {
    inner: ListenerSelectState<R, X>,
}

#[allow(inconsistent_fields)]
enum ListenerSelectState<R, X> {
    AwaitListener { listener_fut: ListenerFuture<R>, protocols: Vec<X> },
    Incoming { listener: Listener<R>, protocols: Vec<X> },
    Responding {
        listener: Listener<R>,
        protocols: Vec<X>,
        message: ListenerToDialerMessage<Vec<u8>>,
        outcome: Option<usize>,
    },
    Outgoing { listener: Listener<R>, protocols: Vec<X>, outcome: Option<usize> },
    Undefined,
}

/// How far the choice has come.
#[allow(inconsistent_fields)]
pub enum SelectState<R, X> {
    /// The handshake is not over.
    AwaitListener {
        /// How far the handshake has come.
        handshake: ListenerFutureState<R>,
        /// The protocols.
        protocols: Seq<X>,
    },
    /// The dialer's next message is awaited.
    Incoming {
        /// The connection.
        inner: R,
        /// The protocols.
        protocols: Seq<X>,
    },
    /// The answer is being sent.
    Responding {
        /// The connection.
        inner: R,
        /// The protocols.
        protocols: Seq<X>,
        /// The answer.
        message: ListenerMessage,
        /// How far it has been sent.
        sending: SendState,
        /// The protocol that is agreed on with the answer, by its place.
        outcome: Option<nat>,
    },
    /// The answer is being flushed.
    Outgoing {
        /// The connection.
        inner: R,
        /// The protocols.
        protocols: Seq<X>,
        /// The protocol that is agreed on with the answer, by its place.
        outcome: Option<nat>,
    },
    /// The choice is over.
    Undefined,
}

/// What [`ListenerSelectFuture::poll`] is told.
#[derive(Debug, PartialEq, Eq)]
pub enum SelectInput<E> {
    /// Start, or go on.
    Start,
    /// Outcome of reading a frame.
    Received(Poll<Option<Vec<u8>>, E>),
    /// Outcome of sending the answer to the handshake.
    Sent(Poll<(), E>),
    /// Outcome of a write: how many bytes were taken.
    Written(Poll<usize, E>),
    /// Outcome of a flush.
    Flushed(Poll<(), E>),
}

/// What [`ListenerSelectFuture::poll`] wants to be done.
#[derive(Debug, PartialEq, Eq)]
pub enum SelectAction<R, X, E> {
    /// Read a frame.
    Receive,
    /// Begin to send the message that ends the handshake.
    Send(Vec<u8>),
    /// Go on with sending that message.
    PollSend,
    /// Write the bytes.
    Write(Vec<u8>),
    /// Flush what was written.
    Flush,
    /// A protocol is chosen, or is not chosen yet.
    Return(Poll<(X, R, Vec<X>), ProtocolChoiceError<E>>),
}

/// A [`SelectAction`] by what it says.
pub enum SelectStep<R, X, E> {
    /// Read a frame.
    Receive,
    /// Begin to send the message that ends the handshake.
    Send(Seq<u8>),
    /// Go on with sending that message.
    PollSend,
    /// Write the bytes.
    Write(Seq<u8>),
    /// Flush what was written.
    Flush,
    /// A protocol is chosen, by its place, or is not chosen yet.
    Return(Poll<(nat, R, Seq<X>), ProtocolChoiceError<E>>),
}

/// The action is the one of the step. The chosen protocol is a clone of the one at its place.
pub open spec fn performs<R, X: Clone, E>(
    action: SelectAction<R, X, E>,
    step: SelectStep<R, X, E>,
) -> bool {
    match step {
        SelectStep::Receive => action is Receive,
        SelectStep::Send(m) => action matches SelectAction::Send(v) && v@ == m,
        SelectStep::PollSend => action is PollSend,
        SelectStep::Write(b) => action matches SelectAction::Write(v) && v@ == b,
        SelectStep::Flush => action is Flush,
        SelectStep::Return(Ok(Async::Ready((i, inner, protocols)))) => action matches SelectAction::Return(
            Ok(Async::Ready((x, r, ps))),
        ) && i < protocols.len() && cloned(protocols[i as int], x) && r == inner && ps@ == protocols,
        SelectStep::Return(Ok(Async::NotReady)) => action matches SelectAction::Return(
            Ok(Async::NotReady),
        ),
        SelectStep::Return(Err(e)) => action matches SelectAction::Return(Err(f)) && e == f,
    }
}

/// The place of the first protocol with the given name.
pub open spec fn first_named(names: Seq<Seq<u8>>, name: Seq<u8>) -> Option<nat>
    decreases names.len(),
{
    if names.len() == 0 {
        None
    } else if names.first() == name {
        Some(0)
    } else {
        match first_named(names.drop_first(), name) {
            Some(i) => Some(i + 1),
            None => None,
        }
    }
}

/// The answer to a message of the dialer, and the protocol that is agreed on with it.
pub open spec fn answer(names: Seq<Seq<u8>>, message: DialerMessage) -> (
    ListenerMessage,
    Option<nat>,
) {
    match message {
        DialerMessage::List => (ListenerMessage::List(names), None),
        DialerMessage::Request(name) => match first_named(names, name) {
            Some(i) => (ListenerMessage::Ack(name), Some(i)),
            None => (ListenerMessage::NotAvailable, None),
        },
    }
}

impl<R, X: ProtocolName> SelectState<R, X> {
    /// The connection.
    pub open spec fn connection(self) -> Option<R> {
        match self {
            SelectState::AwaitListener { handshake, .. } => match handshake {
                ListenerFutureState::Await { listener } => Some(listener.inner),
                ListenerFutureState::Reply { listener } => Some(listener.inner),
                ListenerFutureState::Undefined => None,
            },
            SelectState::Incoming { inner, .. } => Some(inner),
            SelectState::Responding { inner, .. } => Some(inner),
            SelectState::Outgoing { inner, .. } => Some(inner),
            SelectState::Undefined => None,
        }
    }

    /// The same state with another connection.
    pub open spec fn with_connection(self, inner: R) -> Self {
        match self {
            SelectState::AwaitListener { handshake, protocols } => SelectState::AwaitListener {
                handshake: match handshake {
                    ListenerFutureState::Await { listener } => ListenerFutureState::Await {
                        listener: Listener { inner, ..listener },
                    },
                    ListenerFutureState::Reply { listener } => ListenerFutureState::Reply {
                        listener: Listener { inner, ..listener },
                    },
                    ListenerFutureState::Undefined => handshake,
                },
                protocols,
            },
            SelectState::Incoming { protocols, .. } => SelectState::Incoming { inner, protocols },
            SelectState::Responding { protocols, message, sending, outcome, .. } =>
                SelectState::Responding { inner, protocols, message, sending, outcome },
            SelectState::Outgoing { protocols, outcome, .. } => SelectState::Outgoing {
                inner,
                protocols,
                outcome,
            },
            SelectState::Undefined => self,
        }
    }

    /// What is being sent is the answer, and the protocol that was agreed on is there.
    pub open spec fn wf(self) -> bool {
        match self {
            SelectState::AwaitListener { handshake, protocols } => {
                &&& crate::multistream_select::protocol::listener::countable_names(
                    crate::protocol_name::names(protocols),
                )
                &&& match handshake {
                    ListenerFutureState::Await { listener } => listener.state@ is Start,
                    ListenerFutureState::Reply { listener } => listener.state@ is Start,
                    ListenerFutureState::Undefined => false,
                }
            },
            SelectState::Incoming { protocols, .. } =>
                crate::multistream_select::protocol::listener::countable_names(
                crate::protocol_name::names(protocols),
            ),
            SelectState::Responding { protocols, message, sending, outcome, .. } => {
                &&& crate::multistream_select::protocol::listener::countable_names(
                    crate::protocol_name::names(protocols),
                )
                &&& crate::multistream_select::protocol::listener::countable(message)
                &&& crate::multistream_select::protocol::listener::sendable(message)
                &&& crate::multistream_select::protocol::listener::fits(sending, message)
                &&& !(sending is Start)
                &&& outcome matches Some(i) ==> i < protocols.len()
            },
            SelectState::Outgoing { protocols, outcome, .. } => {
                &&& crate::multistream_select::protocol::listener::countable_names(
                    crate::protocol_name::names(protocols),
                )
                &&& outcome matches Some(i) ==> i < protocols.len()
            },
            SelectState::Undefined => true,
        }
    }

    /// The input can follow in this state.
    pub open spec fn accepts<E>(self, input: SelectInput<E>) -> bool {
        match self {
            SelectState::AwaitListener { handshake, .. } => match input {
                SelectInput::Start => true,
                SelectInput::Received(_) => handshake is Await,
                SelectInput::Sent(_) => handshake is Reply,
                _ => false,
            },
            SelectState::Incoming { .. } => input is Start || input is Received,
            SelectState::Responding { sending, .. } => {
                &&& input is Start || input is Written
                &&& input matches SelectInput::Written(Ok(Async::Ready(n)))
                    ==> crate::multistream_select::protocol::listener::sent(sending) + n
                    <= usize::MAX
            },
            SelectState::Outgoing { .. } => input is Start || input is Flushed,
            SelectState::Undefined => false,
        }
    }

    /// A step of sending the answer. A write that could not be done is done again.
    pub open spec fn respond<E>(
        inner: R,
        protocols: Seq<X>,
        message: ListenerMessage,
        sending: SendState,
        outcome: Option<nat>,
        input: SendInput<E>,
    ) -> (Self, SelectStep<R, X, E>) {
        let (next, step) = crate::multistream_select::protocol::listener::send_step::<(), E>(
            sending,
            message,
            (),
            if input matches SendInput::Written(Ok(Async::NotReady)) {
                SendInput::Start
            } else {
                input
            },
        );
        match step {
            SendStep::Write(_, bytes) => (
                SelectState::Responding { inner, protocols, message, sending: next, outcome },
                SelectStep::Write(bytes),
            ),
            SendStep::Return(Ok(_)) => (
                SelectState::Outgoing { inner, protocols, outcome },
                SelectStep::Flush,
            ),
            SendStep::Return(Err(e)) => (
                SelectState::Undefined,
                SelectStep::Return(Err(ProtocolChoiceError::MultistreamSelectError(e))),
            ),
        }
    }

    /// One step of the choice.
    pub open spec fn step<E>(self, input: SelectInput<E>) -> (Self, SelectStep<R, X, E>) {
        match self {
            SelectState::AwaitListener { handshake, protocols } => {
                let (next, step) =
                    crate::multistream_select::protocol::listener::handshake_step::<R, E>(
                    handshake,
                    match input {
                        SelectInput::Received(p) => HandshakeInput::Received(p),
                        SelectInput::Sent(p) => HandshakeInput::Sent(p),
                        _ => HandshakeInput::Start,
                    },
                );
                let waiting = SelectState::AwaitListener { handshake: next, protocols };
                match step {
                    HandshakeStep::Receive => (waiting, SelectStep::Receive),
                    HandshakeStep::Send(m) => (waiting, SelectStep::Send(m)),
                    HandshakeStep::PollSend => (waiting, SelectStep::PollSend),
                    HandshakeStep::Return(Ok(Async::NotReady)) => (
                        waiting,
                        SelectStep::Return(Ok(Async::NotReady)),
                    ),
                    HandshakeStep::Return(Ok(Async::Ready(listener))) => (
                        SelectState::Incoming { inner: listener.inner, protocols },
                        SelectStep::Receive,
                    ),
                    HandshakeStep::Return(Err(e)) => (
                        SelectState::Undefined,
                        SelectStep::Return(Err(ProtocolChoiceError::MultistreamSelectError(e))),
                    ),
                }
            },
            SelectState::Incoming { inner, protocols } => match input {
                SelectInput::Received(polled) =>
                    match crate::multistream_select::protocol::listener::receive(
                        crate::multistream_select::protocol::polled_frame(polled),
                    ) {
                        Ok(Async::Ready(Some(message))) => {
                            let (reply, outcome) = answer(
                                crate::protocol_name::names(protocols),
                                message,
                            );
                            Self::respond(
                                inner,
                                protocols,
                                reply,
                                SendState::Start,
                                outcome,
                                SendInput::Start,
                            )
                        },
                        Ok(Async::Ready(None)) => (
                            SelectState::Undefined,
                            SelectStep::Return(Err(ProtocolChoiceError::NoProtocolFound)),
                        ),
                        Ok(Async::NotReady) => (self, SelectStep::Return(Ok(Async::NotReady))),
                        Err(e) => (
                            SelectState::Undefined,
                            SelectStep::Return(Err(ProtocolChoiceError::MultistreamSelectError(e))),
                        ),
                    },
                _ => (self, SelectStep::Receive),
            },
            SelectState::Responding { inner, protocols, message, sending, outcome } =>
                Self::respond(
                    inner,
                    protocols,
                    message,
                    sending,
                    outcome,
                    match input {
                        SelectInput::Written(p) => SendInput::Written(p),
                        _ => SendInput::Start,
                    },
                ),
            SelectState::Outgoing { inner, protocols, outcome } => match input {
                SelectInput::Flushed(Ok(Async::Ready(()))) => match outcome {
                    Some(i) => (
                        SelectState::Undefined,
                        SelectStep::Return(Ok(Async::Ready((i, inner, protocols)))),
                    ),
                    None => (SelectState::Incoming { inner, protocols }, SelectStep::Receive),
                },
                SelectInput::Flushed(Ok(Async::NotReady)) => (
                    self,
                    SelectStep::Return(Ok(Async::NotReady)),
                ),
                SelectInput::Flushed(Err(e)) => (
                    SelectState::Undefined,
                    SelectStep::Return(
                        Err(
                            ProtocolChoiceError::MultistreamSelectError(
                                MultistreamSelectError::IoError(e),
                            ),
                        ),
                    ),
                ),
                _ => (self, SelectStep::Flush),
            },
            SelectState::Undefined => (self, SelectStep::Return(Ok(Async::NotReady))),
        }
    }
}

/// A place, as a number of the model.
closed spec fn place(outcome: Option<usize>) -> Option<nat> {
    match outcome {
        Some(i) => Some(i as nat),
        None => None,
    }
}

impl<R, X> View for ListenerSelectFuture<R, X> {
    type V = SelectState<R, X>;

    closed spec fn view(&self) -> SelectState<R, X> {
        match self.inner {
            ListenerSelectState::AwaitListener { listener_fut, protocols } =>
                SelectState::AwaitListener { handshake: listener_fut.inner, protocols: protocols@ },
            ListenerSelectState::Incoming { listener, protocols } => SelectState::Incoming {
                inner: listener.inner,
                protocols: protocols@,
            },
            ListenerSelectState::Responding { listener, protocols, message, outcome } =>
                SelectState::Responding {
                    inner: listener.inner,
                    protocols: protocols@,
                    message: message@,
                    sending: listener.state@,
                    outcome: place(outcome),
                },
            ListenerSelectState::Outgoing { listener, protocols, outcome } =>
                SelectState::Outgoing {
                    inner: listener.inner,
                    protocols: protocols@,
                    outcome: place(outcome),
                },
            ListenerSelectState::Undefined => SelectState::Undefined,
        }
    }
}

/// Looks for a protocol.
fn find<X: ProtocolName>(protocols: &Vec<X>, name: &[u8]) -> (r: Option<usize>)
    ensures
        place(r) == first_named(crate::protocol_name::names(protocols@), name@),
        r matches Some(i) ==> i < protocols@.len() && protocols@[i as int].name() == name@,
{
    let ghost all = crate::protocol_name::names(protocols@);
    let n: usize = protocols.len();
    let mut i: usize = 0;
    assert(all.skip(0) =~= all);
    while i < n
        invariant
            n == protocols@.len(),
            all == crate::protocol_name::names(protocols@),
            i <= n,
            first_named(all, name@) == match first_named(all.skip(i as int), name@) {
                Some(k) => Some(i as nat + k),
                None => None,
            },
        decreases n - i,
    {
        assert(all.skip(i as int).first() == protocols@[i as int].name());
        assert(all.skip(i as int).drop_first() =~= all.skip(i + 1));
        if same_bytes(name, protocols[i].protocol_name()) {
            return Some(i);
        }
        i += 1;
    }
    None
}

fn copy_names<X: ProtocolName>(protocols: &Vec<X>) -> (r: Vec<Vec<u8>>)
    ensures
        crate::protocol_name::names(r@) == crate::protocol_name::names(protocols@),
{
    let n: usize = protocols.len();
    let mut r: Vec<Vec<u8>> = Vec::new();
    let mut i: usize = 0;
    while i < n
        invariant
            n == protocols@.len(),
            i <= n,
            r@.len() == i,
            forall|j: int| 0 <= j < i ==> (#[trigger] r@[j])@ == protocols@[j].name(),
        decreases n - i,
    {
        r.push(copy_name(protocols[i].protocol_name()));
        i += 1;
    }
    assert(crate::protocol_name::names(r@) =~= crate::protocol_name::names(protocols@));
    r
}

impl<R, X: ProtocolName + Clone> ListenerSelectFuture<R, X> {
    /// See [`SelectState::wf`]; nothing is being sent unless an answer is.
    pub closed spec fn wf(&self) -> bool {
        &&& self@.wf()
        &&& match self.inner {
            ListenerSelectState::Incoming { listener, .. } => listener.state@ is Start,
            ListenerSelectState::Outgoing { listener, .. } => listener.state@ is Start,
            _ => true,
        }
    }

    /// The connection, to read from or write to; `None` once the choice is over.
    pub fn connection(&mut self) -> (r: Option<&mut R>)
        requires
            old(self).wf(),
        ensures
            final(self).wf(),
            match r {
                Some(c) => old(self)@.connection() == Some(*c) && final(self)@ == old(
                    self
                )@.with_connection(*final(c)),
                None => old(self)@ is Undefined && final(self)@ == old(self)@,
            },
    {
        match &mut self.inner {
            ListenerSelectState::AwaitListener { listener_fut, .. } => match &mut listener_fut.inner {
                ListenerFutureState::Await { listener } => Some(&mut listener.inner),
                ListenerFutureState::Reply { listener } => Some(&mut listener.inner),
                ListenerFutureState::Undefined => None,
            },
            ListenerSelectState::Incoming { listener, .. } => Some(&mut listener.inner),
            ListenerSelectState::Responding { listener, .. } => Some(&mut listener.inner),
            ListenerSelectState::Outgoing { listener, .. } => Some(&mut listener.inner),
            ListenerSelectState::Undefined => None,
        }
    }

    fn respond<E>(
        &mut self,
        listener: Listener<R>,
        protocols: Vec<X>,
        message: ListenerToDialerMessage<Vec<u8>>,
        outcome: Option<usize>,
        input: SendInput<E>,
    ) -> (r: SelectAction<R, X, E>)
        requires
            crate::multistream_select::protocol::listener::countable_names(
                crate::protocol_name::names(protocols@),
            ),
            crate::multistream_select::protocol::listener::accepts(
                listener.state@,
                message@,
                input,
            ),
            crate::multistream_select::protocol::listener::sendable(message@),
            outcome matches Some(i) ==> i < protocols@.len(),
        ensures
            final(self).wf(),
            ({
                let (next, step) = SelectState::<R, X>::respond(
                    listener.inner,
                    protocols@,
                    message@,
                    listener.state@,
                    place(outcome),
                    input,
                );
                final(self)@ == next && performs(r, step)
            }),
    {
        let mut listener = listener;
        let input: SendInput<E> = match input {
            SendInput::Written(Ok(Async::NotReady)) => SendInput::Start,
            _ => input,
        };
        match listener.start_send(message, input) {
            SendAction::Write { item, bytes } => {
                self.inner = ListenerSelectState::Responding {
                    listener,
                    protocols,
                    message: item,
                    outcome,
                };
                SelectAction::Write(bytes)
            },
            SendAction::Return(Ok(_)) => {
                self.inner = ListenerSelectState::Outgoing { listener, protocols, outcome };
                SelectAction::Flush
            },
            SendAction::Return(Err(e)) => {
                self.inner = ListenerSelectState::Undefined;
                SelectAction::Return(Err(ProtocolChoiceError::from(e)))
            },
        }
    }

    /// One step of the choice.
    pub fn poll<E>(&mut self, input: SelectInput<E>) -> (r: SelectAction<R, X, E>)
        requires
            old(self).wf(),
            old(self)@.accepts(input),
        ensures
            final(self).wf(),
            final(self)@ == old(self)@.step(input).0,
            performs(r, old(self)@.step(input).1),
            (input matches SelectInput::Received(Ok(Async::NotReady))) || (
            input matches SelectInput::Sent(Ok(Async::NotReady))) || (
            input matches SelectInput::Flushed(Ok(Async::NotReady))) ==> final(self)@ == old(self)@
                && (r matches SelectAction::Return(Ok(Async::NotReady))),
            r matches SelectAction::Return(Err(ProtocolChoiceError::NoProtocolFound)) ==> (
            input matches SelectInput::Received(Ok(Async::Ready(None)))),
    {
        let mut state: ListenerSelectState<R, X> = ListenerSelectState::Undefined;
        std::mem::swap(&mut self.inner, &mut state);
        match state {
            ListenerSelectState::AwaitListener { listener_fut, protocols } => {
                let mut listener_fut = listener_fut;
                let handshake: HandshakeInput<E> = match input {
                    SelectInput::Received(p) => HandshakeInput::Received(p),
                    SelectInput::Sent(p) => HandshakeInput::Sent(p),
                    _ => HandshakeInput::Start,
                };
                let action = listener_fut.poll(handshake);
                match action {
                    HandshakeAction::Return(Ok(Async::Ready(listener))) => {
                        self.inner = ListenerSelectState::Incoming { listener, protocols };
                        SelectAction::Receive
                    },
                    HandshakeAction::Return(Err(e)) => SelectAction::Return(
                        Err(ProtocolChoiceError::from(e)),
                    ),
                    HandshakeAction::Return(Ok(Async::NotReady)) => {
                        self.inner = ListenerSelectState::AwaitListener { listener_fut, protocols };
                        SelectAction::Return(Ok(Async::NotReady))
                    },
                    HandshakeAction::Receive => {
                        self.inner = ListenerSelectState::AwaitListener { listener_fut, protocols };
                        SelectAction::Receive
                    },
                    HandshakeAction::Send(message) => {
                        self.inner = ListenerSelectState::AwaitListener { listener_fut, protocols };
                        SelectAction::Send(message)
                    },
                    HandshakeAction::PollSend => {
                        self.inner = ListenerSelectState::AwaitListener { listener_fut, protocols };
                        SelectAction::PollSend
                    },
                }
            },
            ListenerSelectState::Incoming { listener, protocols } => {
                let mut listener = listener;
                let polled: Poll<Option<Vec<u8>>, E> = match input {
                    SelectInput::Received(polled) => polled,
                    _ => {
                        self.inner = ListenerSelectState::Incoming { listener, protocols };
                        return SelectAction::Receive;
                    },
                };
                match listener.poll(polled) {
                    Ok(Async::Ready(Some(DialerToListenerMessage::ProtocolsListRequest))) => {
                        let list: Vec<Vec<u8>> = copy_names(&protocols);
                        let message = ListenerToDialerMessage::ProtocolsListResponse { list };
                        self.respond(listener, protocols, message, None, SendInput::Start)
                    },
                    Ok(Async::Ready(Some(DialerToListenerMessage::ProtocolRequest { name }))) => {
                        let outcome: Option<usize> = find(&protocols, name.as_slice());
                        let message = match outcome {
                            Some(i) => ListenerToDialerMessage::ProtocolAck {
                                name: copy_name(protocols[i].protocol_name()),
                            },
                            None => ListenerToDialerMessage::NotAvailable,
                        };
                        self.respond(listener, protocols, message, outcome, SendInput::Start)
                    },
                    Ok(Async::Ready(None)) => SelectAction::Return(
                        Err(ProtocolChoiceError::NoProtocolFound),
                    ),
                    Ok(Async::NotReady) => {
                        self.inner = ListenerSelectState::Incoming { listener, protocols };
                        SelectAction::Return(Ok(Async::NotReady))
                    },
                    Err(e) => SelectAction::Return(Err(ProtocolChoiceError::from(e))),
                }
            },
            ListenerSelectState::Responding { listener, protocols, message, outcome } => {
                let send: SendInput<E> = match input {
                    SelectInput::Written(p) => SendInput::Written(p),
                    _ => SendInput::Start,
                };
                self.respond(listener, protocols, message, outcome, send)
            },
            ListenerSelectState::Outgoing { listener, protocols, outcome } => match input {
                SelectInput::Flushed(Ok(Async::NotReady)) => {
                    self.inner = ListenerSelectState::Outgoing { listener, protocols, outcome };
                    SelectAction::Return(Ok(Async::NotReady))
                },
                SelectInput::Flushed(Ok(Async::Ready(_))) => {
                    if let Some(i) = outcome {
                        let p: X = protocols[i].clone();
                        SelectAction::Return(Ok(Async::Ready((p, listener.into_inner(), protocols))))
                    } else {
                        self.inner = ListenerSelectState::Incoming { listener, protocols };
                        SelectAction::Receive
                    }
                },
                SelectInput::Flushed(Err(e)) => SelectAction::Return(
                    Err(ProtocolChoiceError::from(MultistreamSelectError::IoError(e))),
                ),
                _ => {
                    self.inner = ListenerSelectState::Outgoing { listener, protocols, outcome };
                    SelectAction::Flush
                },
            },
            ListenerSelectState::Undefined => SelectAction::Return(Ok(Async::NotReady)),
        }
    }
}

} // verus!
