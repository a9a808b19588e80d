//! The listener's side.

use crate::address::same_bytes;
use crate::async_value::{Async, AsyncSink, Poll};
use crate::multistream_select::protocol::{
    multistream_protocol_bytes, rest_of, DialerMessage, DialerToListenerMessage, ListenerMessage,
    ListenerToDialerMessage, MultistreamSelectError, ReceiveAction, SendAction, SendInput, SendStep,
};
use crate::protocol_name::ProtocolName;
use crate::varint::encode_usize;
use vstd::prelude::*;

verus! {

/// How far a message has been sent.
#[derive(Debug, PartialEq, Eq)]
pub enum State {
    /// Nothing is being sent.
    Start,
    /// So many bytes of the message have been sent.
    Message(usize),
    /// So many bytes of the list have been sent.
    List(Vec<u8>, usize),
}

/// A [`State`] by what it says.
pub enum SendState {
    /// Nothing is being sent.
    Start,
    /// So many bytes of the message have been sent.
    Message(nat),
    /// So many bytes of the list have been sent.
    List(Seq<u8>, nat),
}

impl View for State {
    type V = SendState;

    open spec fn view(&self) -> SendState {
        match self {
            State::Start => SendState::Start,
            State::Message(offset) => SendState::Message(*offset as nat),
            State::List(list, offset) => SendState::List(list@, *offset as nat),
        }
    }
}

/// The listener's side of a connection.
///
/// `R` reads and writes frames.
#[derive(Debug, PartialEq, Eq)]
pub struct Listener<R> {
    /// The connection.
    pub inner: R,
    /// How far a message has been sent.
    pub state: State,
}

/// One protocol in a list: the length of its name and the newline, the name, a newline.
pub open spec fn list_entry(name: Seq<u8>) -> Seq<u8> {
    crate::varint::uvi(name.len() + 1) + name + seq!['\n' as u8]
}

/// All protocols of a list.
pub open spec fn list_entries(list: Seq<Seq<u8>>) -> Seq<u8>
    decreases list.len(),
{
    if list.len() == 0 {
        Seq::empty()
    } else {
        list_entry(list.first()) + list_entries(list.drop_first())
    }
}

/// A list of protocols: their number, a newline, the protocols. The newline of the last one is
/// the newline of the frame.
pub open spec fn list_payload(list: Seq<Seq<u8>>) -> Seq<u8> {
    crate::varint::uvi(list.len()) + seq!['\n' as u8] + (if list.len() == 0 {
        Seq::empty()
    } else {
        list_entries(list).drop_last()
    })
}

/// What a message of the listener is made of.
pub open spec fn payload(message: ListenerMessage) -> Seq<u8> {
    match message {
        ListenerMessage::Ack(name) => name,
        ListenerMessage::NotAvailable => seq!['n' as u8, 'a' as u8],
        ListenerMessage::List(list) => list_payload(list),
    }
}

/// A protocol name that does not start with a slash is not sent.
pub open spec fn sendable(message: ListenerMessage) -> bool {
    match message {
        ListenerMessage::Ack(name) => name.len() > 0 && name[0] == '/' as u8,
        _ => true,
    }
}

/// The names are short enough for their lengths to be counted.
pub open spec fn countable_names(list: Seq<Seq<u8>>) -> bool {
    forall|i: int| 0 <= i < list.len() ==> (#[trigger] list[i]).len() < usize::MAX
}

/// The names in the message are short enough for their lengths to be counted.
pub open spec fn countable(message: ListenerMessage) -> bool {
    match message {
        ListenerMessage::List(list) => countable_names(list),
        _ => true,
    }
}

/// Is the message the one that is being sent?
pub open spec fn fits(state: SendState, message: ListenerMessage) -> bool {
    match state {
        SendState::Start => true,
        SendState::Message(offset) => !(message is List) && (sendable(message) ==> offset <= payload(
            message,
        ).len()),
        SendState::List(bytes, offset) => message is List && offset <= bytes.len(),
    }
}

/// How much has been sent.
pub open spec fn sent(state: SendState) -> nat {
    match state {
        SendState::Start => 0,
        SendState::Message(offset) => offset,
        SendState::List(_, offset) => offset,
    }
}

/// What is being sent.
pub open spec fn sending(state: SendState, message: ListenerMessage) -> Seq<u8> {
    match state {
        SendState::List(bytes, _) => bytes,
        _ => payload(message),
    }
}

/// The state in which `offset` bytes of the message have been sent.
pub open spec fn state_at(bytes: Seq<u8>, message: ListenerMessage, offset: nat) -> SendState {
    if message is List {
        SendState::List(bytes, offset)
    } else {
        SendState::Message(offset)
    }
}

/// One step of sending a message, which is handed back as `item` where it is needed again.
pub open spec fn send_step<M, E>(
    state: SendState,
    message: ListenerMessage,
    item: M,
    input: SendInput<E>,
) -> (SendState, SendStep<M, E>) {
    let bytes = sending(state, message);
    match input {
        SendInput::Start => (
            state_at(bytes, message, sent(state)),
            if !sendable(message) {
                SendStep::Return(Err(MultistreamSelectError::WrongProtocolName))
            } else {
                SendStep::Write(item, bytes.skip(sent(state) as int))
            },
        ),
        SendInput::Written(Ok(Async::Ready(n))) => if sent(state) + n >= bytes.len() {
            (SendState::Start, SendStep::Return(Ok(AsyncSink::Ready)))
        } else {
            (
                state_at(bytes, message, sent(state) + n as nat),
                SendStep::Write(item, bytes.skip(sent(state) + n)),
            )
        },
        SendInput::Written(Ok(Async::NotReady)) => (
            state,
            SendStep::Return(Ok(AsyncSink::NotReady(item))),
        ),
        SendInput::Written(Err(e)) => (
            state,
            SendStep::Return(Err(MultistreamSelectError::IoError(e))),
        ),
    }
}

/// The input can follow in this state.
pub open spec fn accepts<E>(
    state: SendState,
    message: ListenerMessage,
    input: SendInput<E>,
) -> bool {
    &&& fits(state, message)
    &&& countable(message)
    &&& input is Written ==> !(state is Start) && sendable(message)
    &&& input matches SendInput::Written(Ok(Async::Ready(n))) ==> sent(state) + n <= usize::MAX
}

/// What a frame of the dialer says.
pub open spec fn parse<E>(frame: Seq<u8>) -> Result<DialerMessage, MultistreamSelectError<E>> {
    if crate::multistream_select::protocol::is_name_frame(frame) {
        Ok(DialerMessage::Request(frame.drop_last()))
    } else if frame == seq!['l' as u8, 's' as u8, '\n' as u8] {
        Ok(DialerMessage::List)
    } else {
        Err(MultistreamSelectError::UnknownMessage)
    }
}

/// What is made of the next frame.
pub open spec fn receive<E>(polled: Poll<Option<Seq<u8>>, E>) -> Poll<
    Option<DialerMessage>,
    MultistreamSelectError<E>,
> {
    match polled {
        Ok(Async::Ready(Some(frame))) => match parse(frame) {
            Ok(m) => Ok(Async::Ready(Some(m))),
            Err(e) => Err(e),
        },
        Ok(Async::Ready(None)) => Ok(Async::Ready(None)),
        Ok(Async::NotReady) => Ok(Async::NotReady),
        Err(e) => Err(MultistreamSelectError::IoError(e)),
    }
}

/// The polled message by what it says.
pub open spec fn polled_message<M: View, E>(polled: Poll<Option<M>, E>) -> Poll<Option<M::V>, E> {
    match polled {
        Ok(Async::Ready(Some(m))) => Ok(Async::Ready(Some(m@))),
        Ok(Async::Ready(None)) => Ok(Async::Ready(None)),
        Ok(Async::NotReady) => Ok(Async::NotReady),
        Err(e) => Err(e),
    }
}

proof fn lemma_entries_push(list: Seq<Seq<u8>>, name: Seq<u8>)
    ensures
        list_entries(list.push(name)) == list_entries(list) + list_entry(name),
    decreases list.len(),
{
    let longer = list.push(name);
    if list.len() == 0 {
        assert(longer.drop_first() =~= Seq::empty());
        reveal_with_fuel(list_entries, 2);
        assert(list_entries(longer) =~= list_entry(name));
        assert(list_entries(list) + list_entry(name) =~= list_entry(name));
    } else {
        assert(longer.drop_first() =~= list.drop_first().push(name));
        lemma_entries_push(list.drop_first(), name);
        assert(longer.first() == list.first());
        assert(list_entries(longer) =~= list_entries(list) + list_entry(name));
    }
}

fn encode_list<N: ProtocolName>(list: &Vec<N>) -> (r: Vec<u8>)
    requires
        countable_names(crate::protocol_name::names(list@)),
    ensures
        r@ == list_payload(crate::protocol_name::names(list@)),
{
    let ghost all = crate::protocol_name::names(list@);
    let n: usize = list.len();
    let mut out_msg: Vec<u8> = encode_usize(n);
    out_msg.push('\n' as u8);
    let ghost head = crate::varint::uvi(n as nat) + seq!['\n' as u8];
    assert(out_msg@ =~= head);
    assert(all.take(0) =~= Seq::empty());
    let mut i: usize = 0;
    while i < n
        invariant
            n == list@.len(),
            all == crate::protocol_name::names(list@),
            countable_names(all),
            i <= n,
            i < n ==> out_msg@ =~= head + list_entries(all.take(i as int)),
            i == n && n > 0 ==> out_msg@ =~= head + list_entries(all).drop_last(),
            i == n && n == 0 ==> out_msg@ =~= head,
        decreases n - i,
    {
        let ghost before = out_msg@;
        let name = list[i].protocol_name();
        assert(all[i as int] == name@);
        let mut len: Vec<u8> = encode_usize(name.len() + 1);
        out_msg.append(&mut len);
        out_msg.extend_from_slice(name);
        proof {
            lemma_entries_push(all.take(i as int), name@);
            assert(all.take(i as int).push(name@) =~= all.take(i + 1));
            assert(out_msg@ =~= before + crate::varint::uvi(name@.len() + 1) + name@);
        }
        if i < n - 1 {
            out_msg.push('\n' as u8);
        } else {
            proof {
                assert(all.take(i + 1) =~= all);
                assert(list_entries(all).drop_last() =~= list_entries(all.take(i as int))
                    + crate::varint::uvi(name@.len() + 1) + name@);
            }
        }
        i += 1;
    }
    assert(out_msg@ =~= list_payload(all));
    out_msg
}

impl<R> Listener<R> {
    /// Starts the handshake on a connection. If it succeeds, the future gives the listener.
    pub fn new(inner: R) -> (r: ListenerFuture<R>)
        ensures
            r.inner matches ListenerFutureState::Await { listener } && listener.inner == inner
                && listener.state@ is Start,
    {
        let listener = Listener { inner, state: State::Start };
        ListenerFuture { inner: ListenerFutureState::Await { listener } }
    }

    /// Grants back the connection, typically after a protocol was agreed on.
    pub fn into_inner(self) -> (r: R)
        ensures
            r == self.inner,
    {
        self.inner
    }

    /// One step of sending a message.
    pub fn start_send<N: ProtocolName, E>(
        &mut self,
        item: ListenerToDialerMessage<N>,
        input: SendInput<E>,
    ) -> (r: SendAction<ListenerToDialerMessage<N>, E>)
        requires
            accepts(old(self).state@, item@, input),
        ensures
            (final(self).state@, r@) == send_step(old(self).state@, item@, item, input),
            final(self).inner == old(self).inner,
    {
        let n: usize = match input {
            SendInput::Start => 0,
            SendInput::Written(Ok(Async::Ready(n))) => n,
            SendInput::Written(Ok(Async::NotReady)) => {
                return SendAction::Return(Ok(AsyncSink::NotReady(item)));
            },
            SendInput::Written(Err(e)) => {
                return SendAction::Return(Err(MultistreamSelectError::IoError(e)));
            },
        };
        let start: bool = match input {
            SendInput::Start => true,
            SendInput::Written(_) => false,
        };
        if let ListenerToDialerMessage::ProtocolsListResponse { list } = &item {
            if let State::Start = &self.state {
                let out_msg: Vec<u8> = encode_list(list);
                self.state = State::List(out_msg, 0);
            }
        } else {
            if let State::Start = &self.state {
                self.state = State::Message(0);
            }
        }
        let mut finished: bool = false;
        let mut bytes: Vec<u8> = Vec::new();
        match &mut self.state {
            State::Start => {},
            State::Message(offset) => {
                let payload: Vec<u8> = match &item {
                    ListenerToDialerMessage::ProtocolAck { name } => {
                        let name = name.protocol_name();
                        if name.len() == 0 || name[0] != '/' as u8 {
                            return SendAction::Return(Err(MultistreamSelectError::WrongProtocolName));
                        }
                        crate::protocol_name::copy_name(name)
                    },
                    _ => {
                        let na: Vec<u8> = vec!['n' as u8, 'a' as u8];
                        assert(na@ =~= seq!['n' as u8, 'a' as u8]);
                        na
                    },
                };
                *offset = *offset + n;
                if !start && *offset >= payload.len() {
                    finished = true;
                } else {
                    bytes = rest_of(payload.as_slice(), *offset);
                }
            },
            State::List(list, offset) => {
                *offset = *offset + n;
                if !start && *offset >= list.len() {
                    finished = true;
                } else {
                    bytes = rest_of(list.as_slice(), *offset);
                }
            },
        }
        if finished {
            self.state = State::Start;
            SendAction::Return(Ok(AsyncSink::Ready))
        } else {
            SendAction::Write { item, bytes }
        }
    }

    /// Makes a message of the next frame.
    pub fn poll<E>(&mut self, polled: Poll<Option<Vec<u8>>, E>) -> (r: Poll<
        Option<DialerToListenerMessage<Vec<u8>>>,
        MultistreamSelectError<E>,
    >)
        ensures
            polled_message(r) == receive(
                crate::multistream_select::protocol::polled_frame(polled),
            ),
            *final(self) == *old(self),
    {
        let frame: Vec<u8> = match polled {
            Ok(Async::Ready(Some(frame))) => frame,
            Ok(Async::Ready(None)) => {
                return Ok(Async::Ready(None));
            },
            Ok(Async::NotReady) => {
                return Ok(Async::NotReady);
            },
            Err(err) => {
                return Err(MultistreamSelectError::IoError(err));
            },
        };
        let n: usize = frame.len();
        if n > 0 && frame[0] == '/' as u8 && frame[n - 1] == '\n' as u8 {
            let mut name: Vec<u8> = frame;
            name.pop();
            assert(name@ =~= frame@.drop_last());
            Ok(Async::Ready(Some(DialerToListenerMessage::ProtocolRequest { name })))
        } else {
            let ls: Vec<u8> = vec!['l' as u8, 's' as u8, '\n' as u8];
            assert(ls@ =~= seq!['l' as u8, 's' as u8, '\n' as u8]);
            if same_bytes(frame.as_slice(), ls.as_slice()) {
                Ok(Async::Ready(Some(DialerToListenerMessage::ProtocolsListRequest)))
            } else {
                Err(MultistreamSelectError::UnknownMessage)
            }
        }
    }
}

/// Performs the handshake and gives the [`Listener`].
#[derive(Debug, PartialEq, Eq)]
pub struct ListenerFuture<R> {
    /// How far the handshake has come.
    pub inner: ListenerFutureState<R>,
}

/// How far the handshake has come.
#[derive(Debug, PartialEq, Eq)]
#[allow(inconsistent_fields)]
pub enum ListenerFutureState<R> {
    /// The first message of the dialer has not come.
    Await {
        /// The listener.
        listener: Listener<R>,
    },
    /// The answer is being sent.
    Reply {
        /// The listener.
        listener: Listener<R>,
    },
    /// The handshake is over.
    Undefined,
}

/// What [`ListenerFuture::poll`] is told.
#[derive(Debug, PartialEq, Eq)]
pub enum HandshakeInput<E> {
    /// Start, or go on.
    Start,
    /// Outcome of reading a frame.
    Received(Poll<Option<Vec<u8>>, E>),
    /// Outcome of sending the answer.
    Sent(Poll<(), E>),
}

/// What [`ListenerFuture::poll`] wants to be done.
#[derive(Debug, PartialEq, Eq)]
pub enum HandshakeAction<R, E> {
    /// Read a frame.
    Receive,
    /// Begin to send the message.
    Send(Vec<u8>),
    /// Go on with sending the message.
    PollSend,
    /// The listener is there, or is not there yet.
    Return(Poll<Listener<R>, MultistreamSelectError<E>>),
}

/// A [`HandshakeAction`] by what it says.
pub enum HandshakeStep<R, E> {
    /// Read a frame.
    Receive,
    /// Begin to send the message.
    Send(Seq<u8>),
    /// Go on with sending the message.
    PollSend,
    /// The listener is there, or is not there yet.
    Return(Poll<Listener<R>, MultistreamSelectError<E>>),
}

impl<R, E> View for HandshakeAction<R, E> {
    type V = HandshakeStep<R, E>;

    open spec fn view(&self) -> HandshakeStep<R, E> {
        match self {
            HandshakeAction::Receive => HandshakeStep::Receive,
            HandshakeAction::Send(message) => HandshakeStep::Send(message@),
            HandshakeAction::PollSend => HandshakeStep::PollSend,
            HandshakeAction::Return(r) => HandshakeStep::Return(*r),
        }
    }
}

/// The input can follow in this state.
pub open spec fn handshake_accepts<R, E>(
    state: ListenerFutureState<R>,
    input: HandshakeInput<E>,
) -> bool {
    match state {
        ListenerFutureState::Await { .. } => !(input is Sent),
        ListenerFutureState::Reply { .. } => !(input is Received),
        ListenerFutureState::Undefined => false,
    }
}

/// One step of the handshake.
pub open spec fn handshake_step<R, E>(
    state: ListenerFutureState<R>,
    input: HandshakeInput<E>,
) -> (ListenerFutureState<R>, HandshakeStep<R, E>) {
    match (state, input) {
        (ListenerFutureState::Await { .. }, HandshakeInput::Start) => (
            state,
            HandshakeStep::Receive,
        ),
        (ListenerFutureState::Await { listener }, HandshakeInput::Received(polled)) =>
            match polled {
                Ok(Async::Ready(msg)) => if msg is Some && msg->Some_0@
                    == crate::multistream_select::protocol::with_lf(
                    crate::multistream_select::protocol::multistream_protocol(),
                ) {
                    (
                        ListenerFutureState::Reply { listener },
                        HandshakeStep::Send(
                            crate::multistream_select::protocol::multistream_protocol(),
                        ),
                    )
                } else {
                    (
                        ListenerFutureState::Undefined,
                        HandshakeStep::Return(Err(MultistreamSelectError::FailedHandshake)),
                    )
                },
                Ok(Async::NotReady) => (state, HandshakeStep::Return(Ok(Async::NotReady))),
                Err(e) => (
                    ListenerFutureState::Undefined,
                    HandshakeStep::Return(Err(MultistreamSelectError::IoError(e))),
                ),
            },
        (ListenerFutureState::Reply { .. }, HandshakeInput::Start) => (
            state,
            HandshakeStep::PollSend,
        ),
        (ListenerFutureState::Reply { listener }, HandshakeInput::Sent(polled)) => match polled {
            Ok(Async::Ready(())) => (
                ListenerFutureState::Undefined,
                HandshakeStep::Return(Ok(Async::Ready(listener))),
            ),
            Ok(Async::NotReady) => (state, HandshakeStep::Return(Ok(Async::NotReady))),
            Err(e) => (
                ListenerFutureState::Undefined,
                HandshakeStep::Return(Err(MultistreamSelectError::IoError(e))),
            ),
        },
        _ => (state, HandshakeStep::Return(Ok(Async::NotReady))),
    }
}

impl<R> ListenerFuture<R> {
    /// One step of the handshake.
    pub fn poll<E>(&mut self, input: HandshakeInput<E>) -> (r: HandshakeAction<R, E>)
        requires
            handshake_accepts(old(self).inner, input),
        ensures
            (final(self).inner, r@) == handshake_step(old(self).inner, input),
    {
        let mut state: ListenerFutureState<R> = ListenerFutureState::Undefined;
        std::mem::swap(&mut self.inner, &mut state);
        match state {
            ListenerFutureState::Await { listener } => match input {
                HandshakeInput::Received(Ok(Async::Ready(msg))) => {
                    let mut expected: Vec<u8> = multistream_protocol_bytes();
                    expected.push('\n' as u8);
                    let same: bool = match &msg {
                        Some(frame) => same_bytes(frame.as_slice(), expected.as_slice()),
                        None => false,
                    };
                    if !same {
                        return HandshakeAction::Return(Err(MultistreamSelectError::FailedHandshake));
                    }
                    self.inner = ListenerFutureState::Reply { listener };
                    HandshakeAction::Send(multistream_protocol_bytes())
                },
                HandshakeInput::Received(Err(e)) => HandshakeAction::Return(
                    Err(MultistreamSelectError::IoError(e)),
                ),
                HandshakeInput::Received(Ok(Async::NotReady)) => {
                    self.inner = ListenerFutureState::Await { listener };
                    HandshakeAction::Return(Ok(Async::NotReady))
                },
                _ => {
                    self.inner = ListenerFutureState::Await { listener };
                    HandshakeAction::Receive
                },
            },
            ListenerFutureState::Reply { listener } => match input {
                HandshakeInput::Sent(Ok(Async::Ready(_))) => HandshakeAction::Return(
                    Ok(Async::Ready(listener)),
                ),
                HandshakeInput::Sent(Err(e)) => HandshakeAction::Return(
                    Err(MultistreamSelectError::IoError(e)),
                ),
                HandshakeInput::Sent(Ok(Async::NotReady)) => {
                    self.inner = ListenerFutureState::Reply { listener };
                    HandshakeAction::Return(Ok(Async::NotReady))
                },
                _ => {
                    self.inner = ListenerFutureState::Reply { listener };
                    HandshakeAction::PollSend
                },
            },
            ListenerFutureState::Undefined => HandshakeAction::Return(Ok(Async::NotReady)),
        }
    }
}

} // verus!
