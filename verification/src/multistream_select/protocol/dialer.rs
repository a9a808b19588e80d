//! The dialer's side.

use crate::async_value::{Async, AsyncSink, Poll};
use crate::multistream_select::protocol::{
    multistream_protocol_bytes, rest_of, varint_text, DialerMessage, DialerToListenerMessage,
    ListenerMessage, ListenerToDialerMessage, MultistreamSelectError, ReceiveAction, SendAction,
    SendInput, SendStep,
};
use crate::address::same_bytes;
use crate::protocol_name::{copy_name, ProtocolName};
use crate::varint::decode_usize;
use vstd::prelude::*;

verus! {

/// How far a message has been sent.
#[derive(Debug, Clone, Copy, PartialEq, Eq, Structural)]
pub enum State {
    /// Nothing is being sent.
    Start,
    /// So many bytes of the message have been sent.
    Message(usize),
}

/// The dialer's side of a connection.
///
/// `R` reads and writes frames.
#[derive(Debug, PartialEq, Eq)]
pub struct Dialer<R> {
    /// The connection.
    pub inner: R,
    /// Has the first message of the listener come?
    pub handshake_finished: bool,
    /// How far a message has been sent.
    pub state: State,
}

/// What a message of the dialer is made of.
pub open spec fn payload(message: DialerMessage) -> Seq<u8> {
    match message {
        DialerMessage::Request(name) => name,
        DialerMessage::List => seq!['l' as u8, 's' as u8],
    }
}

/// A protocol name that does not start with a slash is not sent.
pub open spec fn sendable(message: DialerMessage) -> bool {
    match message {
        DialerMessage::Request(name) => name.len() > 0
            && name[0] == '/' as u8,
        DialerMessage::List => true,
    }
}

/// How much of the message has been sent.
pub open spec fn sent(state: State) -> nat {
    match state {
        State::Start => 0,
        State::Message(offset) => offset as nat,
    }
}

/// One step of sending a message, which is handed back as `item` where it is needed again.
pub open spec fn send_step<M, E>(
    state: State,
    message: DialerMessage,
    item: M,
    input: SendInput<E>,
) -> (State, SendStep<M, E>) {
    let bytes = payload(message);
    match input {
        SendInput::Start => {
            let next = State::Message(sent(state) as usize);
            if !sendable(message) {
                (
                    next,
                    SendStep::Return(
                        Err(MultistreamSelectError::WrongProtocolName),
                    ),
                )
            } else {
                (
                    next,
                    SendStep::Write(
                        item,
                        bytes.skip(sent(state) as int),
                    ),
                )
            }
        },
        SendInput::Written(Ok(Async::Ready(n))) => if sent(state) + n >= bytes.len() {
            (
                State::Start,
                SendStep::Return(Ok(AsyncSink::Ready)),
            )
        } else {
            (
                State::Message((sent(state) + n) as usize),
                SendStep::Write(
                    item,
                    bytes.skip(sent(state) + n),
                ),
            )
        },
        SendInput::Written(Ok(Async::NotReady)) => (
            state,
            SendStep::Return(Ok(AsyncSink::NotReady(item))),
        ),
        SendInput::Written(Err(e)) => (
            state,
            SendStep::Return(
                Err(MultistreamSelectError::IoError(e)),
            ),
        ),
    }
}

/// The names in a list of `k` protocols.
pub open spec fn parse_names<E>(s: Seq<u8>, k: nat) -> Result<
    Seq<Seq<u8>>,
    MultistreamSelectError<E>,
>
    decreases k,
{
    if k == 0 {
        Ok(Seq::empty())
    } else {
        match crate::varint::uvi_decode_usize(s) {
            Err(e) => Err(
                MultistreamSelectError::VarintParseError(
                    crate::multistream_select::protocol::varint_message(e),
                ),
            ),
            Ok((len, rem)) => if len == 0 || len > rem.len() || rem[len - 1] != '\n' as u8 {
                Err(MultistreamSelectError::UnknownMessage)
            } else {
                match parse_names::<E>(rem.skip(len as int), (k - 1) as nat) {
                    Err(e) => Err(e),
                    Ok(names) => Ok(seq![rem.take(len - 1)] + names),
                }
            },
        }
    }
}

/// The frame `na` with a newline.
pub open spec fn not_available_frame() -> Seq<u8> {
    seq!['n' as u8, 'a' as u8, '\n' as u8]
}

/// Greatest number of protocols in a list.
pub const MAX_PROTOCOLS: usize = 1000;

/// What a frame of the listener says.
pub open spec fn parse<E>(frame: Seq<u8>) -> Result<
    ListenerMessage,
    MultistreamSelectError<E>,
> {
    if crate::multistream_select::protocol::is_name_frame(frame) {
        Ok(ListenerMessage::Ack(frame.drop_last()))
    } else if frame == not_available_frame() {
        Ok(ListenerMessage::NotAvailable)
    } else {
        match crate::varint::uvi_decode_usize(frame) {
            Err(e) => Err(
                MultistreamSelectError::VarintParseError(
                    crate::multistream_select::protocol::varint_message(e),
                ),
            ),
            Ok((n, rest)) => if n > MAX_PROTOCOLS {
                Err(MultistreamSelectError::VarintParseError("too many protocols"))
            } else {
                match parse_names::<E>(rest.skip(1), n) {
                    Err(e) => Err(e),
                    Ok(names) => Ok(
                        ListenerMessage::List(names),
                    ),
                }
            },
        }
    }
}

/// A number of protocols that can be a list is followed by something.
pub open spec fn is_readable(frame: Seq<u8>) -> bool {
    crate::multistream_select::protocol::is_name_frame(frame) || frame == not_available_frame()
        || match crate::varint::uvi_decode_usize(frame) {
        Err(_) => true,
        Ok((n, rest)) => n > MAX_PROTOCOLS || rest.len() > 0,
    }
}

/// What is made of the next frame.
pub open spec fn receive<E>(handshake_finished: bool, polled: Poll<Option<Seq<u8>>, E>) -> (
    bool,
    ReceiveAction<ListenerMessage, E>,
) {
    match polled {
        Ok(Async::Ready(Some(frame))) => if !handshake_finished {
            if frame == crate::multistream_select::protocol::with_lf(
                crate::multistream_select::protocol::multistream_protocol(),
            ) {
                (true, ReceiveAction::ReadFrame)
            } else {
                (false, ReceiveAction::Return(Err(MultistreamSelectError::FailedHandshake)))
            }
        } else {
            match parse(frame) {
                Ok(m) => (true, ReceiveAction::Return(Ok(Async::Ready(Some(m))))),
                Err(e) => (true, ReceiveAction::Return(Err(e))),
            }
        },
        Ok(Async::Ready(None)) => (
            handshake_finished,
            ReceiveAction::Return(Ok(Async::Ready(None))),
        ),
        Ok(Async::NotReady) => (handshake_finished, ReceiveAction::Return(Ok(Async::NotReady))),
        Err(e) => (
            handshake_finished,
            ReceiveAction::Return(Err(MultistreamSelectError::IoError(e))),
        ),
    }
}

/// Is a protocol name followed by a newline?
fn name_frame(frame: &Vec<u8>) -> (r: bool)
    ensures
        r == crate::multistream_select::protocol::is_name_frame(frame@),
{
    let n: usize = frame.len();
    n > 0 && frame[0] == '/' as u8 && frame[n - 1] == '\n' as u8
}

fn not_available(frame: &Vec<u8>) -> (r: bool)
    ensures
        r == (frame@ == not_available_frame()),
{
    let r = frame.len() == 3 && frame[0] == 'n' as u8 && frame[1] == 'a' as u8 && frame[2] == '\n' as u8;
    assert(r ==> frame@ =~= not_available_frame());
    r
}

/// Can [`Dialer::poll`] read the frame?
pub fn readable(frame: &Vec<u8>) -> (r: bool)
    ensures
        r == is_readable(frame@),
{
    if name_frame(frame) || not_available(frame) {
        return true;
    }
    match decode_usize(frame.as_slice()) {
        Err(_) => true,
        Ok((n, rest)) => n > MAX_PROTOCOLS || rest.len() > 0,
    }
}

fn read_names<E>(bytes: &[u8], num_protocols: usize) -> (r: Result<
    Vec<Vec<u8>>,
    MultistreamSelectError<E>,
>)
    ensures
        match parse_names::<E>(bytes@, num_protocols as nat) {
            Ok(names) => r matches Ok(v) && crate::protocol_name::names(v@) == names,
            Err(e) => r == Err::<Vec<Vec<u8>>, MultistreamSelectError<E>>(e),
        },
{
    let mut out: Vec<Vec<u8>> = Vec::new();
    let mut remaining: &[u8] = bytes;
    let mut i: usize = 0;
    assert(crate::protocol_name::names(out@) =~= Seq::<Seq<u8>>::empty());
    proof {
        lemma_prefix(Seq::<Seq<u8>>::empty(), parse_names::<E>(bytes@, num_protocols as nat));
    }
    while i < num_protocols
        invariant
            i <= num_protocols,
            parse_names::<E>(bytes@, num_protocols as nat) == prefixed(
                crate::protocol_name::names(out@),
                parse_names::<E>(remaining@, (num_protocols - i) as nat),
            ),
        decreases num_protocols - i,
    {
        let ghost before = crate::protocol_name::names(out@);
        let ghost rest = parse_names::<E>(remaining@, (num_protocols - i) as nat);
        match decode_usize(remaining) {
            Err(e) => {
                return Err(MultistreamSelectError::VarintParseError(varint_text(e)));
            },
            Ok((len, rem)) => {
                if len == 0 || len > rem.len() || rem[len - 1] != '\n' as u8 {
                    return Err(MultistreamSelectError::UnknownMessage);
                }
                let name = vstd::slice::slice_subrange(rem, 0, len - 1);
                let copy: Vec<u8> = copy_name(name);
                out.push(copy);
                remaining = vstd::slice::slice_subrange(rem, len, rem.len());
                proof {
                    assert(name@ =~= rem@.take(len - 1));
                    assert(remaining@ =~= rem@.skip(len as int));
                    assert(crate::protocol_name::names(out@) =~= before + seq![name@]);
                    let tail = parse_names::<E>(remaining@, (num_protocols - i - 1) as nat);
                    match tail {
                        Ok(t) => {
                            assert(before + (seq![name@] + t) =~= (before + seq![name@]) + t);
                        },
                        Err(_) => {},
                    }
                }
                i += 1;
            },
        }
    }
    assert(crate::protocol_name::names(out@) + Seq::<Seq<u8>>::empty()
        =~= crate::protocol_name::names(out@));
    Ok(out)
}

/// The names with others in front.
spec fn prefixed<E>(
    front: Seq<Seq<u8>>,
    r: Result<Seq<Seq<u8>>, MultistreamSelectError<E>>,
) -> Result<Seq<Seq<u8>>, MultistreamSelectError<E>> {
    match r {
        Ok(names) => Ok(front + names),
        Err(e) => Err(e),
    }
}

proof fn lemma_prefix<E>(
    front: Seq<Seq<u8>>,
    r: Result<Seq<Seq<u8>>, MultistreamSelectError<E>>,
)
    requires
        front.len() == 0,
    ensures
        prefixed(front, r) == r,
{
    match r {
        Ok(names) => {
            assert(front + names =~= names);
        },
        Err(_) => {},
    }
}

impl<R> Dialer<R> {
    /// Starts the handshake on a connection.
    pub fn new(inner: R) -> (r: DialerFuture<R>)
        ensures
            r == (DialerFuture {
                dialer: Some(Dialer { inner, handshake_finished: false, state: State::Start }),
                offset: 0,
            }),
    {
        let dialer = Dialer { inner, handshake_finished: false, state: State::Start };
        DialerFuture { dialer: Some(dialer), offset: 0 }
    }

    /// Grants back the connection, typically after the listener has agreed.
    pub fn into_inner(self) -> (r: R)
        ensures
            r == self.inner,
    {
        self.inner
    }

    /// One step of sending a message.
    pub fn start_send<N: ProtocolName, E>(
        &mut self,
        item: DialerToListenerMessage<N>,
        input: SendInput<E>,
    ) -> (r: SendAction<DialerToListenerMessage<N>, E>)
        requires
            sendable(item@) ==> sent(old(self).state) <= payload(item@).len(),
            input is Written ==> old(self).state is Message && sendable(item@),
            input matches SendInput::Written(Ok(Async::Ready(n))) ==> sent(old(self).state) + n
                <= usize::MAX,
        ensures
            (final(self).state, r@) == send_step(old(self).state, item@, item, input),
            final(self).inner == old(self).inner,
            final(self).handshake_finished == old(self).handshake_finished,
    {
        match input {
            SendInput::Start => {},
            SendInput::Written(Ok(Async::Ready(n))) => {
                let offset: usize = match self.state {
                    State::Start => 0,
                    State::Message(offset) => offset,
                };
                let len: usize = match &item {
                    DialerToListenerMessage::ProtocolRequest { name } => name.protocol_name().len(),
                    DialerToListenerMessage::ProtocolsListRequest => 2,
                };
                if offset + n >= len {
                    self.state = State::Start;
                    return SendAction::Return(Ok(AsyncSink::Ready));
                }
                self.state = State::Message(offset + n);
            },
            SendInput::Written(Ok(Async::NotReady)) => {
                return SendAction::Return(Ok(AsyncSink::NotReady(item)));
            },
            SendInput::Written(Err(e)) => {
                return SendAction::Return(Err(MultistreamSelectError::IoError(e)));
            },
        }
        let offset: usize = match self.state {
            State::Start => 0,
            State::Message(offset) => offset,
        };
        self.state = State::Message(offset);
        let bytes: Vec<u8> = match &item {
            DialerToListenerMessage::ProtocolRequest { name } => {
                let name = name.protocol_name();
                if name.len() == 0 || name[0] != '/' as u8 {
                    return SendAction::Return(Err(MultistreamSelectError::WrongProtocolName));
                }
                rest_of(name, offset)
            },
            DialerToListenerMessage::ProtocolsListRequest => {
                let ls: Vec<u8> = vec!['l' as u8, 's' as u8];
                assert(ls@ =~= payload(item@));
                rest_of(ls.as_slice(), offset)
            },
        };
        SendAction::Write { item, bytes }
    }

    /// Makes a message of the next frame.
    pub fn poll<E>(&mut self, polled: Poll<Option<Vec<u8>>, E>) -> (r: ReceiveAction<
        ListenerToDialerMessage<Vec<u8>>,
        E,
    >)
        requires
            old(self).handshake_finished ==> (polled matches Ok(Async::Ready(Some(frame)))
                ==> is_readable(frame@)),
        ensures
            (final(self).handshake_finished, r@) == receive(
                old(self).handshake_finished,
                crate::multistream_select::protocol::polled_frame(polled),
            ),
            final(self).inner == old(self).inner,
            final(self).state == old(self).state,
    {
        let frame: Vec<u8> = match polled {
            Ok(Async::Ready(Some(frame))) => frame,
            Ok(Async::Ready(None)) => {
                return ReceiveAction::Return(Ok(Async::Ready(None)));
            },
            Ok(Async::NotReady) => {
                return ReceiveAction::Return(Ok(Async::NotReady));
            },
            Err(err) => {
                return ReceiveAction::Return(Err(MultistreamSelectError::IoError(err)));
            },
        };
        if !self.handshake_finished {
            let mut expected: Vec<u8> = multistream_protocol_bytes();
            expected.push('\n' as u8);
            if same_bytes(frame.as_slice(), expected.as_slice()) {
                self.handshake_finished = true;
                return ReceiveAction::ReadFrame;
            } else {
                return ReceiveAction::Return(Err(MultistreamSelectError::FailedHandshake));
            }
        }
        if name_frame(&frame) {
            let mut name: Vec<u8> = frame;
            name.pop();
            assert(name@ =~= frame@.drop_last());
            ReceiveAction::Return(
                Ok(Async::Ready(Some(ListenerToDialerMessage::ProtocolAck { name }))),
            )
        } else if not_available(&frame) {
            ReceiveAction::Return(Ok(Async::Ready(Some(ListenerToDialerMessage::NotAvailable))))
        } else {
            match decode_usize(frame.as_slice()) {
                Err(e) => ReceiveAction::Return(
                    Err(MultistreamSelectError::VarintParseError(varint_text(e))),
                ),
                Ok((num_protocols, remaining)) => {
                    if num_protocols > MAX_PROTOCOLS {
                        return ReceiveAction::Return(
                            Err(MultistreamSelectError::VarintParseError("too many protocols")),
                        );
                    }
                    let after = vstd::slice::slice_subrange(remaining, 1, remaining.len());
                    assert(after@ =~= remaining@.skip(1));
                    match read_names(after, num_protocols) {
                        Err(e) => ReceiveAction::Return(Err(e)),
                        Ok(list) => ReceiveAction::Return(
                            Ok(
                                Async::Ready(
                                    Some(ListenerToDialerMessage::ProtocolsListResponse { list }),
                                ),
                            ),
                        ),
                    }
                },
            }
        }
    }
}

/// Sends the first message and gives the [`Dialer`].
#[derive(Debug, PartialEq, Eq)]
pub struct DialerFuture<R> {
    /// The dialer, while nothing is being done with it.
    pub dialer: Option<Dialer<R>>,
    /// How much of the message has been sent.
    pub offset: usize,
}

/// What [`DialerFuture::poll`] is told.
#[derive(Debug, PartialEq, Eq)]
pub enum HandshakeInput<R, E> {
    /// Start, or go on.
    Start,
    /// Outcome of a write, with the dialer.
    Written(Dialer<R>, Poll<usize, E>),
    /// Outcome of a flush, with the dialer.
    Flushed(Dialer<R>, Poll<(), E>),
}

/// What [`DialerFuture::poll`] wants to be done.
#[derive(Debug, PartialEq, Eq)]
pub enum HandshakeAction<R, E> {
    /// Write the bytes to the connection of the dialer.
    Write(Dialer<R>, Vec<u8>),
    /// Flush the connection of the dialer.
    Flush(Dialer<R>),
    /// The dialer is there, or is not there yet.
    Return(Poll<Dialer<R>, MultistreamSelectError<E>>),
}

/// A [`HandshakeAction`] by what it says.
pub enum HandshakeStep<R, E> {
    /// Write the bytes to the connection of the dialer.
    Write(Dialer<R>, Seq<u8>),
    /// Flush the connection of the dialer.
    Flush(Dialer<R>),
    /// The dialer is there, or is not there yet.
    Return(Poll<Dialer<R>, MultistreamSelectError<E>>),
}

impl<R, E> View for HandshakeAction<R, E> {
    type V = HandshakeStep<R, E>;

    open spec fn view(&self) -> HandshakeStep<R, E> {
        match self {
            HandshakeAction::Write(d, bytes) => HandshakeStep::Write(*d, bytes@),
            HandshakeAction::Flush(d) => HandshakeStep::Flush(*d),
            HandshakeAction::Return(r) => HandshakeStep::Return(*r),
        }
    }
}

/// What is to be done next when `offset` bytes of the first message have been sent.
pub open spec fn handshake_next<R, E>(d: Dialer<R>, offset: usize) -> HandshakeStep<R, E> {
    let message = crate::multistream_select::protocol::multistream_protocol();
    if offset >= message.len() {
        HandshakeStep::Flush(d)
    } else {
        HandshakeStep::Write(d, message.skip(offset as int))
    }
}

/// One step of the handshake.
pub open spec fn handshake_step<R, E>(f: DialerFuture<R>, input: HandshakeInput<R, E>) -> (
    DialerFuture<R>,
    HandshakeStep<R, E>,
) {
    match input {
        HandshakeInput::Start => (
            DialerFuture { dialer: None, offset: f.offset },
            handshake_next(f.dialer->Some_0, f.offset),
        ),
        HandshakeInput::Written(d, Ok(Async::Ready(n))) => {
            let offset = (f.offset + n) as usize;
            (DialerFuture { dialer: f.dialer, offset }, handshake_next(d, offset))
        },
        HandshakeInput::Written(d, Ok(Async::NotReady)) => (
            DialerFuture { dialer: Some(d), offset: f.offset },
            HandshakeStep::Return(Ok(Async::NotReady)),
        ),
        HandshakeInput::Written(_, Err(e)) => (
            f,
            HandshakeStep::Return(Err(MultistreamSelectError::IoError(e))),
        ),
        HandshakeInput::Flushed(d, Ok(Async::Ready(()))) => (
            f,
            HandshakeStep::Return(Ok(Async::Ready(d))),
        ),
        HandshakeInput::Flushed(d, Ok(Async::NotReady)) => (f, handshake_next(d, f.offset)),
        HandshakeInput::Flushed(_, Err(e)) => (
            f,
            HandshakeStep::Return(Err(MultistreamSelectError::IoError(e))),
        ),
    }
}

impl<R> DialerFuture<R> {
    /// One step of the handshake.
    ///
    /// A dialer that was handed out to be written to or flushed comes back with the outcome. If
    /// the connection cannot take the message now, the dialer is kept for the next
    /// [`HandshakeInput::Start`], which goes on with what has not been sent.
    pub fn poll<E>(&mut self, input: HandshakeInput<R, E>) -> (r: HandshakeAction<R, E>)
        requires
            input is Start ==> old(self).dialer is Some,
            input matches HandshakeInput::Written(_, Ok(Async::Ready(n))) ==> old(self).offset + n
                <= usize::MAX,
        ensures
            (*final(self), r@) == handshake_step(*old(self), input),
    {
        let d: Dialer<R> = match input {
            HandshakeInput::Start => self.dialer.take().unwrap(),
            HandshakeInput::Written(d, Ok(Async::Ready(n))) => {
                self.offset += n;
                d
            },
            HandshakeInput::Written(d, Ok(Async::NotReady)) => {
                self.dialer = Some(d);
                return HandshakeAction::Return(Ok(Async::NotReady));
            },
            HandshakeInput::Written(_, Err(e)) => {
                return HandshakeAction::Return(Err(MultistreamSelectError::IoError(e)));
            },
            HandshakeInput::Flushed(d, Ok(Async::Ready(_))) => {
                return HandshakeAction::Return(Ok(Async::Ready(d)));
            },
            HandshakeInput::Flushed(d, Ok(Async::NotReady)) => d,
            HandshakeInput::Flushed(_, Err(e)) => {
                return HandshakeAction::Return(Err(MultistreamSelectError::IoError(e)));
            },
        };
        let message: Vec<u8> = multistream_protocol_bytes();
        if self.offset >= message.len() {
            HandshakeAction::Flush(d)
        } else {
            HandshakeAction::Write(d, rest_of(message.as_slice(), self.offset))
        }
    }
}

} // verus!
