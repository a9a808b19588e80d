//! The messages that both sides exchange, and how they stand on the wire.

pub mod dialer;
pub mod listener;

use crate::async_value::{Async, AsyncSink, Poll};
use crate::protocol_name::ProtocolName;
use crate::varint::{encode_usize, UviError};
use vstd::prelude::*;

verus! {

/// A message of the dialer.
#[derive(Debug, PartialEq, Eq)]
pub enum DialerToListenerMessage<N> {
    /// The dialer wants to use the protocol.
    ProtocolRequest {
        /// The name of the protocol.
        name: N,
    },
    /// The dialer wants to know all protocols.
    ProtocolsListRequest,
}

/// A message of the listener.
#[derive(Debug, PartialEq, Eq)]
pub enum ListenerToDialerMessage<N> {
    /// The protocol that the dialer wants is used from now on.
    ProtocolAck {
        /// The name of the protocol.
        name: N,
    },
    /// The protocol that the dialer wants is not there.
    NotAvailable,
    /// All protocols.
    ProtocolsListResponse {
        /// The names of the protocols.
        list: Vec<N>,
    },
}

/// What can go wrong with the messages.
#[derive(Debug, PartialEq, Eq)]
pub enum MultistreamSelectError<E> {
    /// The connection has failed.
    IoError(E),
    /// The remote does not speak this protocol.
    FailedHandshake,
    /// The message makes no sense.
    UnknownMessage,
    /// A protocol name does not start with a slash.
    WrongProtocolName,
    /// A number could not be read or is too large.
    VarintParseError(&'static str),
}

/// A message of the dialer, by what it says.
pub enum DialerMessage {
    /// The dialer wants to use the protocol.
    Request(Seq<u8>),
    /// The dialer wants to know all protocols.
    List,
}

/// A message of the listener, by what it says.
pub enum ListenerMessage {
    /// The protocol that the dialer wants is used from now on.
    Ack(Seq<u8>),
    /// The protocol that the dialer wants is not there.
    NotAvailable,
    /// All protocols.
    List(Seq<Seq<u8>>),
}

impl<N: ProtocolName> View for DialerToListenerMessage<N> {
    type V = DialerMessage;

    open spec fn view(&self) -> DialerMessage {
        match self {
            DialerToListenerMessage::ProtocolRequest { name } => DialerMessage::Request(name.name()),
            DialerToListenerMessage::ProtocolsListRequest => DialerMessage::List,
        }
    }
}

impl<N: ProtocolName> View for ListenerToDialerMessage<N> {
    type V = ListenerMessage;

    open spec fn view(&self) -> ListenerMessage {
        match self {
            ListenerToDialerMessage::ProtocolAck { name } => ListenerMessage::Ack(name.name()),
            ListenerToDialerMessage::NotAvailable => ListenerMessage::NotAvailable,
            ListenerToDialerMessage::ProtocolsListResponse { list } => ListenerMessage::List(
                crate::protocol_name::names(list@),
            ),
        }
    }
}

/// The first message of both sides: `/multistream/1.0.0`.
pub open spec fn multistream_protocol() -> Seq<u8> {
    seq![
        '/' as u8, 'm' as u8, 'u' as u8, 'l' as u8, 't' as u8, 'i' as u8, 's' as u8, 't' as u8, 'r' as u8, 'e' as u8, 'a' as u8, 'm' as u8, '/' as u8, '1' as u8, '.' as u8,
        '0' as u8, '.' as u8, '0' as u8,
    ]
}

/// The first message of both sides.
pub fn multistream_protocol_bytes() -> (r: Vec<u8>)
    ensures
        r@ == multistream_protocol(),
{
    let r: Vec<u8> = vec![
        '/' as u8, 'm' as u8, 'u' as u8, 'l' as u8, 't' as u8, 'i' as u8, 's' as u8, 't' as u8, 'r' as u8, 'e' as u8, 'a' as u8, 'm' as u8, '/' as u8, '1' as u8, '.' as u8,
        '0' as u8, '.' as u8, '0' as u8,
    ];
    assert(r@ =~= multistream_protocol());
    r
}

/// A message as it is framed: with a newline at the end.
pub open spec fn with_lf(payload: Seq<u8>) -> Seq<u8> {
    payload.push('\n' as u8)
}

/// A frame on the wire: its length, the message, a newline.
pub open spec fn frame(payload: Seq<u8>) -> Seq<u8> {
    crate::varint::uvi(with_lf(payload).len()) + with_lf(payload)
}

/// The frame of a message.
pub fn encode_frame(payload: &[u8]) -> (r: Vec<u8>)
    requires
        payload@.len() < usize::MAX,
    ensures
        r@ == frame(payload@),
{
    let mut r: Vec<u8> = encode_usize(payload.len() + 1);
    r.extend_from_slice(payload);
    r.push('\n' as u8);
    assert(r@ =~= frame(payload@));
    r
}

/// What is said of a number that could not be read.
pub open spec fn varint_message(e: UviError) -> &'static str {
    match e {
        UviError::Insufficient => "not enough input bytes",
        UviError::Overflow => "input bytes exceed maximum",
    }
}

fn varint_text(e: UviError) -> (r: &'static str)
    ensures
        r == varint_message(e),
{
    match e {
        UviError::Insufficient => "not enough input bytes",
        UviError::Overflow => "input bytes exceed maximum",
    }
}

/// What the sending of a message is told.
#[derive(Debug, PartialEq, Eq)]
pub enum SendInput<E> {
    /// Send the message, or go on with it.
    Start,
    /// Outcome of a write: how many bytes were taken.
    Written(Poll<usize, E>),
}

/// What the sending of a message wants to be done.
#[derive(Debug, PartialEq, Eq)]
pub enum SendAction<M, E> {
    /// Write the bytes.
    Write {
        /// The message, to be handed in again.
        item: M,
        /// The bytes.
        bytes: Vec<u8>,
    },
    /// The sending is over, or cannot go on now.
    Return(Result<AsyncSink<M>, MultistreamSelectError<E>>),
}

/// A [`SendAction`] by what it says.
pub enum SendStep<M, E> {
    /// Write the bytes.
    Write(M, Seq<u8>),
    /// The sending is over, or cannot go on now.
    Return(Result<AsyncSink<M>, MultistreamSelectError<E>>),
}

impl<M, E> View for SendAction<M, E> {
    type V = SendStep<M, E>;

    open spec fn view(&self) -> SendStep<M, E> {
        match self {
            SendAction::Write { item, bytes } => SendStep::Write(*item, bytes@),
            SendAction::Return(r) => SendStep::Return(*r),
        }
    }
}

/// What the receiving of a message wants to be done.
#[derive(Debug, PartialEq, Eq)]
pub enum ReceiveAction<M, E> {
    /// Read the next frame.
    ReadFrame,
    /// The message is there, or is not there yet, or there is none.
    Return(Poll<Option<M>, MultistreamSelectError<E>>),
}

impl<M: View, E> View for ReceiveAction<M, E> {
    type V = ReceiveAction<M::V, E>;

    open spec fn view(&self) -> ReceiveAction<M::V, E> {
        match self {
            ReceiveAction::ReadFrame => ReceiveAction::ReadFrame,
            ReceiveAction::Return(Ok(Async::Ready(Some(m)))) => ReceiveAction::Return(
                Ok(Async::Ready(Some(m@))),
            ),
            ReceiveAction::Return(Ok(Async::Ready(None))) => ReceiveAction::Return(
                Ok(Async::Ready(None)),
            ),
            ReceiveAction::Return(Ok(Async::NotReady)) => ReceiveAction::Return(Ok(Async::NotReady)),
            ReceiveAction::Return(Err(e)) => ReceiveAction::Return(Err(*e)),
        }
    }
}

/// The polled frame by what it holds.
pub open spec fn polled_frame<E>(polled: Poll<Option<Vec<u8>>, E>) -> Poll<Option<Seq<u8>>, E> {
    match polled {
        Ok(Async::Ready(Some(frame))) => Ok(Async::Ready(Some(frame@))),
        Ok(Async::Ready(None)) => Ok(Async::Ready(None)),
        Ok(Async::NotReady) => Ok(Async::NotReady),
        Err(e) => Err(e),
    }
}

/// Is the frame a protocol name with a newline at the end?
pub open spec fn is_name_frame(frame: Seq<u8>) -> bool {
    frame.len() > 0 && frame[0] == '/' as u8 && frame.last() == '\n' as u8
}

/// The part of a message that is still to be written.
fn rest_of(payload: &[u8], offset: usize) -> (r: Vec<u8>)
    requires
        offset <= payload@.len(),
    ensures
        r@ == payload@.skip(offset as int),
{
    let mut r: Vec<u8> = Vec::new();
    let n: usize = payload.len();
    let mut i: usize = offset;
    while i < n
        invariant
            n == payload@.len(),
            offset <= i <= n,
            r@ =~= payload@.subrange(offset as int, i as int),
        decreases n - i,
    {
        r.push(payload[i]);
        i += 1;
    }
    assert(r@ =~= payload@.skip(offset as int));
    r
}

} // verus!
