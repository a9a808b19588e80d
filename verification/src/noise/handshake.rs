//! The handshake on a new connection.

use crate::async_value::{Async, Poll};
use crate::noise::keys::{montgomery, NoiseError, PublicKey};
use crate::noise::output::{
    Crypted, IoError, NoiseOutput, OutputModel, ReadAction, ReadInput, WriteAction, WriteInput,
    WriteState, WriteStep,
};
use crate::noise::session::{NoiseSession, SessionModel};
use vstd::prelude::*;

verus! {

/// How far a handshake has come.
enum HandshakeState<F, T> {
    /// The connection is being made.
    Init(F, NoiseSession),
    /// A message is read.
    RecvHandshake(NoiseOutput<T>),
    /// A message is written.
    SendHandshake(NoiseOutput<T>),
    /// The message is flushed.
    Flush(NoiseOutput<T>),
    /// The handshake is over.
    Done,
}

/// How far a handshake has come.
pub enum HandshakeModel<F, T> {
    /// The connection is being made.
    Init(F, SessionModel),
    /// A message is read.
    RecvHandshake(OutputModel<T>),
    /// A message is written.
    SendHandshake(OutputModel<T>),
    /// The message is flushed.
    Flush(OutputModel<T>),
    /// The handshake is over.
    Done,
}

/// What a handshake is told.
#[derive(Debug, PartialEq, Eq)]
pub enum HandshakeInput<T, E, I> {
    /// Start, or go on.
    Start,
    /// Outcome of making the connection.
    Connected(Poll<T, E>),
    /// Outcome of reading the length of a message.
    Len(Result<u16, IoError<I>>),
    /// Outcome of reading a part of a message.
    Data(Result<Vec<u8>, IoError<I>>),
    /// Outcome of writing the length of a message.
    LenWritten(Result<(), IoError<I>>),
    /// Outcome of writing a part of a message: how many bytes were taken.
    Written(Result<usize, IoError<I>>),
}

/// What a handshake wants to be done.
pub enum HandshakeAction<T, E, I> {
    /// Go on with making the connection.
    PollInner,
    /// Read the length of a message: two bytes in network order.
    ReadLen,
    /// Read a part of a message, of at most this length.
    ReadData(usize),
    /// Write the length of a message: two bytes in network order.
    WriteLen(u16),
    /// Write the bytes, as far as they are taken.
    WriteData(Vec<u8>),
    /// The connection is encrypted, or is not yet.
    Return(Poll<(PublicKey, NoiseOutput<T>), NoiseError<E, I>>),
}

/// A [`HandshakeAction`] by what it says.
pub enum HandshakeStep<T, E, I> {
    /// Go on with making the connection.
    PollInner,
    /// Read the length of a message.
    ReadLen,
    /// Read a part of a message.
    ReadData(usize),
    /// Write the length of a message.
    WriteLen(u16),
    /// Write the bytes.
    WriteData(Seq<u8>),
    /// The connection is not encrypted yet.
    NotReady,
    /// The connection could not be made.
    Inner(E),
    /// Reading or writing failed.
    Io(IoError<I>),
    /// The session failed.
    Noise,
    /// The other side's public key is missing or has a wrong length.
    InvalidKey,
    /// The connection to the side with this public key is encrypted.
    Ready(Seq<u8>, OutputModel<T>),
}

/// The action is the one of the step.
pub open spec fn performs<T, E, I>(
    action: HandshakeAction<T, E, I>,
    step: HandshakeStep<T, E, I>,
) -> bool {
    match step {
        HandshakeStep::PollInner => action is PollInner,
        HandshakeStep::ReadLen => action is ReadLen,
        HandshakeStep::ReadData(n) => action matches HandshakeAction::ReadData(m) && m == n,
        HandshakeStep::WriteLen(n) => action matches HandshakeAction::WriteLen(m) && m == n,
        HandshakeStep::WriteData(b) => action matches HandshakeAction::WriteData(v) && v@ == b,
        HandshakeStep::NotReady => action matches HandshakeAction::Return(Ok(Async::NotReady)),
        HandshakeStep::Inner(e) => action matches HandshakeAction::Return(
            Err(NoiseError::Inner(f)),
        ) && e == f,
        HandshakeStep::Io(e) => action matches HandshakeAction::Return(Err(NoiseError::Io(f)))
            && e == f,
        HandshakeStep::Noise => action matches HandshakeAction::Return(Err(NoiseError::Noise(_))),
        HandshakeStep::InvalidKey => action matches HandshakeAction::Return(
            Err(NoiseError::InvalidKey),
        ),
        HandshakeStep::Ready(key, m) => action matches HandshakeAction::Return(
            Ok(Async::Ready((k, out))),
        ) && k.0@ == key && out@ == m && out.wf(),
    }
}

/// What the session makes of the messages of one step: the outcome of a decryption and of an
/// encryption, and the session after each.
pub struct Chance {
    /// Outcome of the decryption.
    pub text: Crypted,
    /// The session after it.
    pub received: SessionModel,
    /// Outcome of the encryption.
    pub message: Crypted,
    /// The session after it.
    pub sent: SessionModel,
}

/// The end of a handshake.
pub open spec fn finish<F, T, E, I>(m: OutputModel<T>) -> (
    HandshakeModel<F, T>,
    HandshakeStep<T, E, I>,
) {
    (
        HandshakeModel::Done,
        if m.session.transport || m.session.position == crate::noise::session::HANDSHAKE_MESSAGES {
            match m.session.remote {
                Some(key) => if key.len() == crate::noise::keys::KEY_LEN {
                    HandshakeStep::Ready(
                        key,
                        OutputModel {
                            session: SessionModel { transport: true, ..m.session },
                            ..m
                        },
                    )
                } else {
                    HandshakeStep::InvalidKey
                },
                None => HandshakeStep::InvalidKey,
            }
        } else {
            HandshakeStep::Noise
        },
    )
}

/// The connection after a step of reading nothing but a message of the handshake.
pub open spec fn after_read<T, I>(m: OutputModel<T>, input: ReadInput<I>, c: Chance) -> OutputModel<
    T,
> {
    OutputModel {
        reading: m.reading.step(Seq::empty(), input, c.text).0,
        session: if m.reading.completes(input) {
            c.received
        } else {
            m.session
        },
        ..m
    }
}

/// The connection after a step of writing nothing but a message of the handshake.
pub open spec fn after_write<T>(m: OutputModel<T>, c: Chance) -> OutputModel<T> {
    OutputModel {
        writing: m.writing.write_step::<()>(Seq::empty(), WriteInput::Start, c.message).0,
        ..m
    }
}

/// The connection after a step of flushing.
pub open spec fn after_flush<T, I>(m: OutputModel<T>, input: WriteInput<I>, c: Chance) -> OutputModel<
    T,
> {
    OutputModel {
        writing: m.writing.flush_step(input, c.message).0,
        session: if m.writing.flush_encrypts(input) is Some {
            c.sent
        } else {
            m.session
        },
        ..m
    }
}

/// The listener flushes its message; then the handshake is over.
pub open spec fn listen_flush<F, T, E, I>(m: OutputModel<T>, input: WriteInput<I>, c: Chance) -> (
    HandshakeModel<F, T>,
    HandshakeStep<T, E, I>,
) {
    let n = after_flush(m, input, c);
    match m.writing.flush_step(input, c.message).1 {
        WriteStep::WriteLen(len) => (HandshakeModel::Flush(n), HandshakeStep::WriteLen(len)),
        WriteStep::WriteData(bytes) => (HandshakeModel::Flush(n), HandshakeStep::WriteData(bytes)),
        WriteStep::Return(Ok(_)) => finish(n),
        WriteStep::Return(Err(IoError::WouldBlock)) => (
            HandshakeModel::Flush(n),
            HandshakeStep::NotReady,
        ),
        WriteStep::Return(Err(e)) => (HandshakeModel::Done, HandshakeStep::Io(e)),
    }
}

/// The listener writes its message, then flushes it.
pub open spec fn listen_send<F, T, E, I>(m: OutputModel<T>, c: Chance) -> (
    HandshakeModel<F, T>,
    HandshakeStep<T, E, I>,
) {
    listen_flush(after_write(m, c), WriteInput::Start, c)
}

/// The listener reads the dialer's message, then writes its own.
pub open spec fn listen_recv<F, T, E, I>(m: OutputModel<T>, input: ReadInput<I>, c: Chance) -> (
    HandshakeModel<F, T>,
    HandshakeStep<T, E, I>,
) {
    let n = after_read(m, input, c);
    match m.reading.step(Seq::empty(), input, c.text).2 {
        ReadAction::ReadLen => (HandshakeModel::RecvHandshake(n), HandshakeStep::ReadLen),
        ReadAction::ReadData(k) => (HandshakeModel::RecvHandshake(n), HandshakeStep::ReadData(k)),
        ReadAction::Return(Ok(_)) => listen_send(n, c),
        ReadAction::Return(Err(IoError::WouldBlock)) => (
            HandshakeModel::RecvHandshake(n),
            HandshakeStep::NotReady,
        ),
        ReadAction::Return(Err(e)) => (HandshakeModel::Done, HandshakeStep::Io(e)),
    }
}

/// The dialer reads the listener's message; then the handshake is over.
pub open spec fn dial_recv<F, T, E, I>(m: OutputModel<T>, input: ReadInput<I>, c: Chance) -> (
    HandshakeModel<F, T>,
    HandshakeStep<T, E, I>,
) {
    let n = after_read(m, input, c);
    match m.reading.step(Seq::empty(), input, c.text).2 {
        ReadAction::ReadLen => (HandshakeModel::RecvHandshake(n), HandshakeStep::ReadLen),
        ReadAction::ReadData(k) => (HandshakeModel::RecvHandshake(n), HandshakeStep::ReadData(k)),
        ReadAction::Return(Ok(_)) => finish(n),
        ReadAction::Return(Err(IoError::WouldBlock)) => (
            HandshakeModel::RecvHandshake(n),
            HandshakeStep::NotReady,
        ),
        ReadAction::Return(Err(e)) => (HandshakeModel::Done, HandshakeStep::Io(e)),
    }
}

/// The dialer flushes its message, then reads the listener's.
pub open spec fn dial_flush<F, T, E, I>(m: OutputModel<T>, input: WriteInput<I>, c: Chance) -> (
    HandshakeModel<F, T>,
    HandshakeStep<T, E, I>,
) {
    let n = after_flush(m, input, c);
    match m.writing.flush_step(input, c.message).1 {
        WriteStep::WriteLen(len) => (HandshakeModel::Flush(n), HandshakeStep::WriteLen(len)),
        WriteStep::WriteData(bytes) => (HandshakeModel::Flush(n), HandshakeStep::WriteData(bytes)),
        WriteStep::Return(Ok(_)) => dial_recv(n, ReadInput::Start, c),
        WriteStep::Return(Err(IoError::WouldBlock)) => (
            HandshakeModel::Flush(n),
            HandshakeStep::NotReady,
        ),
        WriteStep::Return(Err(e)) => (HandshakeModel::Done, HandshakeStep::Io(e)),
    }
}

/// The dialer writes its message, then flushes it.
pub open spec fn dial_send<F, T, E, I>(m: OutputModel<T>, c: Chance) -> (
    HandshakeModel<F, T>,
    HandshakeStep<T, E, I>,
) {
    dial_flush(after_write(m, c), WriteInput::Start, c)
}

/// A connection on which nothing has been read or written.
pub open spec fn is_new<T>(m: OutputModel<T>, io: T, session: SessionModel) -> bool {
    &&& m.io == io
    &&& m.session == session
    &&& m.reading.state is Init
    &&& m.writing.state is Init
}

/// The reading input of a handshake input.
pub open spec fn reads<T, E, I>(input: HandshakeInput<T, E, I>) -> ReadInput<I> {
    match input {
        HandshakeInput::Len(r) => ReadInput::Len(r),
        HandshakeInput::Data(r) => ReadInput::Data(r),
        _ => ReadInput::Start,
    }
}

/// The writing input of a handshake input.
pub open spec fn writes<T, E, I>(input: HandshakeInput<T, E, I>) -> WriteInput<I> {
    match input {
        HandshakeInput::LenWritten(r) => WriteInput::LenWritten(r),
        HandshakeInput::Written(r) => WriteInput::Written(r),
        _ => WriteInput::Start,
    }
}

impl<F, T> HandshakeModel<F, T> {
    /// The input can follow in this state.
    pub open spec fn accepts<E, I>(self, input: HandshakeInput<T, E, I>) -> bool {
        match self {
            HandshakeModel::Init(_, _) => input is Start || input is Connected,
            HandshakeModel::RecvHandshake(m) => (input is Start || input is Len || input is Data)
                && m.reading.accepts(reads(input)),
            HandshakeModel::SendHandshake(_) => input is Start,
            HandshakeModel::Flush(m) => (input is Start || input is LenWritten || input is Written)
                && m.writing.accepts(writes(input)),
            HandshakeModel::Done => false,
        }
    }

    /// One step of the listener's handshake; `new` is the connection once it is made.
    pub open spec fn listen_step<E, I>(
        self,
        input: HandshakeInput<T, E, I>,
        new: OutputModel<T>,
        c: Chance,
    ) -> (Self, HandshakeStep<T, E, I>) {
        match self {
            HandshakeModel::Init(_, _) => match input {
                HandshakeInput::Connected(Ok(Async::Ready(_))) => listen_recv(
                    new,
                    ReadInput::Start,
                    c,
                ),
                HandshakeInput::Connected(Ok(Async::NotReady)) => (self, HandshakeStep::NotReady),
                HandshakeInput::Connected(Err(e)) => (
                    HandshakeModel::Done,
                    HandshakeStep::Inner(e),
                ),
                _ => (self, HandshakeStep::PollInner),
            },
            HandshakeModel::RecvHandshake(m) => listen_recv(m, reads(input), c),
            HandshakeModel::SendHandshake(m) => listen_send(m, c),
            HandshakeModel::Flush(m) => listen_flush(m, writes(input), c),
            HandshakeModel::Done => (self, HandshakeStep::NotReady),
        }
    }

    /// One step of the dialer's handshake; `new` is the connection once it is made.
    pub open spec fn dial_step<E, I>(
        self,
        input: HandshakeInput<T, E, I>,
        new: OutputModel<T>,
        c: Chance,
    ) -> (Self, HandshakeStep<T, E, I>) {
        match self {
            HandshakeModel::Init(_, _) => match input {
                HandshakeInput::Connected(Ok(Async::Ready(_))) => dial_send(new, c),
                HandshakeInput::Connected(Ok(Async::NotReady)) => (self, HandshakeStep::NotReady),
                HandshakeInput::Connected(Err(e)) => (
                    HandshakeModel::Done,
                    HandshakeStep::Inner(e),
                ),
                _ => (self, HandshakeStep::PollInner),
            },
            HandshakeModel::RecvHandshake(m) => dial_recv(m, reads(input), c),
            HandshakeModel::SendHandshake(m) => dial_send(m, c),
            HandshakeModel::Flush(m) => dial_flush(m, writes(input), c),
            HandshakeModel::Done => (self, HandshakeStep::NotReady),
        }
    }

    /// What holds of a listener's handshake.
    pub open spec fn listens(self) -> bool {
        match self {
            HandshakeModel::Init(_, s) => s == SessionModel::fresh(false, s.secret, None),
            HandshakeModel::RecvHandshake(m) => {
                &&& m.session == SessionModel::fresh(false, m.session.secret, None)
                &&& m.writing.state is Init
            },
            HandshakeModel::SendHandshake(m) => listener_replies(m) && m.writing.collects(),
            HandshakeModel::Flush(m) => listener_replies(m),
            HandshakeModel::Done => true,
        }
    }

    /// What holds of a dialer's handshake with the side that has the public key.
    pub open spec fn dials(self, key: Seq<u8>) -> bool {
        &&& key.len() == crate::noise::keys::KEY_LEN
        &&& match self {
            HandshakeModel::Init(_, s) => s == SessionModel::fresh(true, s.secret, Some(key)),
            HandshakeModel::SendHandshake(m) => {
                &&& m.session == SessionModel::fresh(true, m.session.secret, Some(key))
                &&& m.writing.state is Init
                &&& m.reading.state is Init
            },
            HandshakeModel::Flush(m) => dialer_asks(m, key),
            HandshakeModel::RecvHandshake(m) => dialer_waits(m, key),
            HandshakeModel::Done => true,
        }
    }
}

/// The listener has read a message or has found none; its answer is encrypted once.
pub open spec fn listener_replies<T>(m: OutputModel<T>) -> bool {
    &&& !m.session.initiator
    &&& !m.session.transport
    &&& m.session.position >= 1 ==> (m.session.remote matches Some(k) && k.len()
        == crate::noise::keys::KEY_LEN)
    &&& m.session.sent.len() <= 1
    &&& m.writing.state is Init || m.writing.state is BufferData ==> m.session.sent.len() == 0
}

/// The dialer's message is encrypted once.
pub open spec fn dialer_asks<T>(m: OutputModel<T>, key: Seq<u8>) -> bool {
    &&& m.session.initiator
    &&& !m.session.transport
    &&& m.session.remote == Some(key)
    &&& m.session.received.len() == 0
    &&& m.session.sent.len() <= 1
    &&& m.writing.state is BufferData ==> m.session.sent.len() == 0 && m.session.position == 0
    &&& !(m.writing.state is BufferData) ==> m.session.position == 1
    &&& m.reading.state is Init
}

/// The dialer waits for the answer.
pub open spec fn dialer_waits<T>(m: OutputModel<T>, key: Seq<u8>) -> bool {
    &&& m.session.initiator
    &&& !m.session.transport
    &&& m.session.remote == Some(key)
    &&& m.session.received.len() == 0
    &&& m.session.position == 1
}

/// What the session makes of a message that is read.
pub open spec fn possible_read<T, I>(m: OutputModel<T>, input: ReadInput<I>, c: Chance) -> bool {
    m.reading.completes(input) ==> crate::noise::output::decrypts(
        m.session,
        c.received,
        m.reading.completed(input),
        c.text,
    )
}

/// What the session makes of a message that is flushed.
pub open spec fn possible_flush<T, I>(m: OutputModel<T>, input: WriteInput<I>, c: Chance) -> bool {
    m.writing.flush_encrypts(input) matches Some(text) ==> crate::noise::output::encrypts(
        m.session,
        c.sent,
        text,
        c.message,
    )
}

/// What the session makes of the messages of a listener's step of reading.
pub open spec fn possible_listen_recv<T, I>(
    m: OutputModel<T>,
    input: ReadInput<I>,
    c: Chance,
) -> bool {
    &&& possible_read(m, input, c)
    &&& m.reading.step(Seq::empty(), input, c.text).2 matches ReadAction::Return(Ok(_))
        ==> possible_flush::<T, I>(after_write(after_read(m, input, c), c), WriteInput::Start, c)
}

/// What the session makes of the messages of a dialer's step of flushing.
pub open spec fn possible_dial_flush<T, I>(
    m: OutputModel<T>,
    input: WriteInput<I>,
    c: Chance,
) -> bool {
    &&& possible_flush(m, input, c)
    &&& m.writing.flush_step(input, c.message).1 matches WriteStep::Return(Ok(_))
        ==> possible_read::<T, I>(after_flush(m, input, c), ReadInput::Start, c)
}

impl<F, T> HandshakeModel<F, T> {
    /// What can become of the connection and of the messages in a listener's step.
    pub open spec fn possible_listen<E, I>(
        self,
        input: HandshakeInput<T, E, I>,
        new: OutputModel<T>,
        c: Chance,
    ) -> bool {
        match self {
            HandshakeModel::Init(_, s) => input matches HandshakeInput::Connected(
                Ok(Async::Ready(io)),
            ) ==> is_new(new, io, s) && possible_listen_recv::<T, I>(new, ReadInput::Start, c),
            HandshakeModel::RecvHandshake(m) => possible_listen_recv(m, reads(input), c),
            HandshakeModel::SendHandshake(m) => possible_flush::<T, I>(
                after_write(m, c),
                WriteInput::Start,
                c,
            ),
            HandshakeModel::Flush(m) => possible_flush(m, writes(input), c),
            HandshakeModel::Done => true,
        }
    }

    /// What can become of the connection and of the messages in a dialer's step.
    pub open spec fn possible_dial<E, I>(
        self,
        input: HandshakeInput<T, E, I>,
        new: OutputModel<T>,
        c: Chance,
    ) -> bool {
        match self {
            HandshakeModel::Init(_, s) => input matches HandshakeInput::Connected(
                Ok(Async::Ready(io)),
            ) ==> is_new(new, io, s) && possible_dial_flush::<T, I>(
                after_write(new, c),
                WriteInput::Start,
                c,
            ),
            HandshakeModel::RecvHandshake(m) => possible_read(m, reads(input), c),
            HandshakeModel::SendHandshake(m) => possible_dial_flush::<T, I>(
                after_write(m, c),
                WriteInput::Start,
                c,
            ),
            HandshakeModel::Flush(m) => possible_dial_flush(m, writes(input), c),
            HandshakeModel::Done => true,
        }
    }
}

impl<F, T> View for HandshakeState<F, T> {
    type V = HandshakeModel<F, T>;

    closed spec fn view(&self) -> HandshakeModel<F, T> {
        match self {
            HandshakeState::Init(future, session) => HandshakeModel::Init(*future, session@),
            HandshakeState::RecvHandshake(io) => HandshakeModel::RecvHandshake(io@),
            HandshakeState::SendHandshake(io) => HandshakeModel::SendHandshake(io@),
            HandshakeState::Flush(io) => HandshakeModel::Flush(io@),
            HandshakeState::Done => HandshakeModel::Done,
        }
    }
}

impl<F, T> HandshakeModel<F, T> {
    /// The computation that makes the connection.
    pub open spec fn future(self) -> Option<F> {
        match self {
            HandshakeModel::Init(future, _) => Some(future),
            _ => None,
        }
    }

    /// The connection, once it is made.
    pub open spec fn io(self) -> Option<T> {
        match self {
            HandshakeModel::RecvHandshake(m) => Some(m.io),
            HandshakeModel::SendHandshake(m) => Some(m.io),
            HandshakeModel::Flush(m) => Some(m.io),
            _ => None,
        }
    }

    /// The same with another computation.
    pub open spec fn with_future(self, future: F) -> Self {
        match self {
            HandshakeModel::Init(_, session) => HandshakeModel::Init(future, session),
            _ => self,
        }
    }

    /// The same with another connection.
    pub open spec fn with_io(self, io: T) -> Self {
        match self {
            HandshakeModel::RecvHandshake(m) => HandshakeModel::RecvHandshake(
                OutputModel { io, ..m },
            ),
            HandshakeModel::SendHandshake(m) => HandshakeModel::SendHandshake(
                OutputModel { io, ..m },
            ),
            HandshakeModel::Flush(m) => HandshakeModel::Flush(OutputModel { io, ..m }),
            _ => self,
        }
    }
}

impl<F, T> HandshakeState<F, T> {
    fn future(&mut self) -> (r: Option<&mut F>)
        requires
            old(self).wf(),
        ensures
            final(self).wf(),
            match r {
                Some(f) => old(self)@.future() == Some(*f) && final(self)@ == old(
                    self
                )@.with_future(*final(f)),
                None => old(self)@.future() is None && final(self)@ == old(self)@,
            },
    {
        match self {
            HandshakeState::Init(future, _) => Some(future),
            _ => None,
        }
    }

    fn io(&mut self) -> (r: Option<&mut T>)
        requires
            old(self).wf(),
        ensures
            final(self).wf(),
            match r {
                Some(io) => old(self)@.io() == Some(*io) && final(self)@ == old(self)@.with_io(
                    *final(io),
                ),
                None => old(self)@.io() is None && final(self)@ == old(self)@,
            },
    {
        match self {
            HandshakeState::RecvHandshake(out) => Some(out.io()),
            HandshakeState::SendHandshake(out) => Some(out.io()),
            HandshakeState::Flush(out) => Some(out.io()),
            _ => None,
        }
    }

    closed spec fn wf(&self) -> bool {
        match self {
            HandshakeState::Init(_, session) => session.wf(),
            HandshakeState::RecvHandshake(io) => io.wf(),
            HandshakeState::SendHandshake(io) => io.wf(),
            HandshakeState::Flush(io) => io.wf(),
            HandshakeState::Done => true,
        }
    }
}

fn read_input<T, E, I>(input: HandshakeInput<T, E, I>) -> (r: ReadInput<I>)
    ensures
        r == reads(input),
{
    match input {
        HandshakeInput::Len(r) => ReadInput::Len(r),
        HandshakeInput::Data(r) => ReadInput::Data(r),
        _ => ReadInput::Start,
    }
}

fn write_input<T, E, I>(input: HandshakeInput<T, E, I>) -> (r: WriteInput<I>)
    ensures
        r == writes(input),
{
    match input {
        HandshakeInput::LenWritten(r) => WriteInput::LenWritten(r),
        HandshakeInput::Written(r) => WriteInput::Written(r),
        _ => WriteInput::Start,
    }
}

/// Ends a handshake.
fn complete<F, T, E, I>(io: NoiseOutput<T>) -> (r: HandshakeAction<T, E, I>)
    requires
        io.wf(),
    ensures
        performs(r, finish::<F, T, E, I>(io@).1),
{
    match io.into_transport_mode() {
        Err(e) => HandshakeAction::Return(Err(NoiseError::Noise(e))),
        Ok((None, _)) => HandshakeAction::Return(Err(NoiseError::InvalidKey)),
        Ok((Some(key), out)) => match montgomery(key.as_slice()) {
            Ok(public) => HandshakeAction::Return(Ok(Async::Ready((public, out)))),
            Err(e) => HandshakeAction::Return(Err(e)),
        },
    }
}

/// Reads a message of the handshake, which carries no data that anybody waits for.
fn read_nothing<T, I>(io: &mut NoiseOutput<T>, input: ReadInput<I>) -> (r: ReadAction<I>)
    requires
        old(io).wf(),
        old(io)@.reading.accepts(input),
        old(io)@.reading.completes(input) ==> old(io)@.session.can_read(),
    ensures
        final(io).wf(),
        exists|c: Chance|
            #![trigger after_read(old(io)@, input, c)]
            possible_read(old(io)@, input, c) && final(io)@ == after_read(old(io)@, input, c) && r
                == old(io)@.reading.step(Seq::empty(), input, c.text).2,
{
    let mut nothing: Vec<u8> = Vec::new();
    let ghost before = io@;
    let r = io.read(&mut nothing, input);
    proof {
        let text = choose|text: Crypted|
            (io@.reading, nothing@, r) == #[trigger] before.reading.step(Seq::empty(), input, text)
                && if before.reading.completes(input) {
                crate::noise::output::decrypts(
                    before.session,
                    io@.session,
                    before.reading.completed(input),
                    text,
                )
            } else {
                io@.session == before.session
            };
        let c = Chance { text, received: io@.session, message: text, sent: io@.session };
        assert(io@ =~= after_read(before, input, c));
        assert(possible_read(before, input, c));
    }
    r
}

/// Flushes a message of the handshake.
fn flush_message<T, I>(io: &mut NoiseOutput<T>, input: WriteInput<I>) -> (r: WriteAction<(), I>)
    requires
        old(io).wf(),
        old(io)@.writing.accepts(input),
        old(io)@.writing.flush_encrypts(input) is Some ==> old(io)@.session.can_write(),
    ensures
        final(io).wf(),
        exists|c: Chance|
            #![trigger after_flush(old(io)@, input, c)]
            possible_flush(old(io)@, input, c) && final(io)@ == after_flush(old(io)@, input, c)
                && r@ == old(io)@.writing.flush_step(input, c.message).1,
{
    let ghost before = io@;
    let r = io.flush(input);
    proof {
        let message = choose|message: Crypted|
            (io@.writing, r@) == #[trigger] before.writing.flush_step(input, message)
                && match before.writing.flush_encrypts(input) {
                Some(text) => crate::noise::output::encrypts(
                    before.session,
                    io@.session,
                    text,
                    message,
                ),
                None => io@.session == before.session,
            };
        let c = Chance { text: message, received: io@.session, message, sent: io@.session };
        assert(io@ =~= after_flush(before, input, c));
        assert(possible_flush(before, input, c));
    }
    r
}

/// Begins a message of the handshake, which carries no data.
fn write_nothing<T>(io: &mut NoiseOutput<T>)
    requires
        old(io).wf(),
        old(io)@.writing.collects(),
    ensures
        final(io).wf(),
        forall|c: Chance| final(io)@ == #[trigger] after_write(old(io)@, c),
        final(io)@.writing.state is BufferData,
        final(io)@.session == old(io)@.session,
        final(io)@.reading == old(io)@.reading,
{
    let nothing: Vec<u8> = Vec::new();
    let ghost before = io@;
    let _ = io.write::<()>(nothing.as_slice(), WriteInput::Start);
    proof {
        assert(nothing@ =~= Seq::empty());
        assert forall|c: Chance| io@ == #[trigger] after_write(before, c) by {
            assert(io@ =~= after_write(before, c));
        }
    }
}

/// The listener's handshake on a new connection.
pub struct NoiseListenFuture<F, T> {
    state: HandshakeState<F, T>,
}

impl<F, T> View for NoiseListenFuture<F, T> {
    type V = HandshakeModel<F, T>;

    closed spec fn view(&self) -> HandshakeModel<F, T> {
        self.state@
    }
}

impl<F, T> NoiseListenFuture<F, T> {
    /// The computation that makes the connection, until it is made.
    pub fn future(&mut self) -> (r: Option<&mut F>)
        requires
            old(self).wf(),
        ensures
            final(self).wf(),
            match r {
                Some(f) => old(self)@.future() == Some(*f) && final(self)@ == old(
                    self
                )@.with_future(*final(f)),
                None => old(self)@.future() is None && final(self)@ == old(self)@,
            },
    {
        self.state.future()
    }

    /// The connection, to read from or write to, once it is made.
    pub fn io(&mut self) -> (r: Option<&mut T>)
        requires
            old(self).wf(),
        ensures
            final(self).wf(),
            match r {
                Some(io) => old(self)@.io() == Some(*io) && final(self)@ == old(self)@.with_io(
                    *final(io),
                ),
                None => old(self)@.io() is None && final(self)@ == old(self)@,
            },
    {
        self.state.io()
    }

    /// The handshake is a listener's.
    pub closed spec fn wf(&self) -> bool {
        self.state.wf() && self@.listens()
    }

    /// Starts the handshake on a connection that is being made.
    pub fn new(future: F, session: NoiseSession) -> (r: Self)
        requires
            session.wf(),
            session@ == SessionModel::fresh(false, session@.secret, None),
        ensures
            r.wf(),
            r@ == HandshakeModel::<F, T>::Init(future, session@),
    {
        NoiseListenFuture { state: HandshakeState::Init(future, session) }
    }

    fn flush<E, I>(&mut self, io: NoiseOutput<T>, input: WriteInput<I>) -> (r: HandshakeAction<
        T,
        E,
        I,
    >)
        requires
            io.wf(),
            io@.writing.accepts(input),
            listener_replies(io@),
        ensures
            final(self).wf(),
            exists|c: Chance|
                #![trigger possible_flush(io@, input, c)]
                possible_flush(io@, input, c) && final(self)@ == listen_flush::<F, T, E, I>(
                    io@,
                    input,
                    c,
                ).0 && performs(r, listen_flush::<F, T, E, I>(io@, input, c).1),
    {
        let mut io = io;
        let ghost before = io@;
        let action = flush_message(&mut io, input);
        proof {
            let c = choose|c: Chance|
                #![trigger after_flush(before, input, c)]
                possible_flush(before, input, c) && io@ == after_flush(before, input, c)
                    && action@ == before.writing.flush_step(input, c.message).1;
            assert(possible_flush(before, input, c));
        }
        match action {
            WriteAction::WriteLen(len) => {
                self.state = HandshakeState::Flush(io);
                HandshakeAction::WriteLen(len)
            },
            WriteAction::WriteData(bytes) => {
                self.state = HandshakeState::Flush(io);
                HandshakeAction::WriteData(bytes)
            },
            WriteAction::Return(Ok(_)) => {
                self.state = HandshakeState::Done;
                complete::<F, T, E, I>(io)
            },
            WriteAction::Return(Err(IoError::WouldBlock)) => {
                self.state = HandshakeState::Flush(io);
                HandshakeAction::Return(Ok(Async::NotReady))
            },
            WriteAction::Return(Err(e)) => {
                self.state = HandshakeState::Done;
                HandshakeAction::Return(Err(NoiseError::Io(e)))
            },
        }
    }

    fn send<E, I>(&mut self, io: NoiseOutput<T>) -> (r: HandshakeAction<T, E, I>)
        requires
            io.wf(),
            listener_replies(io@),
            io@.writing.collects(),
        ensures
            final(self).wf(),
            exists|c: Chance|
                #![trigger after_write(io@, c)]
                possible_flush::<T, I>(after_write(io@, c), WriteInput::Start, c) && final(self)@
                    == listen_send::<F, T, E, I>(io@, c).0 && performs(
                    r,
                    listen_send::<F, T, E, I>(io@, c).1,
                ),
    {
        let mut io = io;
        let ghost before = io@;
        write_nothing(&mut io);
        let ghost begun = io@;
        let r = self.flush(io, WriteInput::Start);
        proof {
            let c = choose|c: Chance|
                #![trigger possible_flush(begun, WriteInput::<I>::Start, c)]
                possible_flush(begun, WriteInput::<I>::Start, c) && self@ == listen_flush::<
                    F,
                    T,
                    E,
                    I,
                >(begun, WriteInput::Start, c).0 && performs(
                    r,
                    listen_flush::<F, T, E, I>(begun, WriteInput::Start, c).1,
                );
            assert(after_write(before, c) == begun);
        }
        r
    }

    fn recv<E, I>(&mut self, io: NoiseOutput<T>, input: ReadInput<I>) -> (r: HandshakeAction<
        T,
        E,
        I,
    >)
        requires
            io.wf(),
            io@.reading.accepts(input),
            HandshakeModel::<F, T>::RecvHandshake(io@).listens(),
        ensures
            final(self).wf(),
            exists|c: Chance|
                #![trigger possible_listen_recv(io@, input, c)]
                possible_listen_recv(io@, input, c) && final(self)@ == listen_recv::<F, T, E, I>(
                    io@,
                    input,
                    c,
                ).0 && performs(r, listen_recv::<F, T, E, I>(io@, input, c).1),
    {
        let mut io = io;
        let ghost before = io@;
        let action = read_nothing(&mut io, input);
        let ghost first = choose|c: Chance|
            #![trigger after_read(before, input, c)]
            possible_read(before, input, c) && io@ == after_read(before, input, c) && action
                == before.reading.step(Seq::empty(), input, c.text).2;
        match action {
            ReadAction::ReadLen => {
                assert(possible_listen_recv(before, input, first));
                self.state = HandshakeState::RecvHandshake(io);
                HandshakeAction::ReadLen
            },
            ReadAction::ReadData(n) => {
                assert(possible_listen_recv(before, input, first));
                self.state = HandshakeState::RecvHandshake(io);
                HandshakeAction::ReadData(n)
            },
            ReadAction::Return(Ok(_)) => {
                let ghost read = io@;
                let r = self.send(io);
                proof {
                    let second = choose|c: Chance|
                        #![trigger after_write(read, c)]
                        possible_flush::<T, I>(after_write(read, c), WriteInput::Start, c) && self@
                            == listen_send::<F, T, E, I>(read, c).0 && performs(
                            r,
                            listen_send::<F, T, E, I>(read, c).1,
                        );
                    let c = Chance {
                        text: first.text,
                        received: first.received,
                        message: second.message,
                        sent: second.sent,
                    };
                    assert(after_read(before, input, c) == read);
                    assert(after_write(read, c) == after_write(read, second));
                    assert(possible_read(before, input, c));
                    assert(possible_listen_recv(before, input, c));
                }
                r
            },
            ReadAction::Return(Err(IoError::WouldBlock)) => {
                assert(possible_listen_recv(before, input, first));
                self.state = HandshakeState::RecvHandshake(io);
                HandshakeAction::Return(Ok(Async::NotReady))
            },
            ReadAction::Return(Err(e)) => {
                assert(possible_listen_recv(before, input, first));
                self.state = HandshakeState::Done;
                HandshakeAction::Return(Err(NoiseError::Io(e)))
            },
        }
    }

    /// One step of the handshake.
    pub fn poll<E, I>(&mut self, input: HandshakeInput<T, E, I>) -> (r: HandshakeAction<T, E, I>)
        requires
            old(self).wf(),
            old(self)@.accepts(input),
        ensures
            final(self).wf(),
            crate::noise::progress::would_block(input) ==> final(self)@ == old(self)@ && (
            r matches HandshakeAction::Return(Ok(Async::NotReady))),
            r matches HandshakeAction::Return(Err(NoiseError::Inner(e))) ==> input
                == HandshakeInput::<T, E, I>::Connected(Err(e)),
            r matches HandshakeAction::Return(Ok(Async::Ready((k, out)))) ==> Some(k.0@)
                == out@.session.remote && out@.session.transport,
            exists|new: OutputModel<T>, c: Chance|
                #![trigger old(self)@.possible_listen(input, new, c)]
                old(self)@.possible_listen(input, new, c) && final(self)@
                    == old(self)@.listen_step(input, new, c).0 && performs(
                    r,
                    old(self)@.listen_step(input, new, c).1,
                ),
    {
        let mut state: HandshakeState<F, T> = HandshakeState::Done;
        std::mem::swap(&mut self.state, &mut state);
        match state {
            HandshakeState::Init(future, session) => match input {
                HandshakeInput::Connected(Ok(Async::Ready(io))) => {
                    let output = NoiseOutput::new(io, session);
                    let ghost new = output@;
                    let r = self.recv(output, ReadInput::Start);
                    proof {
                        let c = choose|c: Chance|
                            #![trigger possible_listen_recv(new, ReadInput::<I>::Start, c)]
                            possible_listen_recv(new, ReadInput::<I>::Start, c) && self@
                                == listen_recv::<F, T, E, I>(new, ReadInput::Start, c).0
                                && performs(
                                r,
                                listen_recv::<F, T, E, I>(new, ReadInput::Start, c).1,
                            );
                        assert(old(self)@.possible_listen(input, new, c));
                    }
                    r
                },
                HandshakeInput::Connected(Err(e)) => {
                    let ghost new: OutputModel<T> = arbitrary();
                    let ghost c: Chance = arbitrary();
                    assert(old(self)@.possible_listen(input, new, c));
                    HandshakeAction::Return(Err(NoiseError::Inner(e)))
                },
                HandshakeInput::Connected(Ok(Async::NotReady)) => {
                    let ghost new: OutputModel<T> = arbitrary();
                    let ghost c: Chance = arbitrary();
                    assert(old(self)@.possible_listen(input, new, c));
                    self.state = HandshakeState::Init(future, session);
                    HandshakeAction::Return(Ok(Async::NotReady))
                },
                _ => {
                    let ghost new: OutputModel<T> = arbitrary();
                    let ghost c: Chance = arbitrary();
                    assert(old(self)@.possible_listen(input, new, c));
                    self.state = HandshakeState::Init(future, session);
                    HandshakeAction::PollInner
                },
            },
            HandshakeState::RecvHandshake(io) => {
                let ghost m = io@;
                let ghost reading = reads(input);
                let r = self.recv(io, read_input(input));
                proof {
                    let c = choose|c: Chance|
                        #![trigger possible_listen_recv(m, reading, c)]
                        possible_listen_recv(m, reading, c) && self@ == listen_recv::<F, T, E, I>(
                            m,
                            reading,
                            c,
                        ).0 && performs(r, listen_recv::<F, T, E, I>(m, reading, c).1);
                    assert(old(self)@.possible_listen(input, m, c));
                }
                r
            },
            HandshakeState::SendHandshake(io) => {
                let ghost m = io@;
                let r = self.send(io);
                proof {
                    let c = choose|c: Chance|
                        #![trigger after_write(m, c)]
                        possible_flush::<T, I>(after_write(m, c), WriteInput::Start, c) && self@
                            == listen_send::<F, T, E, I>(m, c).0 && performs(
                            r,
                            listen_send::<F, T, E, I>(m, c).1,
                        );
                    assert(old(self)@.possible_listen(input, m, c));
                }
                r
            },
            HandshakeState::Flush(io) => {
                let ghost m = io@;
                let ghost writing = writes(input);
                let r = self.flush(io, write_input(input));
                proof {
                    let c = choose|c: Chance|
                        #![trigger possible_flush(m, writing, c)]
                        possible_flush(m, writing, c) && self@ == listen_flush::<F, T, E, I>(
                            m,
                            writing,
                            c,
                        ).0 && performs(r, listen_flush::<F, T, E, I>(m, writing, c).1);
                    assert(old(self)@.possible_listen(input, m, c));
                }
                r
            },
            HandshakeState::Done => HandshakeAction::Return(Ok(Async::NotReady)),
        }
    }
}

/// The dialer's handshake on a new connection.
pub struct NoiseDialFuture<F, T> {
    state: HandshakeState<F, T>,
    key: Ghost<Seq<u8>>,
}

impl<F, T> View for NoiseDialFuture<F, T> {
    type V = HandshakeModel<F, T>;

    closed spec fn view(&self) -> HandshakeModel<F, T> {
        self.state@
    }
}

impl<F, T> NoiseDialFuture<F, T> {
    /// The computation that makes the connection, until it is made.
    pub fn future(&mut self) -> (r: Option<&mut F>)
        requires
            old(self).wf(),
        ensures
            final(self).wf(),
            match r {
                Some(f) => old(self)@.future() == Some(*f) && final(self)@ == old(
                    self
                )@.with_future(*final(f)),
                None => old(self)@.future() is None && final(self)@ == old(self)@,
            },
    {
        self.state.future()
    }

    /// The connection, to read from or write to, once it is made.
    pub fn io(&mut self) -> (r: Option<&mut T>)
        requires
            old(self).wf(),
        ensures
            final(self).wf(),
            match r {
                Some(io) => old(self)@.io() == Some(*io) && final(self)@ == old(self)@.with_io(
                    *final(io),
                ),
                None => old(self)@.io() is None && final(self)@ == old(self)@,
            },
    {
        self.state.io()
    }

    /// The public key of the side that is dialed.
    pub closed spec fn spec_key(&self) -> Seq<u8> {
        self.key@
    }

    /// The handshake is a dialer's.
    pub closed spec fn wf(&self) -> bool {
        self.state.wf() && self@.dials(self.key@)
    }

    /// Starts the handshake on a connection that is being made.
    pub fn new(future: F, session: NoiseSession) -> (r: Self)
        requires
            session.wf(),
            session@.remote matches Some(key) && key.len() == crate::noise::keys::KEY_LEN
                && session@ == SessionModel::fresh(true, session@.secret, Some(key)),
        ensures
            r.wf(),
            Some(r.spec_key()) == session@.remote,
            r@ == HandshakeModel::<F, T>::Init(future, session@),
    {
        let ghost key = session@.remote->Some_0;
        NoiseDialFuture { state: HandshakeState::Init(future, session), key: Ghost(key) }
    }

    fn recv<E, I>(&mut self, io: NoiseOutput<T>, input: ReadInput<I>) -> (r: HandshakeAction<
        T,
        E,
        I,
    >)
        requires
            io.wf(),
            io@.reading.accepts(input),
            old(self).spec_key().len() == crate::noise::keys::KEY_LEN,
            dialer_waits(io@, old(self).spec_key()),
        ensures
            final(self).wf(),
            final(self).spec_key() == old(self).spec_key(),
            exists|c: Chance|
                #![trigger possible_read(io@, input, c)]
                possible_read(io@, input, c) && final(self)@ == dial_recv::<F, T, E, I>(
                    io@,
                    input,
                    c,
                ).0 && performs(r, dial_recv::<F, T, E, I>(io@, input, c).1),
    {
        let mut io = io;
        let ghost before = io@;
        let action = read_nothing(&mut io, input);
        proof {
            let c = choose|c: Chance|
                #![trigger after_read(before, input, c)]
                possible_read(before, input, c) && io@ == after_read(before, input, c) && action
                    == before.reading.step(Seq::empty(), input, c.text).2;
            assert(possible_read(before, input, c));
        }
        match action {
            ReadAction::ReadLen => {
                self.state = HandshakeState::RecvHandshake(io);
                HandshakeAction::ReadLen
            },
            ReadAction::ReadData(n) => {
                self.state = HandshakeState::RecvHandshake(io);
                HandshakeAction::ReadData(n)
            },
            ReadAction::Return(Ok(_)) => {
                self.state = HandshakeState::Done;
                complete::<F, T, E, I>(io)
            },
            ReadAction::Return(Err(IoError::WouldBlock)) => {
                self.state = HandshakeState::RecvHandshake(io);
                HandshakeAction::Return(Ok(Async::NotReady))
            },
            ReadAction::Return(Err(e)) => {
                self.state = HandshakeState::Done;
                HandshakeAction::Return(Err(NoiseError::Io(e)))
            },
        }
    }

    fn flush<E, I>(&mut self, io: NoiseOutput<T>, input: WriteInput<I>) -> (r: HandshakeAction<
        T,
        E,
        I,
    >)
        requires
            io.wf(),
            io@.writing.accepts(input),
            old(self).spec_key().len() == crate::noise::keys::KEY_LEN,
            dialer_asks(io@, old(self).spec_key()),
        ensures
            final(self).wf(),
            final(self).spec_key() == old(self).spec_key(),
            exists|c: Chance|
                #![trigger possible_dial_flush(io@, input, c)]
                possible_dial_flush(io@, input, c) && final(self)@ == dial_flush::<F, T, E, I>(
                    io@,
                    input,
                    c,
                ).0 && performs(r, dial_flush::<F, T, E, I>(io@, input, c).1),
    {
        let mut io = io;
        let ghost before = io@;
        let action = flush_message(&mut io, input);
        let ghost first = choose|c: Chance|
            #![trigger after_flush(before, input, c)]
            possible_flush(before, input, c) && io@ == after_flush(before, input, c) && action@
                == before.writing.flush_step(input, c.message).1;
        match action {
            WriteAction::WriteLen(len) => {
                assert(possible_dial_flush(before, input, first));
                self.state = HandshakeState::Flush(io);
                HandshakeAction::WriteLen(len)
            },
            WriteAction::WriteData(bytes) => {
                assert(possible_dial_flush(before, input, first));
                self.state = HandshakeState::Flush(io);
                HandshakeAction::WriteData(bytes)
            },
            WriteAction::Return(Ok(_)) => {
                let ghost flushed = io@;
                let r = self.recv(io, ReadInput::Start);
                proof {
                    let second = choose|c: Chance|
                        #![trigger possible_read(flushed, ReadInput::<I>::Start, c)]
                        possible_read(flushed, ReadInput::<I>::Start, c) && self@ == dial_recv::<
                            F,
                            T,
                            E,
                            I,
                        >(flushed, ReadInput::Start, c).0 && performs(
                            r,
                            dial_recv::<F, T, E, I>(flushed, ReadInput::Start, c).1,
                        );
                    let c = Chance {
                        text: second.text,
                        received: second.received,
                        message: first.message,
                        sent: first.sent,
                    };
                    assert(after_flush(before, input, c) == flushed);
                    assert(possible_flush(before, input, c));
                    assert(possible_read(flushed, ReadInput::<I>::Start, c));
                    assert(possible_dial_flush(before, input, c));
                    assert(dial_recv::<F, T, E, I>(flushed, ReadInput::Start, c) == dial_recv::<
                        F,
                        T,
                        E,
                        I,
                    >(flushed, ReadInput::Start, second));
                }
                r
            },
            WriteAction::Return(Err(IoError::WouldBlock)) => {
                assert(possible_dial_flush(before, input, first));
                self.state = HandshakeState::Flush(io);
                HandshakeAction::Return(Ok(Async::NotReady))
            },
            WriteAction::Return(Err(e)) => {
                assert(possible_dial_flush(before, input, first));
                self.state = HandshakeState::Done;
                HandshakeAction::Return(Err(NoiseError::Io(e)))
            },
        }
    }

    fn send<E, I>(&mut self, io: NoiseOutput<T>) -> (r: HandshakeAction<T, E, I>)
        requires
            io.wf(),
            HandshakeModel::<F, T>::SendHandshake(io@).dials(old(self).spec_key()),
        ensures
            final(self).wf(),
            final(self).spec_key() == old(self).spec_key(),
            exists|c: Chance|
                #![trigger after_write(io@, c)]
                possible_dial_flush::<T, I>(after_write(io@, c), WriteInput::Start, c) && final(
                    self
                )@ == dial_send::<F, T, E, I>(io@, c).0 && performs(
                    r,
                    dial_send::<F, T, E, I>(io@, c).1,
                ),
    {
        let mut io = io;
        let ghost before = io@;
        write_nothing(&mut io);
        let ghost begun = io@;
        let r = self.flush(io, WriteInput::Start);
        proof {
            let c = choose|c: Chance|
                #![trigger possible_dial_flush(begun, WriteInput::<I>::Start, c)]
                possible_dial_flush(begun, WriteInput::<I>::Start, c) && self@ == dial_flush::<
                    F,
                    T,
                    E,
                    I,
                >(begun, WriteInput::Start, c).0 && performs(
                    r,
                    dial_flush::<F, T, E, I>(begun, WriteInput::Start, c).1,
                );
            assert(after_write(before, c) == begun);
        }
        r
    }

    /// One step of the handshake.
    pub fn poll<E, I>(&mut self, input: HandshakeInput<T, E, I>) -> (r: HandshakeAction<T, E, I>)
        requires
            old(self).wf(),
            old(self)@.accepts(input),
        ensures
            final(self).wf(),
            crate::noise::progress::would_block(input) ==> final(self)@ == old(self)@ && (
            r matches HandshakeAction::Return(Ok(Async::NotReady))),
            r matches HandshakeAction::Return(Err(NoiseError::Inner(e))) ==> input
                == HandshakeInput::<T, E, I>::Connected(Err(e)),
            r matches HandshakeAction::Return(Ok(Async::Ready((k, out)))) ==> k.0@ == old(
                self
            ).spec_key() && out@.session.transport,
            final(self).spec_key() == old(self).spec_key(),
            exists|new: OutputModel<T>, c: Chance|
                #![trigger old(self)@.possible_dial(input, new, c)]
                old(self)@.possible_dial(input, new, c) && final(self)@ == old(self)@.dial_step(
                    input,
                    new,
                    c,
                ).0 && performs(r, old(self)@.dial_step(input, new, c).1),
    {
        let mut state: HandshakeState<F, T> = HandshakeState::Done;
        std::mem::swap(&mut self.state, &mut state);
        match state {
            HandshakeState::Init(future, session) => match input {
                HandshakeInput::Connected(Ok(Async::Ready(io))) => {
                    let output = NoiseOutput::new(io, session);
                    let ghost new = output@;
                    let r = self.send(output);
                    proof {
                        let c = choose|c: Chance|
                            #![trigger after_write(new, c)]
                            possible_dial_flush::<T, I>(after_write(new, c), WriteInput::Start, c)
                                && self@ == dial_send::<F, T, E, I>(new, c).0 && performs(
                                r,
                                dial_send::<F, T, E, I>(new, c).1,
                            );
                        assert(old(self)@.possible_dial(input, new, c));
                    }
                    r
                },
                HandshakeInput::Connected(Err(e)) => {
                    let ghost new: OutputModel<T> = arbitrary();
                    let ghost c: Chance = arbitrary();
                    assert(old(self)@.possible_dial(input, new, c));
                    HandshakeAction::Return(Err(NoiseError::Inner(e)))
                },
                HandshakeInput::Connected(Ok(Async::NotReady)) => {
                    let ghost new: OutputModel<T> = arbitrary();
                    let ghost c: Chance = arbitrary();
                    assert(old(self)@.possible_dial(input, new, c));
                    self.state = HandshakeState::Init(future, session);
                    HandshakeAction::Return(Ok(Async::NotReady))
                },
                _ => {
                    let ghost new: OutputModel<T> = arbitrary();
                    let ghost c: Chance = arbitrary();
                    assert(old(self)@.possible_dial(input, new, c));
                    self.state = HandshakeState::Init(future, session);
                    HandshakeAction::PollInner
                },
            },
            HandshakeState::SendHandshake(io) => {
                let ghost m = io@;
                let r = self.send(io);
                proof {
                    let c = choose|c: Chance|
                        #![trigger after_write(m, c)]
                        possible_dial_flush::<T, I>(after_write(m, c), WriteInput::Start, c)
                            && self@ == dial_send::<F, T, E, I>(m, c).0 && performs(
                            r,
                            dial_send::<F, T, E, I>(m, c).1,
                        );
                    assert(old(self)@.possible_dial(input, m, c));
                }
                r
            },
            HandshakeState::Flush(io) => {
                let ghost m = io@;
                let ghost writing = writes(input);
                let r = self.flush(io, write_input(input));
                proof {
                    let c = choose|c: Chance|
                        #![trigger possible_dial_flush(m, writing, c)]
                        possible_dial_flush(m, writing, c) && self@ == dial_flush::<F, T, E, I>(
                            m,
                            writing,
                            c,
                        ).0 && performs(r, dial_flush::<F, T, E, I>(m, writing, c).1);
                    assert(old(self)@.possible_dial(input, m, c));
                }
                r
            },
            HandshakeState::RecvHandshake(io) => {
                let ghost m = io@;
                let ghost reading = reads(input);
                let r = self.recv(io, read_input(input));
                proof {
                    let c = choose|c: Chance|
                        #![trigger possible_read(m, reading, c)]
                        possible_read(m, reading, c) && self@ == dial_recv::<F, T, E, I>(
                            m,
                            reading,
                            c,
                        ).0 && performs(r, dial_recv::<F, T, E, I>(m, reading, c).1);
                    assert(old(self)@.possible_dial(input, m, c));
                }
                r
            },
            HandshakeState::Done => HandshakeAction::Return(Ok(Async::NotReady)),
        }
    }
}

} // verus!
