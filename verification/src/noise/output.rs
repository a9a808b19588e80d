//! A connection that encrypts what is written to it and decrypts what is read from it.
//!
//! On the wire each encrypted message follows its length, two bytes in network order.

use crate::noise::session::{NoiseSession, SessionModel};
use vstd::prelude::*;

verus! {

/// Greatest length of a message.
pub const MAX_READ_BUF_LEN: usize = 65535;

/// So much is collected before it is encrypted.
pub const MAX_WRITE_BUF_LEN: usize = 16384;

/// Room for an encrypted message.
pub const MAX_CRYPTO_BUF_LEN: usize = 32768;

/// How far reading has come.
#[derive(Debug, Clone, Copy, PartialEq, Eq, Structural)]
#[allow(inconsistent_fields)]
pub enum ReadState {
    /// Initial state.
    Init,
    /// Read encrypted data.
    ReadData {
        /// The length of the message.
        len: usize,
        /// So much of it is there.
        off: usize,
    },
    /// Copy decrypted data.
    CopyData {
        /// The length of the text.
        len: usize,
        /// So much of it has been copied.
        off: usize,
    },
    /// The end has been reached.
    Eof,
    /// A message could not be decrypted.
    DecErr,
}

/// How far writing has come.
#[derive(Debug, Clone, Copy, PartialEq, Eq, Structural)]
#[allow(inconsistent_fields)]
pub enum WriteState {
    /// Initial state.
    Init,
    /// Collect data.
    BufferData {
        /// So much is there.
        off: usize,
    },
    /// Write the length of a message.
    WriteLen {
        /// The length.
        len: usize,
    },
    /// Write a message.
    WriteData {
        /// The length of the message.
        len: usize,
        /// So much of it has been written.
        off: usize,
    },
    /// The end has been reached.
    Eof,
    /// A text could not be encrypted.
    EncErr,
}

/// Why reading or writing failed.
#[derive(Debug, PartialEq, Eq)]
pub enum IoError<I> {
    /// The connection is not ready.
    WouldBlock,
    /// A message could not be decrypted or a text could not be encrypted.
    InvalidData,
    /// The connection has failed.
    Other(I),
}

/// What reading is told.
#[derive(Debug, PartialEq, Eq)]
pub enum ReadInput<I> {
    /// Start, or go on.
    Start,
    /// Outcome of reading the length of a message.
    Len(Result<u16, IoError<I>>),
    /// Outcome of reading a part of a message.
    Data(Result<Vec<u8>, IoError<I>>),
}

/// What writing is told.
#[derive(Debug, PartialEq, Eq)]
pub enum WriteInput<I> {
    /// Start, or go on.
    Start,
    /// Outcome of writing the length of a message.
    LenWritten(Result<(), IoError<I>>),
    /// Outcome of writing a part of a message: how many bytes were taken.
    Written(Result<usize, IoError<I>>),
}

/// What reading wants to be done.
#[derive(Debug, PartialEq, Eq)]
pub enum ReadAction<I> {
    /// Read the length of a message: two bytes in network order.
    ReadLen,
    /// Read a part of a message, of at most this length.
    ReadData(usize),
    /// This is the outcome.
    Return(Result<usize, IoError<I>>),
}

/// What writing wants to be done.
#[derive(Debug, PartialEq, Eq)]
pub enum WriteAction<T, I> {
    /// Write the length of a message: two bytes in network order.
    WriteLen(u16),
    /// Write the bytes, as far as they are taken.
    WriteData(Vec<u8>),
    /// This is the outcome.
    Return(Result<T, IoError<I>>),
}

/// A [`WriteAction`] by what it says.
pub enum WriteStep<T, I> {
    /// Write the length of a message.
    WriteLen(u16),
    /// Write the bytes, as far as they are taken.
    WriteData(Seq<u8>),
    /// This is the outcome.
    Return(Result<T, IoError<I>>),
}

impl<T, I> View for WriteAction<T, I> {
    type V = WriteStep<T, I>;

    open spec fn view(&self) -> WriteStep<T, I> {
        match self {
            WriteAction::WriteLen(len) => WriteStep::WriteLen(*len),
            WriteAction::WriteData(bytes) => WriteStep::WriteData(bytes@),
            WriteAction::Return(r) => WriteStep::Return(*r),
        }
    }
}

/// What is known of the reading side.
#[verifier::ext_equal]
pub struct ReadModel {
    /// How far reading has come.
    pub state: ReadState,
    /// The encrypted message.
    pub buf: Seq<u8>,
    /// The decrypted text.
    pub text: Seq<u8>,
}

/// What is known of the writing side.
#[verifier::ext_equal]
pub struct WriteModel {
    /// How far writing has come.
    pub state: WriteState,
    /// The text that is collected.
    pub buf: Seq<u8>,
    /// The encrypted message.
    pub message: Seq<u8>,
}

/// Outcome of a decryption or encryption: the length of the result, or failure, and what the
/// buffer for the result holds.
pub struct Crypted {
    /// The length of the result.
    pub len: Option<usize>,
    /// What the buffer holds.
    pub buf: Seq<u8>,
}

/// The smaller number.
pub open spec fn least(a: int, b: int) -> int {
    if a <= b {
        a
    } else {
        b
    }
}

/// `s` with `t` in place of what was there from `off` on.
pub open spec fn overwritten(s: Seq<u8>, off: int, t: Seq<u8>) -> Seq<u8> {
    Seq::new(
        s.len(),
        |i: int|
            if off <= i < off + t.len() {
                t[i - off]
            } else {
                s[i]
            },
    )
}

impl ReadModel {
    /// The buffers have their lengths and the state fits them.
    pub open spec fn wf(self) -> bool {
        &&& self.buf.len() == MAX_READ_BUF_LEN
        &&& self.text.len() == MAX_READ_BUF_LEN
        &&& match self.state {
            ReadState::ReadData { len, off } => off < len <= MAX_READ_BUF_LEN,
            ReadState::CopyData { len, off } => off <= len <= MAX_READ_BUF_LEN,
            _ => true,
        }
    }

    /// The input can follow in this state.
    pub open spec fn accepts<I>(self, input: ReadInput<I>) -> bool {
        match input {
            ReadInput::Start => true,
            ReadInput::Len(_) => self.state is Init,
            ReadInput::Data(r) => self.state matches ReadState::ReadData { len, off } && (r matches Ok(
                d,
            ) ==> d@.len() <= len - off),
        }
    }

    /// The input completes a message.
    pub open spec fn completes<I>(self, input: ReadInput<I>) -> bool {
        self.state matches ReadState::ReadData { len, off } && (input matches ReadInput::Data(
            Ok(d),
        ) && d@.len() > 0 && d@.len() == len - off)
    }

    /// The message that the input completes.
    pub open spec fn completed<I>(self, input: ReadInput<I>) -> Seq<u8> {
        overwritten(self.buf, self.state->ReadData_off as int, input->Data_0->Ok_0@).take(
            self.state->ReadData_len as int,
        )
    }

    /// Decrypted data is copied out.
    pub open spec fn copied<I>(self, out: Seq<u8>) -> (Self, Seq<u8>, ReadAction<I>) {
        match self.state {
            ReadState::CopyData { len, off } => {
                let n = least(len - off, out.len() as int);
                (
                    ReadModel {
                        state: if off + n == len {
                            ReadState::Init
                        } else {
                            ReadState::CopyData { len, off: (off + n) as usize }
                        },
                        ..self
                    },
                    overwritten(out, 0, self.text.subrange(off as int, off + n)),
                    ReadAction::Return(Ok(n as usize)),
                )
            },
            _ => (self, out, ReadAction::ReadLen),
        }
    }

    /// A message was decrypted, or could not be decrypted.
    pub open spec fn decrypted<I>(self, out: Seq<u8>, text: Crypted) -> (
        Self,
        Seq<u8>,
        ReadAction<I>,
    ) {
        match text.len {
            Some(len) => (ReadModel {
                state: ReadState::CopyData { len, off: 0 },
                text: text.buf,
                ..self
            }).copied(out),
            None => (
                ReadModel { state: ReadState::DecErr, text: text.buf, ..self },
                out,
                ReadAction::Return(Err(IoError::InvalidData)),
            ),
        }
    }

    /// One step of reading into `out`, where `text` is the outcome of decrypting the message that
    /// the input completes.
    pub open spec fn step<I>(self, out: Seq<u8>, input: ReadInput<I>, text: Crypted) -> (
        Self,
        Seq<u8>,
        ReadAction<I>,
    ) {
        match input {
            ReadInput::Start => match self.state {
                ReadState::Init => (self, out, ReadAction::ReadLen),
                ReadState::ReadData { len, off } => (
                    self,
                    out,
                    ReadAction::ReadData((len - off) as usize),
                ),
                ReadState::CopyData { .. } => self.copied(out),
                ReadState::Eof => (self, out, ReadAction::Return(Ok(0))),
                ReadState::DecErr => (self, out, ReadAction::Return(Err(IoError::InvalidData))),
            },
            ReadInput::Len(Err(e)) => (self, out, ReadAction::Return(Err(e))),
            ReadInput::Len(Ok(n)) => if n == 0 {
                (ReadModel { state: ReadState::Eof, ..self }, out, ReadAction::Return(Ok(0)))
            } else {
                (
                    ReadModel { state: ReadState::ReadData { len: n as usize, off: 0 }, ..self },
                    out,
                    ReadAction::ReadData(n as usize),
                )
            },
            ReadInput::Data(Err(e)) => (self, out, ReadAction::Return(Err(e))),
            ReadInput::Data(Ok(d)) => match self.state {
                ReadState::ReadData { len, off } => if d@.len() == 0 {
                    (ReadModel { state: ReadState::Eof, ..self }, out, ReadAction::Return(Ok(0)))
                } else {
                    let there = ReadModel {
                        state: ReadState::ReadData { len, off: (off + d@.len()) as usize },
                        buf: overwritten(self.buf, off as int, d@),
                        ..self
                    };
                    if off + d@.len() == len {
                        there.decrypted(out, text)
                    } else {
                        (there, out, ReadAction::ReadData((len - off - d@.len()) as usize))
                    }
                },
                _ => (self, out, ReadAction::ReadLen),
            },
        }
    }
}

impl WriteModel {
    /// The buffers have their lengths and the state fits them.
    pub open spec fn wf(self) -> bool {
        &&& self.buf.len() == MAX_WRITE_BUF_LEN
        &&& self.message.len() == MAX_CRYPTO_BUF_LEN
        &&& match self.state {
            WriteState::BufferData { off } => off < MAX_WRITE_BUF_LEN,
            WriteState::WriteLen { len } => len <= MAX_CRYPTO_BUF_LEN,
            WriteState::WriteData { len, off } => off <= len <= MAX_CRYPTO_BUF_LEN,
            _ => true,
        }
    }

    /// The input can follow in this state.
    pub open spec fn accepts<I>(self, input: WriteInput<I>) -> bool {
        match input {
            WriteInput::Start => true,
            WriteInput::LenWritten(_) => self.state is WriteLen,
            WriteInput::Written(r) => self.state matches WriteState::WriteData { len, off } && (
            r matches Ok(n) ==> n <= len - off),
        }
    }

    /// The text that is collected.
    pub open spec fn collected(self) -> Seq<u8> {
        match self.state {
            WriteState::BufferData { off } => self.buf.take(off as int),
            _ => Seq::empty(),
        }
    }

    /// How much more text can be collected.
    pub open spec fn room(self) -> int {
        MAX_WRITE_BUF_LEN - self.collected().len()
    }

    /// Text can be collected now.
    pub open spec fn collects(self) -> bool {
        self.state is Init || self.state is BufferData
    }

    /// A text was encrypted, or could not be encrypted.
    pub open spec fn encrypted(self, message: Crypted) -> Self {
        WriteModel {
            state: match message.len {
                Some(len) => WriteState::WriteLen { len },
                None => WriteState::EncErr,
            },
            message: message.buf,
            ..self
        }
    }

    /// Text is collected, and encrypted when there is enough of it.
    pub open spec fn buffered<I>(self, text: Seq<u8>, message: Crypted) -> (
        Self,
        WriteStep<usize, I>,
    ) {
        let off = self.collected().len();
        let n = least(self.room(), text.len() as int);
        let there = WriteModel {
            state: WriteState::BufferData { off: (off + n) as usize },
            buf: overwritten(self.buf, off as int, text.take(n)),
            ..self
        };
        if off + n == MAX_WRITE_BUF_LEN {
            (
                there.encrypted(message),
                WriteStep::Return(
                    if message.len is Some {
                        Ok(n as usize)
                    } else {
                        Err(IoError::InvalidData)
                    },
                ),
            )
        } else {
            (there, WriteStep::Return(Ok(n as usize)))
        }
    }

    /// A part of a message was written.
    pub open spec fn advanced(self, n: usize) -> Self {
        match self.state {
            WriteState::WriteData { len, off } => WriteModel {
                state: if off + n == len {
                    WriteState::Init
                } else {
                    WriteState::WriteData { len, off: (off + n) as usize }
                },
                ..self
            },
            _ => self,
        }
    }

    /// What is still to be written of the message.
    pub open spec fn unwritten(self) -> Seq<u8> {
        match self.state {
            WriteState::WriteData { len, off } => self.message.subrange(off as int, len as int),
            WriteState::WriteLen { len } => self.message.take(len as int),
            _ => Seq::empty(),
        }
    }

    /// The state after the input but before anything else is done; `None` if the input ends it.
    pub open spec fn after<I>(self, input: WriteInput<I>) -> Option<Self> {
        match input {
            WriteInput::Start => Some(self),
            WriteInput::LenWritten(Ok(())) => match self.state {
                WriteState::WriteLen { len } => Some(
                    WriteModel { state: WriteState::WriteData { len, off: 0 }, ..self },
                ),
                _ => Some(self),
            },
            WriteInput::Written(Ok(n)) => if n == 0 {
                None
            } else {
                Some(self.advanced(n))
            },
            _ => None,
        }
    }

    /// Why the input ends it.
    pub open spec fn ended<T, I>(self, input: WriteInput<I>, nothing: T) -> (Self, WriteStep<T, I>) {
        match input {
            WriteInput::LenWritten(Err(e)) => (self, WriteStep::Return(Err(e))),
            WriteInput::Written(Err(e)) => (self, WriteStep::Return(Err(e))),
            _ => (
                WriteModel { state: WriteState::Eof, ..self },
                WriteStep::Return(Ok(nothing)),
            ),
        }
    }

    /// One step of writing `text`, where `message` is the outcome of encrypting what is collected.
    pub open spec fn write_step<I>(self, text: Seq<u8>, input: WriteInput<I>, message: Crypted) -> (
        Self,
        WriteStep<usize, I>,
    ) {
        match self.after(input) {
            None => self.ended(input, 0),
            Some(s) => match s.state {
                WriteState::Init | WriteState::BufferData { .. } => s.buffered(text, message),
                WriteState::WriteLen { len } => (s, WriteStep::WriteLen(len as u16)),
                WriteState::WriteData { .. } => (s, WriteStep::WriteData(s.unwritten())),
                WriteState::Eof => (s, WriteStep::Return(Ok(0))),
                WriteState::EncErr => (s, WriteStep::Return(Err(IoError::InvalidData))),
            },
        }
    }

    /// The text that writing `text` encrypts in a step.
    pub open spec fn write_encrypts<I>(self, text: Seq<u8>, input: WriteInput<I>) -> Option<
        Seq<u8>,
    > {
        match self.after(input) {
            Some(s) => if s.collects() && s.room() <= text.len() {
                Some(s.collected() + text.take(s.room()))
            } else {
                None
            },
            None => None,
        }
    }

    /// One step of flushing, where `message` is the outcome of encrypting what is collected.
    pub open spec fn flush_step<I>(self, input: WriteInput<I>, message: Crypted) -> (
        Self,
        WriteStep<(), I>,
    ) {
        match self.after(input) {
            None => self.ended(input, ()),
            Some(s) => match s.state {
                WriteState::Init => (s, WriteStep::Return(Ok(()))),
                WriteState::BufferData { .. } => {
                    let t = s.encrypted(message);
                    match t.state {
                        WriteState::WriteLen { len } => (t, WriteStep::WriteLen(len as u16)),
                        _ => (t, WriteStep::Return(Err(IoError::InvalidData))),
                    }
                },
                WriteState::WriteLen { len } => (s, WriteStep::WriteLen(len as u16)),
                WriteState::WriteData { .. } => (s, WriteStep::WriteData(s.unwritten())),
                WriteState::Eof => (s, WriteStep::Return(Ok(()))),
                WriteState::EncErr => (s, WriteStep::Return(Err(IoError::InvalidData))),
            },
        }
    }

    /// The text that flushing encrypts in a step.
    pub open spec fn flush_encrypts<I>(self, input: WriteInput<I>) -> Option<Seq<u8>> {
        match self.after(input) {
            Some(s) => if s.state is BufferData {
                Some(s.collected())
            } else {
                None
            },
            None => None,
        }
    }
}

/// What is known of a connection that encrypts and decrypts.
#[verifier::ext_equal]
pub struct OutputModel<T> {
    /// The connection.
    pub io: T,
    /// The session.
    pub session: SessionModel,
    /// The reading side.
    pub reading: ReadModel,
    /// The writing side.
    pub writing: WriteModel,
}

impl<T> View for NoiseOutput<T> {
    type V = OutputModel<T>;

    open spec fn view(&self) -> OutputModel<T> {
        OutputModel {
            io: self.spec_io(),
            session: self.session(),
            reading: self.reading(),
            writing: self.writing(),
        }
    }
}

/// A connection that encrypts what is written to it and decrypts what is read from it.
pub struct NoiseOutput<T> {
    io: T,
    session: NoiseSession,
    read_buf: Vec<u8>,
    write_buf: Vec<u8>,
    read_crypto_buf: Vec<u8>,
    write_crypto_buf: Vec<u8>,
    read_state: ReadState,
    write_state: WriteState,
}

fn zeros(n: usize) -> (r: Vec<u8>)
    ensures
        r@ == Seq::new(n as nat, |i: int| 0u8),
{
    let mut r: Vec<u8> = Vec::new();
    r.resize(n, 0u8);
    assert(r@ =~= Seq::new(n as nat, |i: int| 0u8));
    r
}

/// Copies `n` bytes of `from`, starting at `start`, to `to`, starting at `off`.
fn copy(to: &mut Vec<u8>, off: usize, from: &[u8], start: usize, n: usize)
    requires
        off + n <= old(to)@.len(),
        start + n <= from@.len(),
    ensures
        final(to)@ == overwritten(old(to)@, off as int, from@.subrange(start as int, start + n)),
{
    let room: usize = to.len();
    let there: usize = from.len();
    let mut i: usize = 0;
    while i < n
        invariant
            i <= n,
            room == old(to)@.len(),
            there == from@.len(),
            off + n <= room,
            start + n <= there,
            to@ =~= overwritten(old(to)@, off as int, from@.subrange(start as int, start + i)),
        decreases n - i,
    {
        to[off + i] = from[start + i];
        i += 1;
    }
}

/// The first `n` bytes.
fn first(bytes: &Vec<u8>, n: usize) -> (r: &[u8])
    requires
        n <= bytes@.len(),
    ensures
        r@ == bytes@.take(n as int),
{
    let r = vstd::slice::slice_subrange(bytes.as_slice(), 0, n);
    assert(r@ =~= bytes@.take(n as int));
    r
}

impl<T> NoiseOutput<T> {
    /// The connection.
    pub closed spec fn spec_io(&self) -> T {
        self.io
    }

    /// What is known of the session.
    pub closed spec fn session(&self) -> SessionModel {
        self.session@
    }

    /// What is known of the reading side.
    pub closed spec fn reading(&self) -> ReadModel {
        ReadModel {
            state: self.read_state,
            buf: self.read_buf@,
            text: self.read_crypto_buf@,
        }
    }

    /// What is known of the writing side.
    pub closed spec fn writing(&self) -> WriteModel {
        WriteModel {
            state: self.write_state,
            buf: self.write_buf@,
            message: self.write_crypto_buf@,
        }
    }

    /// The session counts its messages.
    pub closed spec fn counts(&self) -> bool {
        self.session.wf()
    }

    /// The session and both sides are sound.
    pub open spec fn wf(&self) -> bool {
        self.counts() && self.reading().wf() && self.writing().wf()
    }

    /// Puts a session on a connection.
    pub fn new(io: T, session: NoiseSession) -> (r: Self)
        requires
            session.wf(),
        ensures
            r.wf(),
            r.spec_io() == io,
            r.session() == session@,
            r.reading().state is Init,
            r.writing().state is Init,
    {
        NoiseOutput {
            io,
            session,
            read_buf: zeros(MAX_READ_BUF_LEN),
            write_buf: zeros(MAX_WRITE_BUF_LEN),
            read_crypto_buf: zeros(MAX_READ_BUF_LEN),
            write_crypto_buf: zeros(MAX_CRYPTO_BUF_LEN),
            read_state: ReadState::Init,
            write_state: WriteState::Init,
        }
    }

    /// The connection, to read from or write to.
    pub fn io(&mut self) -> (r: &mut T)
        requires
            old(self).wf(),
        ensures
            *r == old(self).spec_io(),
            final(self).spec_io() == *final(r),
            final(self).wf(),
            final(self).session() == old(self).session(),
            final(self).reading() == old(self).reading(),
            final(self).writing() == old(self).writing(),
    {
        &mut self.io
    }

    /// Can the session read and write another message, once the handshake is over?
    pub fn is_usable(&self) -> (r: bool)
        requires
            self.wf(),
        ensures
            r == (self.session().received.len() < u64::MAX && self.session().can_write()),
    {
        self.session.can_read() && self.session.can_write()
    }

    /// Ends the handshake: gives the other side's public key, as far as it is known, and the
    /// connection that is ready to carry data.
    pub fn into_transport_mode(self) -> (r: Result<(Option<Vec<u8>>, Self), snow::SnowError>)
        requires
            self.wf(),
        ensures
            r is Ok <==> self@.session.transport || self@.session.position
                == crate::noise::session::HANDSHAKE_MESSAGES,
            r matches Ok((key, out)) ==> {
                &&& out.wf()
                &&& out@ == (OutputModel {
                    session: SessionModel { transport: true, ..self@.session },
                    ..self@
                })
                &&& match self@.session.remote {
                    Some(k) => key matches Some(v) && v@ == k,
                    None => key is None,
                }
            },
    {
        match self.session.into_transport_mode() {
            Ok(session) => {
                let key = session.remote_static();
                let out = NoiseOutput {
                    io: self.io,
                    session,
                    read_buf: self.read_buf,
                    write_buf: self.write_buf,
                    read_crypto_buf: self.read_crypto_buf,
                    write_crypto_buf: self.write_crypto_buf,
                    read_state: self.read_state,
                    write_state: self.write_state,
                };
                Ok((key, out))
            },
            Err(e) => Err(e),
        }
    }

    fn copy_data<I>(&mut self, buf: &mut Vec<u8>) -> (r: ReadAction<I>)
        requires
            old(self).wf(),
            old(self).reading().state is CopyData,
        ensures
            final(self).wf(),
            final(self).session() == old(self).session(),
            final(self).writing() == old(self).writing(),
            final(self).spec_io() == old(self).spec_io(),
            (final(self).reading(), final(buf)@, r) == old(self).reading().copied::<I>(old(buf)@),
    {
        if let ReadState::CopyData { len, off } = self.read_state {
            let n: usize = if len - off <= buf.len() {
                len - off
            } else {
                buf.len()
            };
            copy(buf, 0, self.read_crypto_buf.as_slice(), off, n);
            if len == off + n {
                self.read_state = ReadState::Init;
            } else {
                self.read_state = ReadState::CopyData { len, off: off + n };
            }
            ReadAction::Return(Ok(n))
        } else {
            ReadAction::ReadLen
        }
    }

    /// Goes on with reading once a message has been decrypted into a text of the given length, or
    /// could not be decrypted.
    pub fn decrypted<I>(&mut self, len: Option<usize>, buf: &mut Vec<u8>) -> (r: ReadAction<I>)
        requires
            old(self).wf(),
            len matches Some(n) ==> n <= MAX_READ_BUF_LEN,
        ensures
            final(self).wf(),
            final(self).session() == old(self).session(),
            final(self).writing() == old(self).writing(),
            final(self).spec_io() == old(self).spec_io(),
            (final(self).reading(), final(buf)@, r) == old(self).reading().decrypted::<I>(
                old(buf)@,
                (Crypted { len, buf: old(self).reading().text }),
            ),
    {
        match len {
            Some(n) => {
                self.read_state = ReadState::CopyData { len: n, off: 0 };
                self.copy_data(buf)
            },
            None => {
                self.read_state = ReadState::DecErr;
                ReadAction::Return(Err(IoError::InvalidData))
            },
        }
    }

    /// One step of reading into `buf`.
    pub fn read<I>(&mut self, buf: &mut Vec<u8>, input: ReadInput<I>) -> (r: ReadAction<I>)
        requires
            old(self).wf(),
            old(self).reading().accepts(input),
            old(self).reading().completes(input) ==> old(self).session().can_read(),
        ensures
            final(self).wf(),
            final(self).writing() == old(self).writing(),
            final(self).spec_io() == old(self).spec_io(),
            exists|text: Crypted|
                (final(self).reading(), final(buf)@, r) == #[trigger] old(self).reading().step(
                    old(buf)@,
                    input,
                    text,
                ) && if old(self).reading().completes(input) {
                    decrypts(
                        old(self).session(),
                        final(self).session(),
                        old(self).reading().completed(input),
                        text,
                    )
                } else {
                    final(self).session() == old(self).session()
                },
    {
        let ghost idle = self.reading().step(
            buf@,
            input,
            Crypted { len: None, buf: Seq::empty() },
        );
        match input {
            ReadInput::Start => match self.read_state {
                ReadState::Init => ReadAction::ReadLen,
                ReadState::ReadData { len, off } => ReadAction::ReadData(len - off),
                ReadState::CopyData { .. } => self.copy_data(buf),
                ReadState::Eof => ReadAction::Return(Ok(0)),
                ReadState::DecErr => ReadAction::Return(Err(IoError::InvalidData)),
            },
            ReadInput::Len(Err(e)) => ReadAction::Return(Err(e)),
            ReadInput::Len(Ok(n)) => {
                if n == 0 {
                    self.read_state = ReadState::Eof;
                    return ReadAction::Return(Ok(0));
                }
                self.read_state = ReadState::ReadData { len: n as usize, off: 0 };
                ReadAction::ReadData(n as usize)
            },
            ReadInput::Data(Err(e)) => ReadAction::Return(Err(e)),
            ReadInput::Data(Ok(data)) => {
                let n: usize = data.len();
                let (len, off): (usize, usize) = match self.read_state {
                    ReadState::ReadData { len, off } => (len, off),
                    _ => (0, 0),
                };
                if n == 0 {
                    self.read_state = ReadState::Eof;
                    return ReadAction::Return(Ok(0));
                }
                copy(&mut self.read_buf, off, data.as_slice(), 0, n);
                assert(data@.subrange(0, n as int) =~= data@);
                if off + n == len {
                    let opened = self.session.read_message(
                        first(&self.read_buf, len),
                        &mut self.read_crypto_buf,
                    );
                    let text_len: Option<usize> = match opened {
                        Ok(m) => Some(m),
                        Err(_) => None,
                    };
                    let ghost text = Crypted { len: text_len, buf: self.read_crypto_buf@ };
                    self.read_state = ReadState::DecErr;
                    let r = self.decrypted(text_len, buf);
                    proof {
                        let after = old(self).reading().step(old(buf)@, input, text);
                        assert(self.reading() =~= after.0);
                        assert((self.reading(), buf@, r) == after);
                    }
                    r
                } else {
                    self.read_state = ReadState::ReadData { len, off: off + n };
                    ReadAction::ReadData(len - off - n)
                }
            },
        }
    }

    fn encrypt(&mut self, off: usize) -> (r: Option<usize>)
        requires
            old(self).wf(),
            off <= MAX_WRITE_BUF_LEN,
            old(self).session().can_write(),
        ensures
            final(self).wf(),
            final(self).reading() == old(self).reading(),
            final(self).spec_io() == old(self).spec_io(),
            final(self).session() == (SessionModel {
                position: old(self).session().next_position(r is Some),
                sent: old(self).session().sent.push(old(self).writing().buf.take(off as int)),
                messages: old(self).session().messages.push(
                    (Crypted { len: r, buf: final(self).writing().message }).outcome(),
                ),
                ..old(self).session()
            }),
            old(self).session().transport ==> r == Some(
                (off + crate::noise::session::TAG_LEN) as usize,
            ),
            !old(self).session().transport && !old(self).session().initiator && old(
                self
            ).session().position == 0 ==> r is None,
            old(self).session().begins() ==> r == Some(
                (off + crate::noise::session::FIRST_LEN) as usize,
            ),
            old(self).session().answers() ==> r == Some(
                (off + crate::noise::session::SECOND_LEN) as usize,
            ),
            final(self).writing() == old(self).writing().encrypted(
                (Crypted { len: r, buf: final(self).writing().message }),
            ),
            r matches Some(n) ==> n <= MAX_CRYPTO_BUF_LEN,
    {
        let sealed = self.session.write_message(
            first(&self.write_buf, off),
            &mut self.write_crypto_buf,
        );
        match sealed {
            Ok(n) => {
                self.write_state = WriteState::WriteLen { len: n };
                Some(n)
            },
            Err(_) => {
                self.write_state = WriteState::EncErr;
                None
            },
        }
    }

    /// Takes note of the input; the outcome if the input ends the writing.
    fn advance<O, I>(&mut self, input: WriteInput<I>, nothing: O) -> (r: Option<
        Result<O, IoError<I>>,
    >)
        requires
            old(self).wf(),
            old(self).writing().accepts(input),
        ensures
            final(self).wf(),
            final(self).session() == old(self).session(),
            final(self).reading() == old(self).reading(),
            final(self).spec_io() == old(self).spec_io(),
            match old(self).writing().after(input) {
                Some(s) => r is None && final(self).writing() == s,
                None => r is Some && (final(self).writing(), WriteStep::Return(r->Some_0)) == old(
                    self
                ).writing().ended(input, nothing),
            },
    {
        match input {
            WriteInput::Start => None,
            WriteInput::LenWritten(Err(e)) => Some(Err(e)),
            WriteInput::LenWritten(Ok(_)) => {
                if let WriteState::WriteLen { len } = self.write_state {
                    self.write_state = WriteState::WriteData { len, off: 0 };
                }
                None
            },
            WriteInput::Written(Err(e)) => Some(Err(e)),
            WriteInput::Written(Ok(n)) => {
                if n == 0 {
                    self.write_state = WriteState::Eof;
                    return Some(Ok(nothing));
                }
                if let WriteState::WriteData { len, off } = self.write_state {
                    if off + n == len {
                        self.write_state = WriteState::Init;
                    } else {
                        self.write_state = WriteState::WriteData { len, off: off + n };
                    }
                }
                None
            },
        }
    }

    fn unwritten(&self) -> (r: Vec<u8>)
        requires
            self.wf(),
            self.writing().state is WriteData,
        ensures
            r@ == self.writing().unwritten(),
    {
        let mut r: Vec<u8> = Vec::new();
        if let WriteState::WriteData { len, off } = self.write_state {
            r.extend_from_slice(
                vstd::slice::slice_subrange(self.write_crypto_buf.as_slice(), off, len),
            );
        }
        assert(r@ =~= self.writing().unwritten());
        r
    }

    /// One step of writing `buf`.
    pub fn write<I>(&mut self, buf: &[u8], input: WriteInput<I>) -> (r: WriteAction<usize, I>)
        requires
            old(self).wf(),
            old(self).writing().accepts(input),
            old(self).writing().write_encrypts(buf@, input) is Some ==> old(
                self
            ).session().can_write(),
        ensures
            final(self).wf(),
            final(self).reading() == old(self).reading(),
            final(self).spec_io() == old(self).spec_io(),
            exists|message: Crypted|
                (final(self).writing(), r@) == #[trigger] old(self).writing().write_step(
                    buf@,
                    input,
                    message,
                ) && match old(self).writing().write_encrypts(buf@, input) {
                    Some(text) => encrypts(
                        old(self).session(),
                        final(self).session(),
                        text,
                        message,
                    ),
                    None => final(self).session() == old(self).session(),
                },
    {
        let ghost idle = self.writing().write_step(
            buf@,
            input,
            Crypted { len: None, buf: Seq::empty() },
        );
        if let Some(r) = self.advance(input, 0usize) {
            return WriteAction::Return(r);
        }
        let ghost s = self.writing();
        let off: usize = match self.write_state {
            WriteState::Init => 0,
            WriteState::BufferData { off } => off,
            WriteState::WriteLen { len } => {
                return WriteAction::WriteLen(len as u16);
            },
            WriteState::WriteData { .. } => {
                return WriteAction::WriteData(self.unwritten());
            },
            WriteState::Eof => {
                return WriteAction::Return(Ok(0));
            },
            WriteState::EncErr => {
                return WriteAction::Return(Err(IoError::InvalidData));
            },
        };
        let n: usize = if MAX_WRITE_BUF_LEN - off <= buf.len() {
            MAX_WRITE_BUF_LEN - off
        } else {
            buf.len()
        };
        copy(&mut self.write_buf, off, buf, 0, n);
        proof {
            assert(buf@.subrange(0, n as int) =~= buf@.take(n as int));
            assert(s.collected().len() == off);
        }
        if off + n == MAX_WRITE_BUF_LEN {
            self.write_state = WriteState::Init;
            proof {
                assert(self.write_buf@.take(MAX_WRITE_BUF_LEN as int) =~= s.collected()
                    + buf@.take(s.room()));
            }
            let sealed = self.encrypt(MAX_WRITE_BUF_LEN);
            proof {
                let message = Crypted { len: sealed, buf: self.write_crypto_buf@ };
                let step = old(self).writing().write_step(buf@, input, message);
                assert(self.writing() =~= step.0);
            }
            match sealed {
                Some(_) => WriteAction::Return(Ok(n)),
                None => WriteAction::Return(Err(IoError::InvalidData)),
            }
        } else {
            self.write_state = WriteState::BufferData { off: off + n };
            WriteAction::Return(Ok(n))
        }
    }

    /// One step of flushing.
    pub fn flush<I>(&mut self, input: WriteInput<I>) -> (r: WriteAction<(), I>)
        requires
            old(self).wf(),
            old(self).writing().accepts(input),
            old(self).writing().flush_encrypts(input) is Some ==> old(self).session().can_write(),
        ensures
            final(self).wf(),
            final(self).reading() == old(self).reading(),
            final(self).spec_io() == old(self).spec_io(),
            exists|message: Crypted|
                (final(self).writing(), r@) == #[trigger] old(self).writing().flush_step(
                    input,
                    message,
                ) && match old(self).writing().flush_encrypts(input) {
                    Some(text) => encrypts(
                        old(self).session(),
                        final(self).session(),
                        text,
                        message,
                    ),
                    None => final(self).session() == old(self).session(),
                },
    {
        let ghost idle = self.writing().flush_step(
            input,
            Crypted { len: None, buf: Seq::empty() },
        );
        if let Some(r) = self.advance(input, ()) {
            return WriteAction::Return(r);
        }
        match self.write_state {
            WriteState::Init => WriteAction::Return(Ok(())),
            WriteState::BufferData { off } => {
                let sealed = self.encrypt(off);
                proof {
                    let message = Crypted { len: sealed, buf: self.write_crypto_buf@ };
                    let step = old(self).writing().flush_step::<I>(input, message);
                    assert(self.writing() =~= step.0);
                }
                match sealed {
                    Some(len) => WriteAction::WriteLen(len as u16),
                    None => WriteAction::Return(Err(IoError::InvalidData)),
                }
            },
            WriteState::WriteLen { len } => WriteAction::WriteLen(len as u16),
            WriteState::WriteData { .. } => WriteAction::WriteData(self.unwritten()),
            WriteState::Eof => WriteAction::Return(Ok(())),
            WriteState::EncErr => WriteAction::Return(Err(IoError::InvalidData)),
        }
    }
}

impl Crypted {
    /// What was put at the start of the buffer, if it went well.
    pub open spec fn outcome(self) -> Option<Seq<u8>> {
        match self.len {
            Some(n) => Some(self.buf.take(n as int)),
            None => None,
        }
    }
}

/// The session was handed the message to be decrypted; the text is the outcome.
pub open spec fn decrypts(
    old_session: SessionModel,
    new_session: SessionModel,
    message: Seq<u8>,
    text: Crypted,
) -> bool {
    let len = text.len;
    &&& new_session == (SessionModel {
        position: old_session.next_position(len is Some),
        received: old_session.received.push(message),
        texts: old_session.texts.push(text.outcome()),
        remote: new_session.remote,
        ..old_session
    })
    &&& old_session.transport || (old_session.initiator && old_session.position == 1)
        ==> new_session.remote == old_session.remote
    &&& len is Some && !old_session.transport && !old_session.initiator && old_session.position == 0
        ==> (new_session.remote matches Some(k) && k.len() == 32)
    &&& len matches Some(n) ==> n + crate::noise::session::TAG_LEN <= message.len()
    &&& text.buf.len() == MAX_READ_BUF_LEN
}

/// The session was handed the text to be encrypted; the message is the outcome.
pub open spec fn encrypts(
    old_session: SessionModel,
    new_session: SessionModel,
    text: Seq<u8>,
    message: Crypted,
) -> bool {
    let len = message.len;
    &&& new_session == (SessionModel {
        position: old_session.next_position(len is Some),
        sent: old_session.sent.push(text),
        messages: old_session.messages.push(message.outcome()),
        ..old_session
    })
    &&& old_session.transport ==> len == Some(
        (text.len() + crate::noise::session::TAG_LEN) as usize,
    )
    &&& !old_session.transport && !old_session.initiator && old_session.position == 0 ==> len is None
    &&& old_session.begins() ==> len == Some(
        (text.len() + crate::noise::session::FIRST_LEN) as usize,
    )
    &&& old_session.answers() ==> len == Some(
        (text.len() + crate::noise::session::SECOND_LEN) as usize,
    )
    &&& len matches Some(n) ==> n <= MAX_CRYPTO_BUF_LEN
    &&& message.buf.len() == MAX_CRYPTO_BUF_LEN
}


} // verus!
