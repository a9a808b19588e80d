//! How encrypted connections and their handshakes go on, wait and fail.

use crate::async_value::Async;
use crate::noise::handshake::{
    Chance, HandshakeAction, HandshakeInput, HandshakeModel, HandshakeStep,
};
use crate::noise::keys::NoiseError;
use crate::noise::output::{
    Crypted, IoError, OutputModel, ReadAction, ReadInput, ReadModel, ReadState, WriteInput,
    WriteModel, WriteState, WriteStep,
};
use vstd::prelude::*;

verus! {

/// A connection that fails or is not ready while it is read from changes nothing: the error is
/// told as it is, the buffer is left alone, and reading can be gone on with.
pub proof fn law_reading_waits<I>(
    reading: ReadModel,
    out: Seq<u8>,
    input: ReadInput<I>,
    text: Crypted,
    e: IoError<I>,
)
    requires
        reading.accepts(input),
        input == ReadInput::<I>::Len(Err(e)) || input == ReadInput::<I>::Data(Err(e)),
    ensures
        reading.step(out, input, text) == (reading, out, ReadAction::<I>::Return(Err(e))),
{
}

/// How much of a message is missing.
pub open spec fn missing(reading: ReadModel) -> int {
    match reading.state {
        ReadState::ReadData { len, off } => len - off,
        _ => 0,
    }
}

/// To go on with reading asks for what is missing, no more and no less: the length of the next
/// message if none has been begun, and else the bytes of the message that are not there yet.
pub proof fn law_reading_goes_on<I>(reading: ReadModel, out: Seq<u8>, text: Crypted)
    requires
        reading.wf(),
    ensures
        reading.state is Init ==> reading.step(out, ReadInput::<I>::Start, text) == (
            reading,
            out,
            ReadAction::<I>::ReadLen,
        ),
        reading.state is ReadData ==> missing(reading) > 0 && reading.step(
            out,
            ReadInput::<I>::Start,
            text,
        ) == (reading, out, ReadAction::<I>::ReadData(missing(reading) as usize)),
{
}

/// Whatever comes, what is asked for next is what is missing then.
pub proof fn law_reading_asks_for_what_is_missing<I>(
    reading: ReadModel,
    out: Seq<u8>,
    input: ReadInput<I>,
    text: Crypted,
)
    requires
        reading.wf(),
        reading.accepts(input),
    ensures
        ({
            let (next, copied, action) = reading.step(out, input, text);
            &&& action matches ReadAction::ReadData(n) ==> n > 0 && n == missing(next) && copied
                == out
            &&& action is ReadLen ==> next.state is Init && copied == out
            &&& next.state is ReadData && !(action matches ReadAction::Return(Err(_)))
                ==> action is ReadData
        }),
{
}

/// The length of a message says how much of it is missing; each part makes that less, by as much as
/// it brings.
pub proof fn law_parts_of_a_message_come_in<I>(
    reading: ReadModel,
    out: Seq<u8>,
    n: u16,
    part: Vec<u8>,
    text: Crypted,
)
    requires
        reading.wf(),
    ensures
        reading.state is Init && n > 0 ==> {
            let (next, copied, action) = reading.step(out, ReadInput::<I>::Len(Ok(n)), text);
            missing(next) == n && action == ReadAction::<I>::ReadData(n as usize) && copied == out
        },
        reading.state is ReadData && 0 < part@.len() < missing(reading) ==> {
            let (next, copied, action) = reading.step(out, ReadInput::<I>::Data(Ok(part)), text);
            missing(next) == missing(reading) - part@.len() && action == ReadAction::<I>::ReadData(
                missing(next) as usize,
            ) && copied == out
        },
{
}

/// Once a message is complete, its text is read at once, as much of it as there is room for, and
/// the rest is kept; if it could not be decrypted, that is said.
pub proof fn law_complete_message_is_read<I>(
    reading: ReadModel,
    out: Seq<u8>,
    input: ReadInput<I>,
    text: Crypted,
)
    requires
        reading.wf(),
        reading.accepts(input),
        reading.completes(input),
        text.buf.len() == crate::noise::output::MAX_READ_BUF_LEN,
        text.len matches Some(n) ==> n <= crate::noise::output::MAX_READ_BUF_LEN,
    ensures
        ({
            let (next, copied, action) = reading.step(out, input, text);
            match text.outcome() {
                Some(t) => {
                    let n = if t.len() <= out.len() {
                        t.len() as int
                    } else {
                        out.len() as int
                    };
                    &&& action == ReadAction::<I>::Return(Ok(n as usize))
                    &&& copied == t.take(n) + out.skip(n)
                    &&& crate::noise::laws::unread(next) == t.skip(n)
                },
                None => action == ReadAction::<I>::Return(Err(IoError::InvalidData)) && copied
                    == out && next.state is DecErr,
            }
        }),
{
    let (next, copied, action) = reading.step(out, input, text);
    if let Some(t) = text.outcome() {
        let n = if t.len() <= out.len() {
            t.len() as int
        } else {
            out.len() as int
        };
        assert(copied =~= t.take(n) + out.skip(n));
        assert(crate::noise::laws::unread(next) =~= t.skip(n));
    }
}

/// That nothing was read into a buffer with room is said only at the end of the connection, which
/// is a length of nothing or data without a byte, or of an empty text.
pub proof fn law_nothing_is_read_only_at_the_end<I>(
    reading: ReadModel,
    out: Seq<u8>,
    input: ReadInput<I>,
    text: Crypted,
)
    requires
        reading.wf(),
        reading.accepts(input),
        out.len() > 0,
        reading.step(out, input, text).2 == ReadAction::<I>::Return(Ok(0)),
    ensures
        ({
            ||| reading.state is Eof
            ||| (input matches ReadInput::Len(Ok(n)) && n == 0)
            ||| (input matches ReadInput::Data(Ok(d)) && d@.len() == 0)
            ||| (reading.completes(input) && text.len == Some(0usize))
            ||| (reading.state is CopyData && crate::noise::laws::unread(reading).len() == 0)
        }),
{
}

/// The state is the end only if the end was reached.
pub proof fn law_end_comes_from_the_connection<I>(
    reading: ReadModel,
    out: Seq<u8>,
    input: ReadInput<I>,
    text: Crypted,
)
    requires
        reading.wf(),
        reading.accepts(input),
    ensures
        reading.step(out, input, text).0.state is Eof <==> {
            ||| reading.state is Eof
            ||| (input matches ReadInput::Len(Ok(n)) && n == 0)
            ||| (input matches ReadInput::Data(Ok(d)) && d@.len() == 0)
        },
        reading.step(out, input, text).0.state is DecErr <==> {
            ||| reading.state is DecErr
            ||| (reading.completes(input) && text.len is None)
        },
{
}

/// The outcome of handing a message to the reader part by part, where in place of a part the
/// connection may be not ready; the read is begun anew then.
pub open spec fn fed<I>(
    reading: ReadModel,
    out: Seq<u8>,
    parts: Seq<Option<Vec<u8>>>,
    text: Crypted,
) -> (ReadModel, Seq<u8>, ReadAction<I>)
    decreases parts.len(),
{
    if parts.len() == 0 {
        reading.step(out, ReadInput::Start, text)
    } else {
        let step = match parts.first() {
            Some(part) => reading.step(out, ReadInput::<I>::Data(Ok(part)), text),
            None => {
                let waits = reading.step(out, ReadInput::<I>::Data(Err(IoError::WouldBlock)), text);
                waits.0.step(waits.1, ReadInput::<I>::Start, text)
            },
        };
        match step.2 {
            ReadAction::Return(Ok(_)) => step,
            _ => fed(step.0, step.1, parts.drop_first(), text),
        }
    }
}

/// How many bytes the parts have.
pub open spec fn size(parts: Seq<Option<Vec<u8>>>) -> nat
    decreases parts.len(),
{
    if parts.len() == 0 {
        0
    } else {
        size(parts.drop_first()) + match parts.first() {
            Some(part) => part@.len(),
            None => 0,
        }
    }
}

/// A message whose bytes all come is read, however they are cut and however often the connection
/// is not ready in between: all of its text, as much of it as there is room for, the rest being
/// kept.
pub proof fn law_message_is_read_in_the_end<I>(
    reading: ReadModel,
    out: Seq<u8>,
    parts: Seq<Option<Vec<u8>>>,
    text: Crypted,
    t: Seq<u8>,
)
    requires
        reading.wf(),
        reading.state is ReadData,
        size(parts) == missing(reading),
        forall|i: int|
            0 <= i < parts.len() ==> ((#[trigger] parts[i]) matches Some(part) ==> part@.len() > 0),
        text.buf.len() == crate::noise::output::MAX_READ_BUF_LEN,
        text.len matches Some(n) && n <= crate::noise::output::MAX_READ_BUF_LEN,
        text.outcome() == Some(t),
    ensures
        ({
            let (next, copied, action) = fed::<I>(reading, out, parts, text);
            let n = if t.len() <= out.len() {
                t.len() as int
            } else {
                out.len() as int
            };
            &&& action == ReadAction::<I>::Return(Ok(n as usize))
            &&& copied == t.take(n) + out.skip(n)
            &&& crate::noise::laws::unread(next) == t.skip(n)
        }),
    decreases parts.len(),
{
    let rest = parts.drop_first();
    assert forall|i: int| 0 <= i < rest.len() implies ((#[trigger] rest[i]) matches Some(part)
        ==> part@.len() > 0) by {
        assert(rest[i] == parts[i + 1]);
    }
    assert(parts[0] == parts.first());
    match parts.first() {
        Some(part) => {
            let input = ReadInput::<I>::Data(Ok(part));
            let step = reading.step(out, input, text);
            if part@.len() == missing(reading) {
                law_complete_message_is_read(reading, out, input, text);
            } else {
                law_message_is_read_in_the_end::<I>(step.0, out, rest, text, t);
            }
        },
        None => {
            law_message_is_read_in_the_end::<I>(reading, out, rest, text, t);
        },
    }
}

/// A connection that fails or is not ready while it is written to changes nothing: the error is
/// told as it is, and writing and flushing can be gone on with.
pub proof fn law_writing_waits<I>(
    writing: WriteModel,
    text: Seq<u8>,
    input: WriteInput<I>,
    message: Crypted,
    e: IoError<I>,
)
    requires
        writing.accepts(input),
        input == WriteInput::<I>::LenWritten(Err(e)) || input == WriteInput::<I>::Written(Err(e)),
    ensures
        writing.write_step(text, input, message) == (
            writing,
            WriteStep::<usize, I>::Return(Err(e)),
        ),
        writing.flush_step(input, message) == (writing, WriteStep::<(), I>::Return(Err(e))),
        writing.write_encrypts(text, input) is None,
        writing.flush_encrypts(input) is None,
{
}

/// A message that is not out has to get out first: to write or to flush asks for what is left of
/// it, and takes no text.
pub proof fn law_message_gets_out_first<I>(writing: WriteModel, text: Seq<u8>, message: Crypted)
    requires
        writing.wf(),
    ensures
        writing.state matches WriteState::WriteLen { len } ==> {
            &&& writing.write_step(text, WriteInput::<I>::Start, message) == (
                writing,
                WriteStep::<usize, I>::WriteLen(len as u16),
            )
            &&& writing.flush_step(WriteInput::<I>::Start, message) == (
                writing,
                WriteStep::<(), I>::WriteLen(len as u16),
            )
        },
        writing.state is WriteData ==> {
            &&& writing.write_step(text, WriteInput::<I>::Start, message) == (
                writing,
                WriteStep::<usize, I>::WriteData(writing.unwritten()),
            )
            &&& writing.flush_step(WriteInput::<I>::Start, message) == (
                writing,
                WriteStep::<(), I>::WriteData(writing.unwritten()),
            )
        },
{
}

/// Whatever comes, what is asked for next is what is left of the message then.
pub proof fn law_writing_asks_for_what_is_left<I>(
    writing: WriteModel,
    text: Seq<u8>,
    input: WriteInput<I>,
    message: Crypted,
)
    requires
        writing.wf(),
        writing.accepts(input),
        message.len matches Some(n) ==> n <= crate::noise::output::MAX_CRYPTO_BUF_LEN,
    ensures
        ({
            let (next, step) = writing.write_step(text, input, message);
            &&& step matches WriteStep::WriteLen(n) ==> (next.state matches WriteState::WriteLen {
                len,
            } && n == len)
            &&& step matches WriteStep::WriteData(b) ==> next.state is WriteData && b
                == next.unwritten()
        }),
        ({
            let (next, step) = writing.flush_step(input, message);
            &&& step matches WriteStep::WriteLen(n) ==> (next.state matches WriteState::WriteLen {
                len,
            } && n == len)
            &&& step matches WriteStep::WriteData(b) ==> next.state is WriteData && b
                == next.unwritten()
            &&& step == WriteStep::<(), I>::Return(Ok(())) ==> next.state is Init || next.state
                is Eof
        }),
        input == WriteInput::<I>::LenWritten(Ok(())) ==> ({
            let next = writing.flush_step(input, message).0;
            next.state is WriteData && next.unwritten() == writing.unwritten()
        }),
{
    if input == WriteInput::<I>::LenWritten(Ok(())) {
        let next = writing.flush_step(input, message).0;
        assert(next.unwritten() =~= writing.unwritten());
    }
}

/// As long as text can be collected, a write takes as much of it as there is room for: all of it if
/// there is room for all, and never nothing of a text that is not empty. Nothing is encrypted
/// before the room is used up.
pub proof fn law_text_is_taken<I>(writing: WriteModel, text: Seq<u8>, message: Crypted)
    requires
        writing.wf(),
        writing.collects(),
        message.len is Some,
    ensures
        ({
            let (next, step) = writing.write_step(text, WriteInput::<I>::Start, message);
            let room = crate::noise::output::MAX_WRITE_BUF_LEN - writing.collected().len();
            let n = if text.len() <= room {
                text.len() as int
            } else {
                room
            };
            &&& step == WriteStep::<usize, I>::Return(Ok(n as usize))
            &&& text.len() > 0 ==> n > 0
            &&& text.len() < room ==> next.collected() == writing.collected() + text
                && writing.write_encrypts(text, WriteInput::<I>::Start) is None
            &&& text.len() >= room ==> writing.write_encrypts(text, WriteInput::<I>::Start) == Some(
                writing.collected() + text.take(room),
            ) && (next.state matches WriteState::WriteLen { len } && Some(len) == message.len)
        }),
{
    let (next, step) = writing.write_step(text, WriteInput::<I>::Start, message);
    let room = crate::noise::output::MAX_WRITE_BUF_LEN - writing.collected().len();
    if text.len() < room {
        assert(next.collected() =~= writing.collected() + text);
        assert(text.take(text.len() as int) =~= text);
    }
}

/// To flush encrypts what is collected, if there is anything to be encrypted, and asks for the
/// message to be written; it succeeds at once if nothing is collected.
pub proof fn law_flush_begins<I>(writing: WriteModel, message: Crypted)
    requires
        writing.wf(),
        writing.collects(),
        message.len matches Some(n) && n <= crate::noise::output::MAX_CRYPTO_BUF_LEN,
    ensures
        writing.state is Init ==> writing.flush_step(WriteInput::<I>::Start, message) == (
            writing,
            WriteStep::<(), I>::Return(Ok(())),
        ) && writing.flush_encrypts(WriteInput::<I>::Start) is None,
        writing.state is BufferData ==> {
            let (next, step) = writing.flush_step(WriteInput::<I>::Start, message);
            &&& writing.flush_encrypts(WriteInput::<I>::Start) == Some(writing.collected())
            &&& step == WriteStep::<(), I>::WriteLen(message.len->Some_0 as u16)
            &&& Some(next.unwritten()) == message.outcome()
        },
{
}

/// A text that cannot be encrypted is told so, and so is every write after it; a connection that
/// takes nothing of a message has ended, and only that one.
pub proof fn law_failures_of_writing<I>(
    writing: WriteModel,
    text: Seq<u8>,
    input: WriteInput<I>,
    message: Crypted,
)
    requires
        writing.wf(),
        writing.accepts(input),
    ensures
        ({
            let (next, step) = writing.write_step(text, input, message);
            &&& next.state is EncErr <==> writing.state is EncErr || (writing.write_encrypts(
                text,
                input,
            ) is Some && message.len is None)
            &&& next.state is Eof <==> writing.state is Eof || (input matches WriteInput::Written(
                Ok(n),
            ) && n == 0)
            &&& step matches WriteStep::Return(Err(e)) ==> (next.state is EncErr && e
                is InvalidData) || input == WriteInput::<I>::LenWritten(Err(e)) || input
                == WriteInput::<I>::Written(Err(e))
            &&& step matches WriteStep::Return(Ok(n)) ==> n == 0 ==> text.len() == 0 || next.state
                is Eof
        }),
        ({
            let (next, step) = writing.flush_step(input, message);
            &&& next.state is EncErr <==> writing.state is EncErr || (writing.flush_encrypts(
                input,
            ) is Some && message.len is None)
            &&& next.state is Eof <==> writing.state is Eof || (input matches WriteInput::Written(
                Ok(n),
            ) && n == 0)
            &&& step matches WriteStep::Return(Err(e)) ==> (next.state is EncErr && e
                is InvalidData) || input == WriteInput::<I>::LenWritten(Err(e)) || input
                == WriteInput::<I>::Written(Err(e))
        }),
{
}

/// The input says that the connection is not ready.
pub open spec fn would_block<T, E, I>(input: HandshakeInput<T, E, I>) -> bool {
    match input {
        HandshakeInput::Start => false,
        HandshakeInput::Connected(p) => p matches Ok(Async::NotReady),
        HandshakeInput::Len(r) => r matches Err(IoError::WouldBlock),
        HandshakeInput::Data(r) => r matches Err(IoError::WouldBlock),
        HandshakeInput::LenWritten(r) => r matches Err(IoError::WouldBlock),
        HandshakeInput::Written(r) => r matches Err(IoError::WouldBlock),
    }
}

/// A connection that is not ready never ends a handshake: both sides wait, and nothing changes.
pub proof fn law_handshake_waits<F, T, E, I>(
    s: HandshakeModel<F, T>,
    input: HandshakeInput<T, E, I>,
    new: OutputModel<T>,
    c: Chance,
)
    requires
        s.accepts(input),
        would_block(input),
    ensures
        s.listen_step(input, new, c) == (s, HandshakeStep::<T, E, I>::NotReady),
        s.dial_step(input, new, c) == (s, HandshakeStep::<T, E, I>::NotReady),
{
    match s {
        HandshakeModel::RecvHandshake(m) => {
            assert(crate::noise::handshake::after_read(
                m,
                crate::noise::handshake::reads(input),
                c,
            ) =~= m);
        },
        HandshakeModel::Flush(m) => {
            assert(crate::noise::handshake::after_flush(
                m,
                crate::noise::handshake::writes(input),
                c,
            ) =~= m);
        },
        _ => {},
    }
}

/// To go on with a handshake asks for what is missing: that the connection be made, what is left of
/// the own message to be written, or what has not come of the other side's.
pub proof fn law_handshake_goes_on<F, T, E, I>(
    s: HandshakeModel<F, T>,
    new: OutputModel<T>,
    c: Chance,
)
    requires
        s matches HandshakeModel::RecvHandshake(m) ==> m.reading.wf(),
        s matches HandshakeModel::Flush(m) ==> m.writing.wf(),
    ensures
        ({
            let (next, step) = s.listen_step::<E, I>(HandshakeInput::Start, new, c);
            let (after, asked) = s.dial_step::<E, I>(HandshakeInput::Start, new, c);
            match s {
                HandshakeModel::Init(_, _) => next == s && after == s && step is PollInner && asked
                    is PollInner,
                HandshakeModel::RecvHandshake(m) => match m.reading.state {
                    ReadState::Init => next == s && after == s && step is ReadLen && asked is ReadLen,
                    ReadState::ReadData { len, off } => next == s && after == s && step
                        == HandshakeStep::<T, E, I>::ReadData((len - off) as usize) && asked
                        == HandshakeStep::<T, E, I>::ReadData((len - off) as usize),
                    _ => true,
                },
                HandshakeModel::Flush(m) => match m.writing.state {
                    WriteState::WriteLen { len } => next == s && after == s && step
                        == HandshakeStep::<T, E, I>::WriteLen(len as u16) && asked
                        == HandshakeStep::<T, E, I>::WriteLen(len as u16),
                    WriteState::WriteData { .. } => next == s && after == s && step
                        == HandshakeStep::<T, E, I>::WriteData(m.writing.unwritten()) && asked
                        == HandshakeStep::<T, E, I>::WriteData(m.writing.unwritten()),
                    _ => true,
                },
                _ => true,
            }
        }),
{
    match s {
        HandshakeModel::RecvHandshake(m) => {
            assert(crate::noise::handshake::after_read(m, ReadInput::<I>::Start, c) =~= m
                || !(m.reading.state is Init || m.reading.state is ReadData));
        },
        HandshakeModel::Flush(m) => {
            assert(crate::noise::handshake::after_flush(m, WriteInput::<I>::Start, c) =~= m
                || !(m.writing.state is WriteLen || m.writing.state is WriteData));
        },
        _ => {},
    }
}

/// The input is no failure: the connection is made, takes and gives at least one byte when it is
/// asked, or is not ready; and what comes in can be decrypted.
pub open spec fn is_good<F, T, E, I>(
    s: HandshakeModel<F, T>,
    input: HandshakeInput<T, E, I>,
    c: Chance,
) -> bool {
    would_block(input) || match input {
        HandshakeInput::Start => true,
        HandshakeInput::Connected(p) => p matches Ok(Async::Ready(_)),
        HandshakeInput::Len(r) => r matches Ok(n) && n > 0,
        HandshakeInput::Data(r) => (r matches Ok(d) && d@.len() > 0) && (
        s matches HandshakeModel::RecvHandshake(m) && m.reading.completes(
            crate::noise::handshake::reads(input),
        ) ==> c.text.len == Some(0usize)),
        HandshakeInput::LenWritten(r) => r is Ok,
        HandshakeInput::Written(r) => r matches Ok(n) && n > 0,
    }
}

/// The handshake has met no failure so far.
pub open spec fn is_sound<F, T>(s: HandshakeModel<F, T>) -> bool {
    match s {
        HandshakeModel::RecvHandshake(m) => {
            &&& m.reading.wf()
            &&& m.writing.wf()
            &&& m.reading.state is Init || m.reading.state is ReadData
        },
        HandshakeModel::Flush(m) => {
            &&& m.reading.wf()
            &&& m.writing.wf()
            &&& m.writing.state is WriteLen || (m.writing.state matches WriteState::WriteData {
                len,
                off,
            } && off < len)
            &&& m.writing.state matches WriteState::WriteLen { len } ==> len > 0
            &&& m.session.initiator || m.session.position
                == crate::noise::session::HANDSHAKE_MESSAGES
        },
        HandshakeModel::SendHandshake(_) => false,
        _ => true,
    }
}

/// How far the end is, for a dialer or a listener: a number that no good input but waiting leaves
/// as it is.
pub open spec fn distance<F, T>(s: HandshakeModel<F, T>, dials: bool) -> nat {
    match s {
        HandshakeModel::Init(_, _) => 300_000,
        HandshakeModel::SendHandshake(_) => 300_000,
        HandshakeModel::RecvHandshake(m) => (if dials {
            0nat
        } else {
            100_000
        }) + match m.reading.state {
            ReadState::ReadData { len, off } => if off <= len {
                (len - off) as nat
            } else {
                0
            },
            _ => 70_000,
        },
        HandshakeModel::Flush(m) => (if dials {
            100_000nat
        } else {
            0
        }) + crate::noise::laws::to_write(m.writing).len(),
        HandshakeModel::Done => 0,
    }
}

/// A dialer whose connection does not fail, and whose listener's answer can be decrypted, gets to
/// the end: each input but waiting brings that nearer, and the only end is the encrypted
/// connection to the side that was dialed.
pub proof fn law_dialer_gets_to_the_end<F, T, E, I>(
    s: HandshakeModel<F, T>,
    key: Seq<u8>,
    input: HandshakeInput<T, E, I>,
    new: OutputModel<T>,
    c: Chance,
)
    requires
        s.dials(key),
        is_sound(s),
        s.accepts(input),
        s.possible_dial(input, new, c),
        new.reading.wf(),
        new.writing.wf(),
        is_good(s, input, c),
    ensures
        ({
            let (next, step) = s.dial_step(input, new, c);
            &&& next is Done <==> step is Ready
            &&& step matches HandshakeStep::Ready(k, m) ==> k == key && m.session.transport
            &&& !(step is Io || step is Noise || step is InvalidKey || step is Inner)
            &&& is_sound(next)
            &&& next.dials(key)
            &&& if input is Start || would_block(input) {
                next == s
            } else {
                distance(next, true) < distance(s, true) || step is Ready
            }
        }),
{
    if would_block(input) {
        law_handshake_waits(s, input, new, c);
    } else if input is Start {
        law_handshake_goes_on::<F, T, E, I>(s, new, c);
    } else {
        match s {
            HandshakeModel::Flush(m) => {
                lemma_flush_comes_nearer(m, crate::noise::handshake::writes(input), c);
            },
            _ => {},
        }
    }
}

/// A listener whose connection does not fail, and whose dialer's message can be decrypted, gets to
/// the end: each input but waiting brings that nearer, and the only end is the encrypted
/// connection.
pub proof fn law_listener_gets_to_the_end<F, T, E, I>(
    s: HandshakeModel<F, T>,
    input: HandshakeInput<T, E, I>,
    new: OutputModel<T>,
    c: Chance,
)
    requires
        s.listens(),
        is_sound(s),
        s.accepts(input),
        s.possible_listen(input, new, c),
        new.reading.wf(),
        new.writing.wf(),
        is_good(s, input, c),
    ensures
        ({
            let (next, step) = s.listen_step(input, new, c);
            &&& next is Done <==> step is Ready
            &&& step matches HandshakeStep::Ready(k, m) ==> k.len()
                == crate::noise::keys::KEY_LEN && m.session.transport
            &&& !(step is Io || step is Noise || step is InvalidKey || step is Inner)
            &&& is_sound(next)
            &&& next.listens()
            &&& if input is Start || would_block(input) {
                next == s
            } else {
                distance(next, false) < distance(s, false) || step is Ready
            }
        }),
{
    if would_block(input) {
        law_handshake_waits(s, input, new, c);
    } else if input is Start {
        law_handshake_goes_on::<F, T, E, I>(s, new, c);
    } else {
        match s {
            HandshakeModel::Flush(m) => {
                lemma_flush_comes_nearer(m, crate::noise::handshake::writes(input), c);
            },
            _ => {},
        }
    }
}

/// The encrypted connection that a dialer gets with these inputs, with the public key of the other
/// side.
pub open spec fn dial_reaches<F, T, E, I>(
    s: HandshakeModel<F, T>,
    polls: Seq<(HandshakeInput<T, E, I>, OutputModel<T>, Chance)>,
) -> Option<(Seq<u8>, OutputModel<T>)>
    decreases polls.len(),
{
    if polls.len() == 0 {
        None
    } else {
        let (input, new, c) = polls.first();
        let (next, step) = s.dial_step(input, new, c);
        match step {
            HandshakeStep::Ready(key, m) => Some((key, m)),
            _ => dial_reaches(next, polls.drop_first()),
        }
    }
}

/// Each input can follow and is no failure, until the dialer gets to the end.
pub open spec fn dial_is_good<F, T, E, I>(
    s: HandshakeModel<F, T>,
    polls: Seq<(HandshakeInput<T, E, I>, OutputModel<T>, Chance)>,
) -> bool
    decreases polls.len(),
{
    polls.len() == 0 || {
        let (input, new, c) = polls.first();
        let (next, step) = s.dial_step(input, new, c);
        &&& s.accepts(input)
        &&& s.possible_dial(input, new, c)
        &&& new.reading.wf()
        &&& new.writing.wf()
        &&& is_good(s, input, c)
        &&& step is Ready || dial_is_good(next, polls.drop_first())
    }
}

/// The encrypted connection that a listener gets with these inputs, with the public key of the other
/// side.
pub open spec fn listen_reaches<F, T, E, I>(
    s: HandshakeModel<F, T>,
    polls: Seq<(HandshakeInput<T, E, I>, OutputModel<T>, Chance)>,
) -> Option<(Seq<u8>, OutputModel<T>)>
    decreases polls.len(),
{
    if polls.len() == 0 {
        None
    } else {
        let (input, new, c) = polls.first();
        let (next, step) = s.listen_step(input, new, c);
        match step {
            HandshakeStep::Ready(key, m) => Some((key, m)),
            _ => listen_reaches(next, polls.drop_first()),
        }
    }
}

/// Each input can follow and is no failure, until the listener gets to the end.
pub open spec fn listen_is_good<F, T, E, I>(
    s: HandshakeModel<F, T>,
    polls: Seq<(HandshakeInput<T, E, I>, OutputModel<T>, Chance)>,
) -> bool
    decreases polls.len(),
{
    polls.len() == 0 || {
        let (input, new, c) = polls.first();
        let (next, step) = s.listen_step(input, new, c);
        &&& s.accepts(input)
        &&& s.possible_listen(input, new, c)
        &&& new.reading.wf()
        &&& new.writing.wf()
        &&& is_good(s, input, c)
        &&& step is Ready || listen_is_good(next, polls.drop_first())
    }
}

/// How many of the inputs do more than to wait.
pub open spec fn working<T, E, I>(
    polls: Seq<(HandshakeInput<T, E, I>, OutputModel<T>, Chance)>,
) -> nat
    decreases polls.len(),
{
    if polls.len() == 0 {
        0
    } else {
        working(polls.drop_first()) + if polls.first().0 is Start || would_block(polls.first().0) {
            0nat
        } else {
            1
        }
    }
}

/// However the bytes are cut and however often the connection is not ready, a dialer reaches the end
/// of its handshake after so many inputs that do more than to wait.
pub proof fn law_dialer_reaches_the_end<F, T, E, I>(
    s: HandshakeModel<F, T>,
    key: Seq<u8>,
    polls: Seq<(HandshakeInput<T, E, I>, OutputModel<T>, Chance)>,
)
    requires
        s.dials(key),
        is_sound(s),
        !(s is Done),
        dial_is_good(s, polls),
        working(polls) > distance(s, true),
    ensures
        dial_reaches(s, polls) matches Some((k, m)) && k == key && m.session.transport,
    decreases polls.len(),
{
    let (input, new, c) = polls.first();
    let rest = polls.drop_first();
    let (next, step) = s.dial_step(input, new, c);
    law_dialer_gets_to_the_end(s, key, input, new, c);
    if !(step is Ready) {
        law_dialer_reaches_the_end(next, key, rest);
    }
}

/// However the bytes are cut and however often the connection is not ready, a listener reaches the end
/// of its handshake after so many inputs that do more than to wait.
pub proof fn law_listener_reaches_the_end<F, T, E, I>(
    s: HandshakeModel<F, T>,
    polls: Seq<(HandshakeInput<T, E, I>, OutputModel<T>, Chance)>,
)
    requires
        s.listens(),
        is_sound(s),
        !(s is Done),
        listen_is_good(s, polls),
        working(polls) > distance(s, false),
    ensures
        listen_reaches(s, polls) matches Some((k, m)) && k.len()
            == crate::noise::keys::KEY_LEN && m.session.transport,
    decreases polls.len(),
{
    let (input, new, c) = polls.first();
    let rest = polls.drop_first();
    let (next, step) = s.listen_step(input, new, c);
    law_listener_gets_to_the_end(s, input, new, c);
    if !(step is Ready) {
        law_listener_reaches_the_end(next, rest);
    }
}

proof fn lemma_flush_comes_nearer<T, I>(m: OutputModel<T>, input: WriteInput<I>, c: Chance)
    requires
        is_sound(HandshakeModel::<(), T>::Flush(m)),
        m.writing.accepts(input),
        input matches WriteInput::LenWritten(r) ==> r is Ok,
        input matches WriteInput::Written(r) ==> (r matches Ok(n) && n > 0),
        !(input is Start),
    ensures
        m.writing.flush_encrypts(input) is None,
        ({
            let (next, step) = m.writing.flush_step(input, c.message);
            &&& next.wf()
            &&& crate::noise::laws::to_write(next).len() < crate::noise::laws::to_write(
                m.writing,
            ).len()
            &&& (next.state is Init && step == WriteStep::<(), I>::Return(Ok(()))) || (
            next.state matches WriteState::WriteData { len, off } && off < len && step
                == WriteStep::<(), I>::WriteData(next.unwritten()))
        }),
{
}

/// A failure of the connection ends a handshake with that failure, and a handshake fails for no
/// other reason than that, the end of the connection, or a message that cannot be read or made.
pub proof fn law_failures_of_a_handshake<F, T, E, I>(
    s: HandshakeModel<F, T>,
    input: HandshakeInput<T, E, I>,
    new: OutputModel<T>,
    c: Chance,
    e: IoError<I>,
)
    requires
        s.accepts(input),
        !(e is WouldBlock),
        input == HandshakeInput::<T, E, I>::Len(Err(e)) || input == HandshakeInput::<T, E, I>::Data(
            Err(e),
        ) || input == HandshakeInput::<T, E, I>::LenWritten(Err(e)) || input == HandshakeInput::<
            T,
            E,
            I,
        >::Written(Err(e)),
    ensures
        s.listen_step(input, new, c) == (
            HandshakeModel::<F, T>::Done,
            HandshakeStep::<T, E, I>::Io(e),
        ),
        s.dial_step(input, new, c) == (
            HandshakeModel::<F, T>::Done,
            HandshakeStep::<T, E, I>::Io(e),
        ),
{
}

/// A connection that could not be made ends a handshake with the reason.
pub proof fn law_failed_connection_ends_the_handshake<F, T, E, I>(
    s: HandshakeModel<F, T>,
    new: OutputModel<T>,
    c: Chance,
    e: E,
)
    requires
        s is Init,
    ensures
        s.listen_step::<E, I>(HandshakeInput::Connected(Err(e)), new, c) == (
            HandshakeModel::<F, T>::Done,
            HandshakeStep::<T, E, I>::Inner(e),
        ),
        s.dial_step::<E, I>(HandshakeInput::Connected(Err(e)), new, c) == (
            HandshakeModel::<F, T>::Done,
            HandshakeStep::<T, E, I>::Inner(e),
        ),
{
}

/// The listener speaks second: once the connection is made, it asks for the length of the dialer's
/// message before anything else.
pub proof fn law_listener_listens_first<F, T, E, I>(
    s: HandshakeModel<F, T>,
    io: T,
    new: OutputModel<T>,
    c: Chance,
)
    requires
        s.listens(),
        s is Init,
        s.possible_listen::<E, I>(HandshakeInput::Connected(Ok(Async::Ready(io))), new, c),
    ensures
        ({
            let (next, step) = s.listen_step::<E, I>(
                HandshakeInput::Connected(Ok(Async::Ready(io))),
                new,
                c,
            );
            &&& step is ReadLen
            &&& next matches HandshakeModel::RecvHandshake(m) && m.io == io && m.session.position
                == 0
        }),
{
}

/// A connection is never taken for encrypted before both messages of the handshake have been
/// exchanged, nor without a public key of the right length.
pub proof fn law_encrypted_only_after_both_messages<F, T, E, I>(
    s: HandshakeModel<F, T>,
    key: Seq<u8>,
    input: HandshakeInput<T, E, I>,
    new: OutputModel<T>,
    c: Chance,
)
    requires
        s.accepts(input),
    ensures
        s.dials(key) && s.possible_dial(input, new, c) ==> (s.dial_step(
            input,
            new,
            c,
        ).1 matches HandshakeStep::Ready(k, m) ==> m.session.remote == Some(k) && k.len()
            == crate::noise::keys::KEY_LEN && m.session.transport && m.session.position
            == crate::noise::session::HANDSHAKE_MESSAGES),
        s.listens() && s.possible_listen(input, new, c) ==> (s.listen_step(
            input,
            new,
            c,
        ).1 matches HandshakeStep::Ready(k, m) ==> m.session.remote == Some(k) && k.len()
            == crate::noise::keys::KEY_LEN && m.session.transport && m.session.position
            == crate::noise::session::HANDSHAKE_MESSAGES),
{
}

/// A message of the other side that cannot be decrypted ends the handshake, and so does the end of
/// the connection: no connection is taken for encrypted then.
pub proof fn law_handshake_fails_without_a_message<F, T, E, I>(
    s: HandshakeModel<F, T>,
    key: Seq<u8>,
    input: HandshakeInput<T, E, I>,
    new: OutputModel<T>,
    c: Chance,
    m: OutputModel<T>,
)
    requires
        s == HandshakeModel::<F, T>::RecvHandshake(m),
        m.reading.wf(),
        s.accepts(input),
        (m.reading.completes(crate::noise::handshake::reads(input)) && c.text.len is None) || input
            == HandshakeInput::<T, E, I>::Len(Ok(0)) || (input matches HandshakeInput::Data(Ok(d))
            && d@.len() == 0),
    ensures
        s.dials(key) && s.possible_dial(input, new, c) ==> {
            let (next, step) = s.dial_step(input, new, c);
            next is Done && (step is Noise || step == HandshakeStep::<T, E, I>::Io(
                IoError::InvalidData,
            ))
        },
        s.listens() && s.possible_listen(input, new, c) ==> {
            let (next, step) = s.listen_step(input, new, c);
            next is Done && step == HandshakeStep::<T, E, I>::Io(IoError::InvalidData)
        },
{
}

/// Each action is what the step of the handshake asks for or tells.
pub proof fn law_handshake_does_what_it_says<T, E, I>(
    action: HandshakeAction<T, E, I>,
    step: HandshakeStep<T, E, I>,
)
    requires
        crate::noise::handshake::performs(action, step),
    ensures
        match action {
            HandshakeAction::PollInner => step is PollInner,
            HandshakeAction::ReadLen => step is ReadLen,
            HandshakeAction::ReadData(n) => step == HandshakeStep::<T, E, I>::ReadData(n),
            HandshakeAction::WriteLen(n) => step == HandshakeStep::<T, E, I>::WriteLen(n),
            HandshakeAction::WriteData(v) => step == HandshakeStep::<T, E, I>::WriteData(v@),
            HandshakeAction::Return(Ok(Async::NotReady)) => step is NotReady,
            HandshakeAction::Return(Ok(Async::Ready((k, out)))) => step == HandshakeStep::<
                T,
                E,
                I,
            >::Ready(k.0@, out@) && out.wf(),
            HandshakeAction::Return(Err(NoiseError::Inner(e))) => step == HandshakeStep::<
                T,
                E,
                I,
            >::Inner(e),
            HandshakeAction::Return(Err(NoiseError::Io(e))) => step == HandshakeStep::<T, E, I>::Io(
                e,
            ),
            HandshakeAction::Return(Err(NoiseError::Noise(_))) => step is Noise,
            HandshakeAction::Return(Err(NoiseError::InvalidKey)) => step is InvalidKey,
            _ => true,
        },
{
}

/// What is asked for can be handed in, whatever it is, as long as no more comes or is taken than
/// was asked for or given.
pub proof fn law_connection_takes_what_it_asks_for<I>(reading: ReadModel, writing: WriteModel)
    requires
        reading.wf(),
        writing.wf(),
    ensures
        reading.accepts(ReadInput::<I>::Start),
        writing.accepts(WriteInput::<I>::Start),
        reading.state is Init ==> forall|r: Result<u16, IoError<I>>| #[trigger]
            reading.accepts(ReadInput::Len(r)),
        reading.state is ReadData ==> forall|e: IoError<I>| #[trigger]
            reading.accepts(ReadInput::Data(Err(e))),
        reading.state is ReadData ==> forall|d: Vec<u8>|
            d@.len() <= missing(reading) ==> #[trigger] reading.accepts(
                ReadInput::<I>::Data(Ok(d)),
            ),
        writing.state is WriteLen ==> forall|r: Result<(), IoError<I>>| #[trigger]
            writing.accepts(WriteInput::LenWritten(r)),
        writing.state is WriteData ==> forall|e: IoError<I>| #[trigger]
            writing.accepts(WriteInput::Written(Err(e))),
        writing.state is WriteData ==> forall|n: usize|
            n <= writing.unwritten().len() ==> #[trigger] writing.accepts(
                WriteInput::<I>::Written(Ok(n)),
            ),
{
}

/// A handshake takes what its connection takes, and the outcome of making the connection.
pub proof fn law_handshake_takes_what_it_asks_for<F, T, E, I>(s: HandshakeModel<F, T>)
    ensures
        s is Init ==> forall|p: crate::async_value::Poll<T, E>| #[trigger]
            s.accepts::<E, I>(HandshakeInput::Connected(p)),
        !(s is Done) ==> s.accepts::<E, I>(HandshakeInput::Start),
        s matches HandshakeModel::RecvHandshake(m) ==> {
            &&& forall|r: Result<u16, IoError<I>>| #[trigger]
                s.accepts::<E, I>(HandshakeInput::Len(r)) <==> m.reading.accepts(ReadInput::Len(r))
            &&& forall|r: Result<Vec<u8>, IoError<I>>| #[trigger]
                s.accepts::<E, I>(HandshakeInput::Data(r)) <==> m.reading.accepts(
                    ReadInput::Data(r),
                )
        },
        s matches HandshakeModel::Flush(m) ==> {
            &&& forall|r: Result<(), IoError<I>>| #[trigger]
                s.accepts::<E, I>(HandshakeInput::LenWritten(r)) <==> m.writing.accepts(
                    WriteInput::LenWritten(r),
                )
            &&& forall|r: Result<usize, IoError<I>>| #[trigger]
                s.accepts::<E, I>(HandshakeInput::Written(r)) <==> m.writing.accepts(
                    WriteInput::Written(r),
                )
        },
{
}

/// The connection that is made is the one that is encrypted, and the secret key stays the same,
/// through all of a handshake.
pub proof fn law_handshake_keeps_its_connection<F, T, E, I>(
    s: HandshakeModel<F, T>,
    key: Seq<u8>,
    input: HandshakeInput<T, E, I>,
    new: OutputModel<T>,
    c: Chance,
)
    requires
        s.accepts(input),
    ensures
        ({
            let made = match input {
                HandshakeInput::Connected(Ok(Async::Ready(io))) => Some(io),
                _ => s.io(),
            };
            &&& s.possible_dial(input, new, c) ==> {
                let (next, step) = s.dial_step(input, new, c);
                &&& next.io() is Some ==> next.io() == made
                &&& step matches HandshakeStep::Ready(_, m) ==> Some(m.io) == made
            }
            &&& s.possible_listen(input, new, c) ==> {
                let (next, step) = s.listen_step(input, new, c);
                &&& next.io() is Some ==> next.io() == made
                &&& step matches HandshakeStep::Ready(_, m) ==> Some(m.io) == made
            }
        }),
        s.possible_dial(input, new, c) ==> (own_secret(s) matches Some(k) ==> (own_secret(
            s.dial_step(input, new, c).0,
        ) matches Some(l) ==> l == k)),
        s.possible_listen(input, new, c) ==> (own_secret(s) matches Some(k) ==> (own_secret(
            s.listen_step(input, new, c).0,
        ) matches Some(l) ==> l == k)),
{
}

/// The secret key of a handshake that is not over.
pub open spec fn own_secret<F, T>(s: HandshakeModel<F, T>) -> Option<Seq<u8>> {
    match s {
        HandshakeModel::Init(_, session) => Some(session.secret),
        HandshakeModel::RecvHandshake(m) => Some(m.session.secret),
        HandshakeModel::SendHandshake(m) => Some(m.session.secret),
        HandshakeModel::Flush(m) => Some(m.session.secret),
        HandshakeModel::Done => None,
    }
}

} // verus!
