//! What holds of encrypted connections.

use crate::async_value::Async;
use crate::noise::handshake::{Chance, HandshakeInput, HandshakeModel, HandshakeStep};
use crate::noise::output::{
    Crypted, OutputModel, ReadAction, ReadInput, ReadModel, ReadState, WriteInput, WriteModel,
    WriteState, WriteStep,
};
use crate::noise::session::SessionModel;
use vstd::prelude::*;

verus! {

/// A dialer that ends its handshake is connected to the side whose public key it dialed, and the
/// connection carries data.
pub proof fn law_dialer_reaches_the_key_it_dialed<F, T, E, I>(
    s: HandshakeModel<F, T>,
    key: Seq<u8>,
    input: HandshakeInput<T, E, I>,
    new: OutputModel<T>,
    c: Chance,
)
    requires
        s.dials(key),
        s.accepts(input),
        s.possible_dial(input, new, c),
    ensures
        s.dial_step(input, new, c).1 matches HandshakeStep::Ready(k, m) ==> k == key
            && m.session.transport,
        !(s.dial_step(input, new, c).1 is InvalidKey),
        s.dial_step(input, new, c).0.dials(key),
{
}

/// A listener that ends its handshake knows a public key of the right length, and the connection
/// carries data.
pub proof fn law_listener_knows_a_key<F, T, E, I>(
    s: HandshakeModel<F, T>,
    input: HandshakeInput<T, E, I>,
    new: OutputModel<T>,
    c: Chance,
)
    requires
        s.listens(),
        s.accepts(input),
        s.possible_listen(input, new, c),
    ensures
        s.listen_step(input, new, c).1 matches HandshakeStep::Ready(k, m) ==> k.len()
            == crate::noise::keys::KEY_LEN && m.session.transport,
        !(s.listen_step(input, new, c).1 is InvalidKey),
        s.listen_step(input, new, c).0.listens(),
{
}

/// A dialer sends its message as soon as the connection is made: the session makes the first
/// message of the handshake, and its length is written.
pub proof fn law_dialer_sends_the_first_message<F, T, E, I>(
    s: HandshakeModel<F, T>,
    key: Seq<u8>,
    input: HandshakeInput<T, E, I>,
    new: OutputModel<T>,
    c: Chance,
)
    requires
        s.dials(key),
        s.accepts(input),
        s.possible_dial(input, new, c),
        s is SendHandshake || (s is Init && (input matches HandshakeInput::Connected(
            Ok(Async::Ready(_)),
        ))),
    ensures
        ({
            let (next, step) = s.dial_step(input, new, c);
            &&& step == HandshakeStep::<T, E, I>::WriteLen(crate::noise::session::FIRST_LEN as u16)
            &&& next matches HandshakeModel::Flush(m) && m.session.position == 1
        }),
{
}

/// A listener sends its message as soon as it has read the dialer's: if that can be decrypted, the
/// session makes the second message of the handshake, and its length is written.
pub proof fn law_listener_sends_the_second_message<F, T, E, I>(
    m: OutputModel<T>,
    input: HandshakeInput<T, E, I>,
    new: OutputModel<T>,
    c: Chance,
)
    requires
        HandshakeModel::<F, T>::RecvHandshake(m).listens(),
        HandshakeModel::<F, T>::RecvHandshake(m).accepts(input),
        HandshakeModel::<F, T>::RecvHandshake(m).possible_listen(input, new, c),
        m.reading.completes(crate::noise::handshake::reads(input)),
        c.text.len is Some,
    ensures
        ({
            let (next, step) = HandshakeModel::<F, T>::RecvHandshake(m).listen_step(input, new, c);
            &&& step == HandshakeStep::<T, E, I>::WriteLen(crate::noise::session::SECOND_LEN as u16)
            &&& next matches HandshakeModel::Flush(n) && n.session.position
                == crate::noise::session::HANDSHAKE_MESSAGES
        }),
{
}

/// All parts, one after the other.
pub open spec fn joined(parts: Seq<Seq<u8>>) -> Seq<u8>
    decreases parts.len(),
{
    if parts.len() == 0 {
        Seq::empty()
    } else {
        joined(parts.drop_last()) + parts.last()
    }
}

proof fn lemma_joined_push(parts: Seq<Seq<u8>>, part: Seq<u8>)
    ensures
        joined(parts.push(part)) == joined(parts) + part,
{
    assert(parts.push(part).drop_last() =~= parts);
}

/// All text that was taken to be written: what was encrypted and what is collected.
pub open spec fn taken(session: SessionModel, writing: WriteModel) -> Seq<u8> {
    joined(session.sent) + writing.collected()
}

/// What is written is handed to the session once and in order: the text that was taken grows by
/// what each write reports, and by nothing else.
pub proof fn law_text_is_encrypted_once<I>(
    session: SessionModel,
    writing: WriteModel,
    text: Seq<u8>,
    input: WriteInput<I>,
    message: Crypted,
    after: SessionModel,
)
    requires
        writing.wf(),
        writing.accepts(input),
        match writing.write_encrypts(text, input) {
            Some(t) => crate::noise::output::encrypts(session, after, t, message),
            None => after == session,
        },
    ensures
        ({
            let (w, step) = writing.write_step(text, input, message);
            match step {
                WriteStep::Return(Ok(n)) => n <= text.len() && taken(after, w) == taken(
                    session,
                    writing,
                ) + text.take(n as int),
                WriteStep::Return(Err(_)) => writing.write_encrypts(text, input) is None ==> taken(
                    after,
                    w,
                ) == taken(session, writing),
                _ => taken(after, w) == taken(session, writing),
            }
        }),
{
    let (w, step) = writing.write_step(text, input, message);
    let none = Seq::<u8>::empty();
    match writing.after(input) {
        Some(s) => {
            assert(s.collected() =~= writing.collected());
            if s.collects() {
                let n = crate::noise::output::least(s.room(), text.len() as int);
                match writing.write_encrypts(text, input) {
                    Some(t) => {
                        lemma_joined_push(session.sent, t);
                        assert(w.collected() =~= none);
                        assert(joined(session.sent) + (s.collected() + text.take(n)) + none
                            =~= joined(session.sent) + s.collected() + text.take(n));
                    },
                    None => {
                        assert(w.collected() =~= s.collected() + text.take(n));
                        assert(joined(session.sent) + (s.collected() + text.take(n)) =~= joined(
                            session.sent,
                        ) + s.collected() + text.take(n));
                    },
                }
            } else {
                assert(text.take(0) =~= none);
                assert(taken(session, writing) + none =~= taken(session, writing));
                assert(w.collected() =~= none);
            }
        },
        None => {
            assert(text.take(0) =~= none);
            assert(taken(session, writing) + none =~= taken(session, writing));
            assert(w.collected() =~= writing.collected());
        },
    }
}

/// Flushing hands to the session what is collected, once, and nothing else.
pub proof fn law_flush_encrypts_what_is_collected<I>(
    session: SessionModel,
    writing: WriteModel,
    input: WriteInput<I>,
    message: Crypted,
    after: SessionModel,
)
    requires
        writing.wf(),
        writing.accepts(input),
        match writing.flush_encrypts(input) {
            Some(t) => crate::noise::output::encrypts(session, after, t, message),
            None => after == session,
        },
    ensures
        taken(after, writing.flush_step(input, message).0) == taken(session, writing),
        writing.flush_step(input, message).1 matches WriteStep::Return(Ok(())) ==> writing.flush_step(
            input,
            message,
        ).0.collected().len() == 0,
{
    let (w, step) = writing.flush_step(input, message);
    let none = Seq::<u8>::empty();
    match writing.flush_encrypts(input) {
        Some(t) => {
            lemma_joined_push(session.sent, t);
            assert(w.collected() =~= none);
            assert(joined(session.sent) + t + none =~= joined(session.sent) + t);
        },
        None => {
            assert(w.collected() =~= writing.collected());
        },
    }
}

/// A message goes out once and in order: what is still to be written shrinks by what each write
/// takes.
pub proof fn law_message_is_written_once(writing: WriteModel, n: usize)
    requires
        writing.wf(),
        writing.state matches WriteState::WriteData { len, off } && n <= len - off,
    ensures
        writing.unwritten().skip(n as int) == writing.advanced(n).unwritten(),
        writing.advanced(n).state is Init <==> n == writing.unwritten().len(),
{
    assert(writing.unwritten().skip(n as int) =~= writing.advanced(n).unwritten());
}

/// What went well.
pub open spec fn good(outcomes: Seq<Option<Seq<u8>>>) -> Seq<Seq<u8>>
    decreases outcomes.len(),
{
    if outcomes.len() == 0 {
        Seq::empty()
    } else {
        match outcomes.last() {
            Some(x) => good(outcomes.drop_last()).push(x),
            None => good(outcomes.drop_last()),
        }
    }
}

/// A length as it stands on the wire: two bytes, the larger part first.
pub open spec fn length_bytes(n: nat) -> Seq<u8> {
    seq![(n / 256) as u8, (n % 256) as u8]
}

/// Messages as they stand on the wire: each with its length before it.
pub open spec fn wire(messages: Seq<Seq<u8>>) -> Seq<u8>
    decreases messages.len(),
{
    if messages.len() == 0 {
        Seq::empty()
    } else {
        wire(messages.drop_last()) + (length_bytes(messages.last().len()) + messages.last())
    }
}

proof fn lemma_good_push(outcomes: Seq<Option<Seq<u8>>>, outcome: Option<Seq<u8>>)
    ensures
        good(outcomes.push(outcome)) == match outcome {
            Some(x) => good(outcomes).push(x),
            None => good(outcomes),
        },
{
    assert(outcomes.push(outcome).drop_last() =~= outcomes);
}

proof fn lemma_wire_push(messages: Seq<Seq<u8>>, message: Seq<u8>)
    ensures
        wire(messages.push(message)) == wire(messages) + (length_bytes(message.len()) + message),
{
    assert(messages.push(message).drop_last() =~= messages);
}

/// What the connection takes with the input.
pub open spec fn wrote<I>(writing: WriteModel, input: WriteInput<I>) -> Seq<u8> {
    match input {
        WriteInput::LenWritten(Ok(())) => match writing.state {
            WriteState::WriteLen { len } => length_bytes(len as nat),
            _ => Seq::empty(),
        },
        WriteInput::Written(Ok(n)) => writing.unwritten().take(n as int),
        _ => Seq::empty(),
    }
}

/// What is still to be written, with its length as far as that is to be written too.
pub open spec fn to_write(writing: WriteModel) -> Seq<u8> {
    match writing.state {
        WriteState::WriteLen { len } => length_bytes(len as nat) + writing.unwritten(),
        _ => writing.unwritten(),
    }
}

proof fn lemma_input_is_written<I>(writing: WriteModel, input: WriteInput<I>)
    requires
        writing.wf(),
        writing.accepts(input),
        !(input matches WriteInput::Written(Ok(n)) && n == 0),
    ensures
        match writing.after(input) {
            Some(s) => wrote(writing, input) + to_write(s) == to_write(writing),
            None => wrote(writing, input) == Seq::<u8>::empty(),
        },
{
    match writing.after(input) {
        Some(s) => {
            assert(wrote(writing, input) + to_write(s) =~= to_write(writing));
        },
        None => {},
    }
}

proof fn lemma_message_is_to_be_written(
    session: SessionModel,
    after: SessionModel,
    text: Seq<u8>,
    message: Crypted,
    writing: WriteModel,
)
    requires
        writing.collects(),
        crate::noise::output::encrypts(session, after, text, message),
    ensures
        wire(good(session.messages)) + to_write(writing.encrypted(message)) == wire(
            good(after.messages),
        ),
{
    lemma_good_push(session.messages, message.outcome());
    let w = writing.encrypted(message);
    match message.len {
        Some(n) => {
            let m = message.buf.take(n as int);
            lemma_wire_push(good(session.messages), m);
            assert(to_write(w) =~= length_bytes(m.len()) + m);
        },
        None => {
            assert(to_write(w) =~= Seq::empty());
            assert(wire(good(session.messages)) + to_write(w) =~= wire(good(session.messages)));
        },
    }
}

/// Writing puts the messages that the session made on the wire, each once, in order and with its
/// length before it: what was written before, what is written now and what is still to be written
/// make up all messages. This holds as long as the connection takes at least one byte when it is
/// given a message.
pub proof fn law_messages_go_out_once<I>(
    session: SessionModel,
    writing: WriteModel,
    text: Seq<u8>,
    input: WriteInput<I>,
    message: Crypted,
    after: SessionModel,
    before: Seq<u8>,
)
    requires
        writing.wf(),
        writing.accepts(input),
        !(input matches WriteInput::Written(Ok(n)) && n == 0),
        match writing.write_encrypts(text, input) {
            Some(t) => crate::noise::output::encrypts(session, after, t, message),
            None => after == session,
        },
        before + to_write(writing) == wire(good(session.messages)),
    ensures
        before + wrote(writing, input) + to_write(writing.write_step(text, input, message).0)
            == wire(good(after.messages)),
{
    let w = writing.write_step(text, input, message).0;
    let now = wrote(writing, input);
    lemma_input_is_written(writing, input);
    match writing.after(input) {
        Some(s) => {
            assert(before + now + to_write(s) =~= before + (now + to_write(s)));
            match writing.write_encrypts(text, input) {
                Some(t) => {
                    lemma_message_is_to_be_written(session, after, t, message, s);
                    assert(to_write(s) =~= Seq::empty());
                    assert(before + now =~= before + now + to_write(s));
                    assert(to_write(w) =~= to_write(s.encrypted(message)));
                },
                None => {
                    assert(to_write(w) =~= to_write(s));
                },
            }
        },
        None => {
            assert(to_write(w) =~= to_write(writing));
            assert(before + now + to_write(w) =~= before + to_write(writing));
        },
    }
}

/// Flushing puts the messages that the session made on the wire just as writing does.
pub proof fn law_flushed_messages_go_out_once<I>(
    session: SessionModel,
    writing: WriteModel,
    input: WriteInput<I>,
    message: Crypted,
    after: SessionModel,
    before: Seq<u8>,
)
    requires
        writing.wf(),
        writing.accepts(input),
        !(input matches WriteInput::Written(Ok(n)) && n == 0),
        match writing.flush_encrypts(input) {
            Some(t) => crate::noise::output::encrypts(session, after, t, message),
            None => after == session,
        },
        before + to_write(writing) == wire(good(session.messages)),
    ensures
        before + wrote(writing, input) + to_write(writing.flush_step(input, message).0) == wire(
            good(after.messages),
        ),
        writing.flush_step(input, message).1 matches WriteStep::Return(Ok(())) ==> to_write(
            writing.flush_step(input, message).0,
        ).len() == 0,
{
    let w = writing.flush_step(input, message).0;
    let now = wrote(writing, input);
    lemma_input_is_written(writing, input);
    match writing.after(input) {
        Some(s) => {
            assert(before + now + to_write(s) =~= before + (now + to_write(s)));
            match writing.flush_encrypts(input) {
                Some(t) => {
                    lemma_message_is_to_be_written(session, after, t, message, s);
                    assert(to_write(s) =~= Seq::empty());
                    assert(before + now =~= before + now + to_write(s));
                    assert(to_write(w) =~= to_write(s.encrypted(message)));
                },
                None => {
                    assert(to_write(w) =~= to_write(s));
                },
            }
        },
        None => {
            assert(to_write(w) =~= to_write(writing));
            assert(before + now + to_write(w) =~= before + to_write(writing));
        },
    }
}

/// What the input takes from the connection.
pub open spec fn took<I>(input: ReadInput<I>) -> Seq<u8> {
    match input {
        ReadInput::Len(Ok(n)) => length_bytes(n as nat),
        ReadInput::Data(Ok(d)) => d@,
        _ => Seq::empty(),
    }
}

/// The part of a message that has been read, with its length.
pub open spec fn partial(reading: ReadModel) -> Seq<u8> {
    match reading.state {
        ReadState::ReadData { len, off } => length_bytes(len as nat) + reading.buf.take(off as int),
        _ => Seq::empty(),
    }
}

/// What is taken from the connection is handed to the session message by message, each once and
/// in order: what was taken before and what is taken now make up the messages that the session has
/// been handed and the part of the next one. This holds until the connection ends, which is said
/// by a message or by data without a byte.
pub proof fn law_messages_come_in_once<I>(
    session: SessionModel,
    reading: ReadModel,
    out: Seq<u8>,
    input: ReadInput<I>,
    text: Crypted,
    after: SessionModel,
    before: Seq<u8>,
)
    requires
        reading.wf(),
        reading.accepts(input),
        !(input matches ReadInput::Len(Ok(n)) && n == 0),
        !(input matches ReadInput::Data(Ok(d)) && d@.len() == 0),
        if reading.completes(input) {
            crate::noise::output::decrypts(session, after, reading.completed(input), text)
        } else {
            after == session
        },
        before == wire(session.received) + partial(reading),
    ensures
        before + took(input) == wire(after.received) + partial(reading.step(out, input, text).0),
{
    let next = reading.step(out, input, text).0;
    match input {
        ReadInput::Data(Ok(d)) => {
            let len = reading.state->ReadData_len;
            let off = reading.state->ReadData_off;
            let all = crate::noise::output::overwritten(reading.buf, off as int, d@);
            assert(reading.buf.take(off as int) + d@ =~= all.take(off + d@.len()));
            assert(partial(reading) + d@ =~= length_bytes(len as nat) + all.take(off + d@.len()));
            if reading.completes(input) {
                let m = reading.completed(input);
                lemma_wire_push(session.received, m);
                assert(partial(next) =~= Seq::empty());
                assert(before + d@ =~= wire(session.received) + (length_bytes(m.len()) + m));
                assert(before + d@ =~= wire(after.received) + partial(next));
            } else {
                assert(before + d@ =~= wire(session.received) + partial(next));
            }
        },
        ReadInput::Len(Ok(n)) => {
            assert(partial(next) =~= length_bytes(n as nat));
            assert(before =~= wire(session.received));
        },
        _ => {
            assert(partial(next) =~= partial(reading));
            assert(before + took(input) =~= before);
        },
    }
}

pub(crate) proof fn lemma_wire_front(messages: Seq<Seq<u8>>)
    requires
        messages.len() > 0,
    ensures
        wire(messages) == length_bytes(messages.first().len()) + messages.first() + wire(
            messages.drop_first(),
        ),
    decreases messages.len(),
{
    let first = length_bytes(messages.first().len()) + messages.first();
    let last = length_bytes(messages.last().len()) + messages.last();
    if messages.len() == 1 {
        assert(messages.drop_last() =~= Seq::empty());
        assert(messages.drop_first() =~= Seq::empty());
        assert(wire(messages.drop_last()).len() == 0 && wire(messages.drop_first()).len() == 0);
        assert(wire(messages) =~= first + wire(messages.drop_first()));
    } else {
        let front = messages.drop_last();
        lemma_wire_front(front);
        assert(front.drop_first() =~= messages.drop_first().drop_last());
        assert(first + wire(front.drop_first()) + last =~= first + (wire(front.drop_first())
            + last));
    }
}

/// Messages can be told from the start of the wire: if what some messages look like there is how
/// others begin, the others begin with those messages.
pub proof fn law_wire_tells_the_first_messages(a: Seq<Seq<u8>>, b: Seq<Seq<u8>>)
    requires
        forall|i: int| 0 <= i < a.len() ==> (#[trigger] a[i]).len() <= u16::MAX,
        forall|i: int| 0 <= i < b.len() ==> (#[trigger] b[i]).len() <= u16::MAX,
        wire(a).is_prefix_of(wire(b)),
    ensures
        a.is_prefix_of(b),
    decreases a.len(),
{
    if a.len() > 0 {
        lemma_wire_front(a);
        if b.len() == 0 {
            assert(wire(b).len() == 0);
            assert(wire(a).len() >= 2);
        } else {
            lemma_wire_front(b);
            let (m, n) = (a.first(), b.first());
            let (v, w) = (wire(a), wire(b));
            assert(v =~= w.take(v.len() as int));
            assert(v[0] == (m.len() / 256) as u8 && v[1] == (m.len() % 256) as u8);
            assert(w[0] == (n.len() / 256) as u8 && w[1] == (n.len() % 256) as u8);
            assert(v[0] == w[0] && v[1] == w[1]);
            assert(m.len() == n.len());
            assert(m =~= v.subrange(2, 2 + m.len() as int));
            assert(n =~= w.subrange(2, 2 + n.len() as int));
            assert(m =~= n);
            assert(wire(a.drop_first()) =~= v.skip(2 + m.len() as int));
            assert(wire(b.drop_first()) =~= w.skip(2 + n.len() as int));
            assert(wire(a.drop_first()).is_prefix_of(wire(b.drop_first())));
            assert forall|i: int| 0 <= i < a.drop_first().len() implies (
            #[trigger] a.drop_first()[i]).len() <= u16::MAX by {
                assert(a.drop_first()[i] == a[i + 1]);
            }
            assert forall|i: int| 0 <= i < b.drop_first().len() implies (
            #[trigger] b.drop_first()[i]).len() <= u16::MAX by {
                assert(b.drop_first()[i] == b[i + 1]);
            }
            law_wire_tells_the_first_messages(a.drop_first(), b.drop_first());
            assert(a =~= seq![m] + a.drop_first());
            assert(b =~= seq![n] + b.drop_first());
        }
    }
}

/// Messages can be told from the wire: no two sequences of messages look the same there.
pub proof fn law_wire_tells_the_messages(a: Seq<Seq<u8>>, b: Seq<Seq<u8>>)
    requires
        forall|i: int| 0 <= i < a.len() ==> (#[trigger] a[i]).len() <= u16::MAX,
        forall|i: int| 0 <= i < b.len() ==> (#[trigger] b[i]).len() <= u16::MAX,
        wire(a) == wire(b),
    ensures
        a == b,
{
    assert(wire(a).is_prefix_of(wire(b)) && wire(b).is_prefix_of(wire(a)));
    law_wire_tells_the_first_messages(a, b);
    law_wire_tells_the_first_messages(b, a);
    assert(a =~= b);
}

pub(crate) proof fn lemma_joined_add(a: Seq<Seq<u8>>, b: Seq<Seq<u8>>)
    ensures
        joined(a + b) == joined(a) + joined(b),
    decreases b.len(),
{
    if b.len() == 0 {
        assert(a + b =~= a);
        assert(joined(a) + joined(b) =~= joined(a));
    } else {
        lemma_joined_add(a, b.drop_last());
        assert((a + b).drop_last() =~= a + b.drop_last());
        assert(joined(a) + joined(b.drop_last()) + b.last() =~= joined(a) + joined(b));
    }
}

pub(crate) proof fn lemma_good_add(a: Seq<Option<Seq<u8>>>, b: Seq<Option<Seq<u8>>>)
    ensures
        good(a + b) == good(a) + good(b),
    decreases b.len(),
{
    if b.len() == 0 {
        assert(a + b =~= a);
        assert(good(a) + good(b) =~= good(a));
    } else {
        lemma_good_add(a, b.drop_last());
        assert((a + b).drop_last() =~= a + b.drop_last());
        assert(good(a + b) =~= good(a) + good(b));
    }
}

pub(crate) proof fn lemma_wire_add(a: Seq<Seq<u8>>, b: Seq<Seq<u8>>)
    ensures
        wire(a + b) == wire(a) + wire(b),
    decreases b.len(),
{
    if b.len() == 0 {
        assert(a + b =~= a);
        assert(wire(a) + wire(b) =~= wire(a));
    } else {
        lemma_wire_add(a, b.drop_last());
        assert((a + b).drop_last() =~= a + b.drop_last());
        let last = length_bytes(b.last().len()) + b.last();
        assert(wire(a) + wire(b.drop_last()) + last =~= wire(a) + wire(b));
    }
}

/// The decrypted text that has not been read.
pub open spec fn unread(reading: ReadModel) -> Seq<u8> {
    match reading.state {
        ReadState::CopyData { len, off } => reading.text.subrange(off as int, len as int),
        _ => Seq::empty(),
    }
}

/// Decrypted text is read once and in order: what was read before, what is read now and what has
/// not been read make up all that the session has decrypted.
pub proof fn law_text_is_read_once<I>(
    session: SessionModel,
    reading: ReadModel,
    out: Seq<u8>,
    input: ReadInput<I>,
    text: Crypted,
    after: SessionModel,
    before: Seq<u8>,
)
    requires
        reading.wf(),
        reading.accepts(input),
        if reading.completes(input) {
            crate::noise::output::decrypts(session, after, reading.completed(input), text)
        } else {
            after == session
        },
        before + unread(reading) == joined(good(session.texts)),
    ensures
        ({
            let (next, copied, action) = reading.step(out, input, text);
            &&& copied.len() == out.len()
            &&& match action {
                ReadAction::Return(Ok(n)) => n <= out.len() && before + copied.take(n as int)
                    + unread(next) == joined(good(after.texts)) && copied.skip(n as int)
                    == out.skip(n as int),
                _ => copied == out && before + unread(next) == joined(good(after.texts)),
            }
        }),
{
    let (next, copied, action) = reading.step(out, input, text);
    let there = if reading.completes(input) {
        lemma_good_push(session.texts, text.outcome());
        match text.len {
            Some(n) => {
                let t = text.buf.take(n as int);
                lemma_joined_push(good(session.texts), t);
                assert(before + t =~= before + unread(reading) + t);
                t
            },
            None => {
                assert(before =~= before + unread(reading));
                Seq::empty()
            },
        }
    } else {
        unread(reading)
    };
    assert(before + there =~= joined(good(after.texts)));
    match action {
        ReadAction::Return(Ok(n)) => {
            assert(copied.take(n as int) + unread(next) =~= there);
            assert(before + copied.take(n as int) + unread(next) =~= before + (copied.take(n as int)
                + unread(next)));
            assert(copied.skip(n as int) =~= out.skip(n as int));
        },
        _ => {
            assert(unread(next) =~= there);
        },
    }
}

/// What is read is what was written: if the bytes that one side has put on the wire have reached
/// the other side, and every message is decrypted to the text that it was made of, then all text
/// that the other side gets is all text that was encrypted, in the same order.
pub proof fn law_what_is_read_was_written(writer: SessionModel, reader: SessionModel)
    requires
        writer.messages.len() == writer.sent.len(),
        forall|i: int|
            0 <= i < writer.messages.len() ==> (#[trigger] writer.messages[i] matches Some(m)
                && m.len() <= u16::MAX),
        reader.texts.len() == reader.received.len(),
        forall|i: int|
            0 <= i < reader.received.len() ==> (#[trigger] reader.received[i]).len() <= u16::MAX,
        wire(good(writer.messages)) == wire(reader.received),
        forall|i: int|
            0 <= i < reader.texts.len() && i < writer.messages.len() && writer.messages[i] == Some(
                reader.received[i],
            ) ==> #[trigger] reader.texts[i] == Some(writer.sent[i]),
    ensures
        joined(good(reader.texts)) == joined(writer.sent),
{
    lemma_all_good(writer.messages);
    let messages = good(writer.messages);
    assert forall|i: int| 0 <= i < messages.len() implies (#[trigger] messages[i]).len()
        <= u16::MAX by {
        assert(writer.messages[i] == Some(messages[i]));
    }
    law_wire_tells_the_messages(messages, reader.received);
    assert forall|i: int| 0 <= i < reader.texts.len() implies #[trigger] reader.texts[i] is Some by {
        assert(writer.messages[i] == Some(messages[i]));
    }
    lemma_all_good(reader.texts);
    assert forall|i: int| 0 <= i < reader.texts.len() implies #[trigger] good(reader.texts)[i]
        == writer.sent[i] by {
        assert(writer.messages[i] == Some(messages[i]));
        assert(reader.texts[i] == Some(good(reader.texts)[i]));
    }
    assert(good(reader.texts) =~= writer.sent);
}

pub(crate) proof fn lemma_all_good(outcomes: Seq<Option<Seq<u8>>>)
    requires
        forall|i: int| 0 <= i < outcomes.len() ==> #[trigger] outcomes[i] is Some,
    ensures
        good(outcomes).len() == outcomes.len(),
        forall|i: int|
            0 <= i < outcomes.len() ==> #[trigger] outcomes[i] == Some(good(outcomes)[i]),
    decreases outcomes.len(),
{
    if outcomes.len() > 0 {
        let front = outcomes.drop_last();
        assert forall|i: int| 0 <= i < front.len() implies #[trigger] front[i] is Some by {
            assert(front[i] == outcomes[i]);
        }
        lemma_all_good(front);
        assert forall|i: int| 0 <= i < outcomes.len() implies #[trigger] outcomes[i] == Some(
            good(outcomes)[i],
        ) by {
            if i < front.len() {
                assert(front[i] == outcomes[i]);
            }
        }
    }
}

/// Once the end has been reached or a message could not be decrypted, reading says so for ever.
pub proof fn law_end_of_reading_is_final<I>(reading: ReadModel, out: Seq<u8>, text: Crypted)
    ensures
        reading.state is Eof ==> reading.step(out, ReadInput::<I>::Start, text) == (
            reading,
            out,
            ReadAction::<I>::Return(Ok(0)),
        ),
        reading.state is DecErr ==> reading.step(out, ReadInput::<I>::Start, text) == (
            reading,
            out,
            ReadAction::<I>::Return(Err(crate::noise::output::IoError::InvalidData)),
        ),
{
}

/// Once the end has been reached or a text could not be encrypted, writing and flushing say so
/// for ever.
pub proof fn law_end_of_writing_is_final<I>(writing: WriteModel, text: Seq<u8>, message: Crypted)
    ensures
        writing.state is Eof ==> writing.write_step(text, WriteInput::<I>::Start, message) == (
            writing,
            WriteStep::<usize, I>::Return(Ok(0)),
        ) && writing.flush_step(WriteInput::<I>::Start, message) == (
            writing,
            WriteStep::<(), I>::Return(Ok(())),
        ),
        writing.state is EncErr ==> writing.write_step(text, WriteInput::<I>::Start, message) == (
            writing,
            WriteStep::<usize, I>::Return(Err(crate::noise::output::IoError::InvalidData)),
        ) && writing.flush_step(WriteInput::<I>::Start, message) == (
            writing,
            WriteStep::<(), I>::Return(Err(crate::noise::output::IoError::InvalidData)),
        ),
{
}

} // verus!
