//! Whole runs of encrypted connections.

use crate::noise::output::{
    Crypted, OutputModel, ReadAction, ReadInput, WriteInput, WriteModel, WriteStep,
};
use crate::noise::session::SessionModel;
use vstd::prelude::*;

verus! {

/// What is done with a connection.
pub enum Event<I> {
    /// A step of writing the text.
    Write(Seq<u8>, WriteInput<I>),
    /// A step of flushing.
    Flush(WriteInput<I>),
    /// A step of reading into the buffer.
    Read(Seq<u8>, ReadInput<I>),
}

/// One step of a connection.
pub struct Step<T, I> {
    /// What is done.
    pub event: Event<I>,
    /// What the session makes of the text or message that it is handed.
    pub crypted: Crypted,
    /// The connection then.
    pub after: OutputModel<T>,
}

/// The connection takes at least one byte of what it is given, and gives at least one: it has not
/// ended.
pub open spec fn goes_on<I>(event: Event<I>) -> bool {
    match event {
        Event::Write(_, input) => !(input matches WriteInput::Written(Ok(n)) && n == 0),
        Event::Flush(input) => !(input matches WriteInput::Written(Ok(n)) && n == 0),
        Event::Read(_, input) => !(input matches ReadInput::Len(Ok(n)) && n == 0) && !(
        input matches ReadInput::Data(Ok(d)) && d@.len() == 0),
    }
}

/// The session encrypts the text, if there is one, and is left alone if there is none.
pub open spec fn encrypts_some(
    before: SessionModel,
    after: SessionModel,
    text: Option<Seq<u8>>,
    message: Crypted,
) -> bool {
    match text {
        Some(t) => crate::noise::output::encrypts(before, after, t, message),
        None => after == before,
    }
}

/// The step follows in this state.
pub open spec fn follows<T, I>(before: OutputModel<T>, step: Step<T, I>) -> bool {
    let after = step.after;
    &&& goes_on(step.event)
    &&& match step.event {
        Event::Write(text, input) => {
            &&& before.writing.accepts(input)
            &&& after.reading == before.reading
            &&& after.writing == before.writing.write_step(text, input, step.crypted).0
            &&& encrypts_some(
                before.session,
                after.session,
                before.writing.write_encrypts(text, input),
                step.crypted,
            )
        },
        Event::Flush(input) => {
            &&& before.writing.accepts(input)
            &&& after.reading == before.reading
            &&& after.writing == before.writing.flush_step(input, step.crypted).0
            &&& encrypts_some(
                before.session,
                after.session,
                before.writing.flush_encrypts(input),
                step.crypted,
            )
        },
        Event::Read(out, input) => {
            &&& before.reading.accepts(input)
            &&& after.writing == before.writing
            &&& after.reading == before.reading.step(out, input, step.crypted).0
            &&& if before.reading.completes(input) {
                crate::noise::output::decrypts(
                    before.session,
                    after.session,
                    before.reading.completed(input),
                    step.crypted,
                )
            } else {
                after.session == before.session
            }
        },
    }
}

/// The connection after the steps.
pub open spec fn last<T, I>(start: OutputModel<T>, steps: Seq<Step<T, I>>) -> OutputModel<T> {
    if steps.len() == 0 {
        start
    } else {
        steps.last().after
    }
}

/// Each step follows on the one before.
pub open spec fn is_run<T, I>(start: OutputModel<T>, steps: Seq<Step<T, I>>) -> bool
    decreases steps.len(),
{
    steps.len() == 0 || (is_run(start, steps.drop_last()) && follows(
        last(start, steps.drop_last()),
        steps.last(),
    ))
}

/// The text that a step of writing reports as taken.
pub open spec fn accepted_by<T, I>(before: OutputModel<T>, step: Step<T, I>) -> Seq<u8> {
    match step.event {
        Event::Write(text, input) => match before.writing.write_step(text, input, step.crypted).1 {
            WriteStep::Return(Ok(n)) => text.take(n as int),
            _ => Seq::empty(),
        },
        _ => Seq::empty(),
    }
}

/// All text that the steps of writing report as taken.
pub open spec fn accepted<T, I>(start: OutputModel<T>, steps: Seq<Step<T, I>>) -> Seq<u8>
    decreases steps.len(),
{
    if steps.len() == 0 {
        Seq::empty()
    } else {
        accepted(start, steps.drop_last()) + accepted_by(
            last(start, steps.drop_last()),
            steps.last(),
        )
    }
}

/// The bytes that the connection underneath takes with a step.
pub open spec fn put_by<T, I>(before: OutputModel<T>, step: Step<T, I>) -> Seq<u8> {
    match step.event {
        Event::Write(_, input) => crate::noise::laws::wrote(before.writing, input),
        Event::Flush(input) => crate::noise::laws::wrote(before.writing, input),
        Event::Read(_, _) => Seq::empty(),
    }
}

/// All bytes that the connection underneath takes.
pub open spec fn put<T, I>(start: OutputModel<T>, steps: Seq<Step<T, I>>) -> Seq<u8>
    decreases steps.len(),
{
    if steps.len() == 0 {
        Seq::empty()
    } else {
        put(start, steps.drop_last()) + put_by(last(start, steps.drop_last()), steps.last())
    }
}

/// All bytes that the connection underneath gives.
pub open spec fn fetched<T, I>(steps: Seq<Step<T, I>>) -> Seq<u8>
    decreases steps.len(),
{
    if steps.len() == 0 {
        Seq::empty()
    } else {
        fetched(steps.drop_last()) + match steps.last().event {
            Event::Read(_, input) => crate::noise::laws::took(input),
            _ => Seq::empty(),
        }
    }
}

/// The text that a step of reading reports as read.
pub open spec fn got_by<T, I>(before: OutputModel<T>, step: Step<T, I>) -> Seq<u8> {
    match step.event {
        Event::Read(out, input) => {
            let (_, copied, action) = before.reading.step(out, input, step.crypted);
            match action {
                ReadAction::Return(Ok(n)) => copied.take(n as int),
                _ => Seq::empty(),
            }
        },
        _ => Seq::empty(),
    }
}

/// All text that the steps of reading report as read.
pub open spec fn got<T, I>(start: OutputModel<T>, steps: Seq<Step<T, I>>) -> Seq<u8>
    decreases steps.len(),
{
    if steps.len() == 0 {
        Seq::empty()
    } else {
        got(start, steps.drop_last()) + got_by(last(start, steps.drop_last()), steps.last())
    }
}

/// Nothing is collected and nothing is still to be written.
pub open spec fn all_sent(writing: WriteModel) -> bool {
    writing.collected().len() == 0 && crate::noise::laws::to_write(writing).len() == 0
}

/// How the session after a run goes on from the session before it: it carries data, and what it
/// has been handed since stands beside what it made of it.
pub open spec fn continues(before: SessionModel, after: SessionModel) -> bool {
    &&& after.transport
    &&& before.sent.is_prefix_of(after.sent)
    &&& before.messages.is_prefix_of(after.messages)
    &&& after.messages.len() - before.messages.len() == after.sent.len() - before.sent.len()
    &&& forall|i: int|
        before.messages.len() <= i < after.messages.len() ==> (#[trigger] after.messages[i] matches Some(
            m,
        ) && m.len() <= u16::MAX)
    &&& before.received.is_prefix_of(after.received)
    &&& before.texts.is_prefix_of(after.texts)
    &&& after.texts.len() - before.texts.len() == after.received.len() - before.received.len()
    &&& forall|i: int|
        before.received.len() <= i < after.received.len() ==> (#[trigger] after.received[i]).len()
            <= u16::MAX
}

proof fn lemma_follows<T, I>(before: OutputModel<T>, step: Step<T, I>)
    requires
        before.session.transport,
        before.writing.wf(),
        before.reading.wf(),
        follows(before, step),
    ensures
        step.after.writing.wf(),
        step.after.reading.wf(),
        continues(before.session, step.after.session),
{
}

proof fn lemma_continues(a: SessionModel, b: SessionModel, c: SessionModel)
    requires
        continues(a, b),
        continues(b, c),
    ensures
        continues(a, c),
{
    assert forall|i: int| a.messages.len() <= i < c.messages.len() implies (
    #[trigger] c.messages[i] matches Some(m) && m.len() <= u16::MAX) by {
        if i < b.messages.len() {
            assert(c.messages[i] == b.messages[i]);
        }
    }
    assert forall|i: int| a.received.len() <= i < c.received.len() implies (
    #[trigger] c.received[i]).len() <= u16::MAX by {
        if i < b.received.len() {
            assert(c.received[i] == b.received[i]);
        }
    }
}

proof fn lemma_run<T, I>(start: OutputModel<T>, steps: Seq<Step<T, I>>)
    requires
        start.session.transport,
        start.writing.wf(),
        start.reading.wf(),
        is_run(start, steps),
    ensures
        last(start, steps).writing.wf(),
        last(start, steps).reading.wf(),
        continues(start.session, last(start, steps).session),
    decreases steps.len(),
{
    if steps.len() > 0 {
        let before = last(start, steps.drop_last());
        lemma_run(start, steps.drop_last());
        lemma_follows(before, steps.last());
        lemma_continues(start.session, before.session, steps.last().after.session);
    }
}

/// The text that a run takes is what the session was handed to encrypt and what is collected, and
/// the bytes that it puts on the wire are the messages that the session made, as far as they are
/// not still to be written.
proof fn lemma_run_writes<T, I>(start: OutputModel<T>, steps: Seq<Step<T, I>>)
    requires
        start.session.transport,
        start.writing.wf(),
        start.reading.wf(),
        crate::noise::laws::to_write(start.writing).len() == 0,
        is_run(start, steps),
    ensures
        ({
            let end = last(start, steps);
            &&& crate::noise::laws::taken(end.session, end.writing) == crate::noise::laws::taken(
                start.session,
                start.writing,
            ) + accepted(start, steps)
            &&& crate::noise::laws::wire(crate::noise::laws::good(start.session.messages)) + put(
                start,
                steps,
            ) + crate::noise::laws::to_write(end.writing) == crate::noise::laws::wire(
                crate::noise::laws::good(end.session.messages),
            )
        }),
    decreases steps.len(),
{
    let first = crate::noise::laws::wire(crate::noise::laws::good(start.session.messages));
    let text = crate::noise::laws::taken(start.session, start.writing);
    let none = Seq::<u8>::empty();
    if steps.len() == 0 {
        assert(text + none =~= text);
        assert(first + none + crate::noise::laws::to_write(start.writing) =~= first);
    } else {
        let so_far = steps.drop_last();
        let step = steps.last();
        let before = last(start, so_far);
        lemma_run(start, so_far);
        lemma_run_writes(start, so_far);
        let wire = first + put(start, so_far);
        assert(wire + put_by(before, step) =~= first + put(start, steps));
        assert(text + accepted(start, so_far) + accepted_by(before, step) =~= text + accepted(
            start,
            steps,
        ));
        match step.event {
            Event::Write(t, input) => {
                crate::noise::laws::law_text_is_encrypted_once(
                    before.session,
                    before.writing,
                    t,
                    input,
                    step.crypted,
                    step.after.session,
                );
                crate::noise::laws::law_messages_go_out_once(
                    before.session,
                    before.writing,
                    t,
                    input,
                    step.crypted,
                    step.after.session,
                    wire,
                );
            },
            Event::Flush(input) => {
                crate::noise::laws::law_flush_encrypts_what_is_collected(
                    before.session,
                    before.writing,
                    input,
                    step.crypted,
                    step.after.session,
                );
                crate::noise::laws::law_flushed_messages_go_out_once(
                    before.session,
                    before.writing,
                    input,
                    step.crypted,
                    step.after.session,
                    wire,
                );
            },
            Event::Read(_, _) => {},
        }
    }
}

/// The bytes that a run takes from the wire are the messages that the session was handed and the
/// part of the next one, and the text that it reports as read is what the session decrypted, as
/// far as that has been read.
proof fn lemma_run_reads<T, I>(start: OutputModel<T>, steps: Seq<Step<T, I>>)
    requires
        start.session.transport,
        start.writing.wf(),
        start.reading.wf(),
        crate::noise::laws::partial(start.reading).len() == 0,
        crate::noise::laws::unread(start.reading).len() == 0,
        is_run(start, steps),
    ensures
        ({
            let end = last(start, steps);
            &&& crate::noise::laws::wire(start.session.received) + fetched(steps)
                == crate::noise::laws::wire(end.session.received) + crate::noise::laws::partial(
                end.reading,
            )
            &&& crate::noise::laws::joined(crate::noise::laws::good(start.session.texts)) + got(
                start,
                steps,
            ) + crate::noise::laws::unread(end.reading) == crate::noise::laws::joined(
                crate::noise::laws::good(end.session.texts),
            )
        }),
    decreases steps.len(),
{
    let first = crate::noise::laws::wire(start.session.received);
    let text = crate::noise::laws::joined(crate::noise::laws::good(start.session.texts));
    let none = Seq::<u8>::empty();
    if steps.len() == 0 {
        assert(first + none =~= first + crate::noise::laws::partial(start.reading));
        assert(text + none + crate::noise::laws::unread(start.reading) =~= text);
    } else {
        let so_far = steps.drop_last();
        let step = steps.last();
        let before = last(start, so_far);
        lemma_run(start, so_far);
        lemma_run_reads(start, so_far);
        let wire = first + fetched(so_far);
        let had = text + got(start, so_far);
        assert(had + got_by(before, step) =~= text + got(start, steps));
        match step.event {
            Event::Read(out, input) => {
                assert(wire + crate::noise::laws::took(input) =~= first + fetched(steps));
                crate::noise::laws::law_messages_come_in_once(
                    before.session,
                    before.reading,
                    out,
                    input,
                    step.crypted,
                    step.after.session,
                    wire,
                );
                crate::noise::laws::law_text_is_read_once(
                    before.session,
                    before.reading,
                    out,
                    input,
                    step.crypted,
                    step.after.session,
                    had,
                );
                assert(had + none =~= had);
            },
            _ => {
                assert(wire + none =~= first + fetched(steps));
                assert(had + none =~= had);
            },
        }
    }
}

/// What was handed to the session or made by it since.
pub open spec fn since<A>(before: Seq<A>, after: Seq<A>) -> Seq<A> {
    after.skip(before.len() as int)
}

/// Each message that the reader's session was handed and that the writer's session made in the
/// same place, both counted from the start of the runs, was decrypted to the text that it was made
/// of.
pub open spec fn is_deciphered(
    writer: SessionModel,
    written: SessionModel,
    reader: SessionModel,
    read: SessionModel,
) -> bool {
    forall|i: int|
        0 <= i < since(reader.texts, read.texts).len() && i < since(
            writer.messages,
            written.messages,
        ).len() && since(writer.messages, written.messages)[i] == Some(
            since(reader.received, read.received)[i],
        ) ==> #[trigger] since(reader.texts, read.texts)[i] == Some(
            since(writer.sent, written.sent)[i],
        )
}

proof fn lemma_part_is_no_message(
    messages: Seq<Seq<u8>>,
    reading: crate::noise::output::ReadModel,
)
    requires
        reading.wf(),
        forall|i: int| 0 <= i < messages.len() ==> (#[trigger] messages[i]).len() <= u16::MAX,
        crate::noise::laws::wire(messages) == crate::noise::laws::partial(reading),
    ensures
        messages.len() == 0,
{
    if messages.len() > 0 {
        crate::noise::laws::lemma_wire_front(messages);
        let m = messages[0];
        let w = crate::noise::laws::wire(messages);
        assert(w.len() >= 2 + m.len());
        assert(w[0] == (m.len() / 256) as u8 && w[1] == (m.len() % 256) as u8);
        if let crate::noise::output::ReadState::ReadData { len, off } = reading.state {
            assert(w[0] == (len / 256) as u8 && w[1] == (len % 256) as u8);
            assert(m.len() == len);
        }
    }
}

/// A run that ends with a flush that succeeds has sent all: nothing is collected and nothing is
/// still to be written.
pub proof fn law_flush_sends_all<T, I>(start: OutputModel<T>, steps: Seq<Step<T, I>>)
    requires
        start.session.transport,
        start.writing.wf(),
        start.reading.wf(),
        is_run(start, steps),
        steps.len() > 0,
        steps.last().event matches Event::Flush(input) && last(
            start,
            steps.drop_last(),
        ).writing.flush_step(input, steps.last().crypted).1 == WriteStep::<(), I>::Return(Ok(())),
    ensures
        all_sent(last(start, steps).writing),
{
    lemma_run(start, steps.drop_last());
}

/// Text that is there is given to whoever reads, as much of it as there is room for.
pub proof fn law_unread_text_is_given<I>(
    reading: crate::noise::output::ReadModel,
    out: Seq<u8>,
    text: Crypted,
)
    requires
        reading.wf(),
        crate::noise::laws::unread(reading).len() > 0,
    ensures
        ({
            let unread = crate::noise::laws::unread(reading);
            let n = crate::noise::output::least(unread.len() as int, out.len() as int);
            let (next, copied, action) = reading.step(out, ReadInput::<I>::Start, text);
            &&& action == ReadAction::<I>::Return(Ok(n as usize))
            &&& copied == unread.take(n) + out.skip(n)
            &&& crate::noise::laws::unread(next) == unread.skip(n)
        }),
{
    let unread = crate::noise::laws::unread(reading);
    let n = crate::noise::output::least(unread.len() as int, out.len() as int);
    let (next, copied, _) = reading.step(out, ReadInput::<I>::Start, text);
    assert(copied =~= unread.take(n) + out.skip(n));
    assert(crate::noise::laws::unread(next) =~= unread.skip(n));
}

proof fn lemma_cancel(a: Seq<u8>, b: Seq<u8>, c: Seq<u8>)
    requires
        a + b == a + c,
    ensures
        b == c,
{
    assert(b =~= (a + b).skip(a.len() as int));
    assert(c =~= (a + c).skip(a.len() as int));
}

proof fn lemma_written<T, I>(start: OutputModel<T>, steps: Seq<Step<T, I>>)
    requires
        start.session.transport,
        start.writing.wf(),
        start.reading.wf(),
        all_sent(start.writing),
        is_run(start, steps),
    ensures
        ({
            let end = last(start, steps);
            let messages = since(start.session.messages, end.session.messages);
            let sent = since(start.session.sent, end.session.sent);
            &&& put(start, steps) + crate::noise::laws::to_write(end.writing) == crate::noise::laws::wire(crate::noise::laws::good(messages))
            &&& accepted(start, steps) == crate::noise::laws::joined(sent) + end.writing.collected()
            &&& messages.len() == sent.len()
            &&& forall|i: int|
                0 <= i < messages.len() ==> (#[trigger] messages[i] matches Some(m) && m.len()
                    <= u16::MAX)
        }),
{
    let w = start.session;
    let end = last(start, steps);
    lemma_run(start, steps);
    lemma_run_writes(start, steps);
    let messages = since(w.messages, end.session.messages);
    let sent = since(w.sent, end.session.sent);
    assert(end.session.messages =~= w.messages + messages);
    assert(end.session.sent =~= w.sent + sent);
    crate::noise::laws::lemma_good_add(w.messages, messages);
    crate::noise::laws::lemma_wire_add(crate::noise::laws::good(w.messages), crate::noise::laws::good(messages));
    crate::noise::laws::lemma_joined_add(w.sent, sent);
    let first = crate::noise::laws::wire(crate::noise::laws::good(w.messages));
    let left = crate::noise::laws::to_write(end.writing);
    assert(first + put(start, steps) + left =~= first + (put(start, steps) + left));
    lemma_cancel(first, put(start, steps) + left, crate::noise::laws::wire(crate::noise::laws::good(messages)));
    let text = crate::noise::laws::joined(w.sent);
    let collected = end.writing.collected();
    assert(crate::noise::laws::taken(w, start.writing) =~= text);
    assert(text + crate::noise::laws::joined(sent) + collected =~= text + (crate::noise::laws::joined(sent) + collected));
    lemma_cancel(text, accepted(start, steps), crate::noise::laws::joined(sent) + collected);
    assert forall|i: int| 0 <= i < messages.len() implies (#[trigger] messages[i] matches Some(m)
        && m.len() <= u16::MAX) by {
        assert(messages[i] == end.session.messages[w.messages.len() + i]);
    }
}

proof fn lemma_read<T, I>(start: OutputModel<T>, steps: Seq<Step<T, I>>)
    requires
        start.session.transport,
        start.writing.wf(),
        start.reading.wf(),
        crate::noise::laws::partial(start.reading).len() == 0,
        crate::noise::laws::unread(start.reading).len() == 0,
        is_run(start, steps),
    ensures
        ({
            let end = last(start, steps);
            let received = since(start.session.received, end.session.received);
            let texts = since(start.session.texts, end.session.texts);
            &&& fetched(steps) == crate::noise::laws::wire(received) + crate::noise::laws::partial(end.reading)
            &&& got(start, steps) + crate::noise::laws::unread(end.reading) == crate::noise::laws::joined(crate::noise::laws::good(texts))
            &&& received.len() == texts.len()
            &&& end.reading.wf()
            &&& forall|i: int|
                0 <= i < received.len() ==> (#[trigger] received[i]).len() <= u16::MAX
        }),
{
    let r = start.session;
    let end = last(start, steps);
    lemma_run(start, steps);
    lemma_run_reads(start, steps);
    let received = since(r.received, end.session.received);
    let texts = since(r.texts, end.session.texts);
    assert(end.session.received =~= r.received + received);
    assert(end.session.texts =~= r.texts + texts);
    crate::noise::laws::lemma_wire_add(r.received, received);
    crate::noise::laws::lemma_good_add(r.texts, texts);
    crate::noise::laws::lemma_joined_add(crate::noise::laws::good(r.texts), crate::noise::laws::good(texts));
    let first = crate::noise::laws::wire(r.received);
    let part = crate::noise::laws::partial(end.reading);
    assert(first + crate::noise::laws::wire(received) + part =~= first + (crate::noise::laws::wire(received) + part));
    lemma_cancel(first, fetched(steps), crate::noise::laws::wire(received) + part);
    let text = crate::noise::laws::joined(crate::noise::laws::good(r.texts));
    let unread = crate::noise::laws::unread(end.reading);
    assert(text + got(start, steps) + unread =~= text + (got(start, steps) + unread));
    lemma_cancel(text, got(start, steps) + unread, crate::noise::laws::joined(crate::noise::laws::good(texts)));
    assert forall|i: int| 0 <= i < received.len() implies (#[trigger] received[i]).len()
        <= u16::MAX by {
        assert(received[i] == end.session.received[r.received.len() + i]);
    }
}

/// If the bytes that were taken begin like those that were made, so do the texts.
proof fn lemma_texts(
    messages: Seq<Option<Seq<u8>>>,
    sent: Seq<Seq<u8>>,
    received: Seq<Seq<u8>>,
    texts: Seq<Option<Seq<u8>>>,
)
    requires
        messages.len() == sent.len(),
        received.len() == texts.len(),
        forall|i: int|
            0 <= i < messages.len() ==> (#[trigger] messages[i] matches Some(m) && m.len()
                <= u16::MAX),
        forall|i: int| 0 <= i < received.len() ==> (#[trigger] received[i]).len() <= u16::MAX,
        crate::noise::laws::wire(received).is_prefix_of(crate::noise::laws::wire(crate::noise::laws::good(messages))),
        forall|i: int|
            0 <= i < texts.len() && i < messages.len() && messages[i] == Some(received[i])
                ==> #[trigger] texts[i] == Some(sent[i]),
    ensures
        crate::noise::laws::good(messages).len() == sent.len(),
        received.is_prefix_of(crate::noise::laws::good(messages)),
        crate::noise::laws::good(texts) == sent.take(received.len() as int),
        forall|i: int| 0 <= i < sent.len() ==> (#[trigger] crate::noise::laws::good(messages)[i]).len() <= u16::MAX,
{
    crate::noise::laws::lemma_all_good(messages);
    let made = crate::noise::laws::good(messages);
    assert forall|i: int| 0 <= i < made.len() implies (#[trigger] made[i]).len() <= u16::MAX by {
        assert(messages[i] == Some(made[i]));
    }
    crate::noise::laws::law_wire_tells_the_first_messages(received, made);
    assert forall|i: int| 0 <= i < texts.len() implies #[trigger] texts[i] == Some(sent[i]) by {
        assert(received[i] == made[i]);
        assert(messages[i] == Some(made[i]));
    }
    crate::noise::laws::lemma_all_good(texts);
    assert forall|i: int| 0 <= i < texts.len() implies #[trigger] crate::noise::laws::good(texts)[i] == sent[i] by {
        assert(texts[i] == Some(crate::noise::laws::good(texts)[i]));
    }
    assert(crate::noise::laws::good(texts) =~= sent.take(received.len() as int));
}

/// What is read is what was written, over whole runs of the two sides of a connection: if the
/// reader is given bytes of those that the writer has put on the wire, each once and in order, and
/// every message is decrypted to the text that it was made of, then all text that the reader gets
/// is text that the writer was told was taken, from its start and in the same order. Once the
/// writer has flushed and the reader was given all bytes, it is all of that text. This holds
/// however the texts, the buffers and the bytes are cut, whatever each side reads or writes
/// otherwise, and as long as the connection does not end.
pub proof fn law_run_reads_what_was_written<T, U, I, J>(
    writer: OutputModel<T>,
    writes: Seq<Step<T, I>>,
    reader: OutputModel<U>,
    reads: Seq<Step<U, J>>,
)
    requires
        writer.session.transport,
        writer.writing.wf(),
        writer.reading.wf(),
        all_sent(writer.writing),
        is_run(writer, writes),
        reader.session.transport,
        reader.writing.wf(),
        reader.reading.wf(),
        crate::noise::laws::partial(reader.reading).len() == 0,
        crate::noise::laws::unread(reader.reading).len() == 0,
        is_run(reader, reads),
        fetched(reads).is_prefix_of(put(writer, writes)),
        is_deciphered(
            writer.session,
            last(writer, writes).session,
            reader.session,
            last(reader, reads).session,
        ),
    ensures
        ({
            let text = got(reader, reads) + crate::noise::laws::unread(last(reader, reads).reading);
            &&& text.is_prefix_of(accepted(writer, writes))
            &&& fetched(reads) == put(writer, writes) && all_sent(last(writer, writes).writing)
                ==> text == accepted(writer, writes)
        }),
{
    let (wend, rend) = (last(writer, writes), last(reader, reads));
    lemma_written(writer, writes);
    lemma_read(reader, reads);
    let messages = since(writer.session.messages, wend.session.messages);
    let sent = since(writer.session.sent, wend.session.sent);
    let received = since(reader.session.received, rend.session.received);
    let texts = since(reader.session.texts, rend.session.texts);
    let text = got(reader, reads) + crate::noise::laws::unread(rend.reading);
    let left = crate::noise::laws::to_write(wend.writing);
    let part = crate::noise::laws::partial(rend.reading);
    let made = crate::noise::laws::good(messages);
    assert(crate::noise::laws::wire(received).is_prefix_of(fetched(reads)));
    assert(put(writer, writes).is_prefix_of(crate::noise::laws::wire(made)));
    assert(crate::noise::laws::wire(received).is_prefix_of(crate::noise::laws::wire(made)));
    lemma_texts(messages, sent, received, texts);
    let k = received.len() as int;
    assert(sent =~= sent.take(k) + sent.skip(k));
    crate::noise::laws::lemma_joined_add(sent.take(k), sent.skip(k));
    assert(text.is_prefix_of(crate::noise::laws::joined(sent)));
    if fetched(reads) == put(writer, writes) && all_sent(wend.writing) {
        let rest = made.skip(k);
        assert(made =~= received + rest);
        crate::noise::laws::lemma_wire_add(received, rest);
        assert(put(writer, writes) + left =~= put(writer, writes));
        lemma_cancel(crate::noise::laws::wire(received), crate::noise::laws::wire(rest), part);
        assert forall|i: int| 0 <= i < rest.len() implies (#[trigger] rest[i]).len() <= u16::MAX by {
            assert(rest[i] == made[k + i]);
        }
        lemma_part_is_no_message(rest, rend.reading);
        assert(sent.skip(k).len() == 0);
        assert(crate::noise::laws::joined(sent.skip(k)).len() == 0);
        assert(text =~= accepted(writer, writes));
    }
}

} // verus!
