//! What holds of the two sides together.

use crate::async_value::Async;
use crate::multistream_select::listener_select::{SelectInput, SelectState, SelectStep};
use crate::multistream_select::protocol::listener::SendState;
use crate::multistream_select::protocol::{
    DialerMessage, ListenerMessage, MultistreamSelectError, SendInput,
};
use crate::multistream_select::protocol::dialer;
use crate::multistream_select::protocol::dialer::{
    Dialer, DialerFuture, HandshakeInput, HandshakeStep, State,
};
use crate::multistream_select::protocol::listener;
use crate::protocol_name::ProtocolName;
use vstd::prelude::*;

verus! {

/// The listener understands every message that the dialer sends.
pub proof fn law_dialer_is_understood<E>(message: DialerMessage)
    requires
        dialer::sendable(message),
    ensures
        listener::parse::<E>(
            crate::multistream_select::protocol::with_lf(dialer::payload(message)),
        ) == Ok::<DialerMessage, MultistreamSelectError<E>>(message),
{
    let frame = crate::multistream_select::protocol::with_lf(dialer::payload(message));
    match message {
        DialerMessage::Request(name) => {
            assert(frame.drop_last() =~= name);
        },
        DialerMessage::List => {
            assert(frame =~= seq!['l' as u8, 's' as u8, '\n' as u8]);
        },
    }
}

/// A list of protocols that the dialer can tell from an answer and that is not too long for it.
///
/// A list of 47 protocols starts with the code of a slash, so it looks like a protocol name.
pub open spec fn list_is_plain(message: ListenerMessage) -> bool {
    match message {
        ListenerMessage::List(list) => list.len() != '/' as nat && list.len() <= dialer::MAX_PROTOCOLS,
        _ => true,
    }
}

proof fn lemma_names_are_read_back<E>(list: Seq<Seq<u8>>, rest: Seq<u8>)
    requires
        listener::countable_names(list),
    ensures
        dialer::parse_names::<E>(listener::list_entries(list) + rest, list.len()) == Ok::<
            Seq<Seq<u8>>,
            MultistreamSelectError<E>,
        >(list),
    decreases list.len(),
{
    let s = listener::list_entries(list) + rest;
    if list.len() == 0 {
        assert(list =~= Seq::empty());
    } else {
        let name = list.first();
        assert(name == list[0]);
        let others = list.drop_first();
        assert forall|i: int| 0 <= i < others.len() implies (#[trigger] others[i]).len() < usize::MAX by {
            assert(others[i] == list[i + 1]);
        }
        let tail = listener::list_entries(others) + rest;
        let rem = name + seq!['\n' as u8] + tail;
        assert(s =~= crate::varint::uvi(name.len() + 1) + rem);
        crate::varint::law_uvi_round_trip(name.len() + 1, rem);
        let len = (name.len() + 1) as int;
        assert(rem[len - 1] == '\n' as u8);
        assert(rem.take(len - 1) =~= name);
        assert(rem.skip(len) =~= tail);
        lemma_names_are_read_back::<E>(others, rest);
        assert(seq![name] + others =~= list);
    }
}

/// The dialer understands every message that the listener sends, but for lists of exactly 47 or
/// more than 1000 protocols.
pub proof fn law_listener_is_understood<E>(message: ListenerMessage)
    requires
        listener::sendable(message),
        listener::countable(message),
        list_is_plain(message),
    ensures
        ({
            let frame = crate::multistream_select::protocol::with_lf(listener::payload(message));
            &&& dialer::is_readable(frame)
            &&& dialer::parse::<E>(frame) == Ok::<ListenerMessage, MultistreamSelectError<E>>(
                message,
            )
        }),
{
    let frame = crate::multistream_select::protocol::with_lf(listener::payload(message));
    match message {
        ListenerMessage::Ack(name) => {
            assert(frame.drop_last() =~= name);
        },
        ListenerMessage::NotAvailable => {
            assert(frame =~= dialer::not_available_frame());
        },
        ListenerMessage::List(list) => {
            let n = list.len();
            let lf = seq!['\n' as u8];
            crate::varint::lemma_uvi_first(n);
            if n == 0 {
                assert(frame =~= crate::varint::uvi(n) + (lf + lf));
                crate::varint::law_uvi_round_trip(n, lf + lf);
                assert((lf + lf).skip(1) =~= listener::list_entries(list) + lf);
                lemma_names_are_read_back::<E>(list, lf);
            } else {
                let entries = listener::list_entries(list);
                lemma_entries_end(list);
                assert(entries =~= entries.drop_last() + lf);
                assert(frame =~= crate::varint::uvi(n) + (lf + entries));
                crate::varint::law_uvi_round_trip(n, lf + entries);
                assert((lf + entries).skip(1) =~= entries + Seq::<u8>::empty());
                lemma_names_are_read_back::<E>(list, Seq::empty());
            }
            assert(frame[0] == crate::varint::uvi(n)[0]);
            if n < 128 {
                assert(frame[1] == '\n' as u8);
            }
            assert(frame != dialer::not_available_frame());
        },
    }
}

proof fn lemma_entries_end(list: Seq<Seq<u8>>)
    requires
        list.len() > 0,
    ensures
        listener::list_entries(list).len() > 0,
        listener::list_entries(list).last() == '\n' as u8,
    decreases list.len(),
{
    let others = list.drop_first();
    if others.len() > 0 {
        lemma_entries_end(others);
    } else {
        assert(listener::list_entries(others) =~= Seq::empty());
        assert(listener::list_entries(list) =~= listener::list_entry(list.first()));
    }
}

/// A list of 47 protocols is taken for an answer that names a protocol.
pub proof fn law_list_of_47_is_misread<E>(list: Seq<Seq<u8>>)
    requires
        list.len() == '/' as nat,
    ensures
        dialer::parse::<E>(
            crate::multistream_select::protocol::with_lf(
                listener::payload(ListenerMessage::List(list)),
            ),
        ) matches Ok(ListenerMessage::Ack(_)),
{
    crate::varint::lemma_uvi_first(list.len());
}

/// What is still to be written.
pub open spec fn unsent(state: SendState, message: ListenerMessage) -> Seq<u8> {
    listener::sending(state, message).skip(listener::sent(state) as int)
}

/// What the connection has taken after writes that took so many bytes each, and the state then.
pub open spec fn taken(state: SendState, message: ListenerMessage, counts: Seq<usize>) -> (
    Seq<u8>,
    SendState,
)
    decreases counts.len(),
{
    if counts.len() == 0 || state is Start {
        (Seq::empty(), state)
    } else {
        let n = counts.first();
        let next = listener::send_step::<(), ()>(
            state,
            message,
            (),
            SendInput::Written(Ok(Async::Ready(n))),
        ).0;
        let (more, end) = taken(next, message, counts.drop_first());
        (unsent(state, message).take(n as int) + more, end)
    }
}

/// No write takes more bytes than it was given.
pub open spec fn counts_fit(state: SendState, message: ListenerMessage, counts: Seq<usize>) -> bool
    decreases counts.len(),
{
    counts.len() == 0 || state is Start || (counts.first() <= unsent(state, message).len()
        && counts_fit(
        listener::send_step::<(), ()>(
            state,
            message,
            (),
            SendInput::Written(Ok(Async::Ready(counts.first()))),
        ).0,
        message,
        counts.drop_first(),
    ))
}

/// However the writes are cut, what was taken and what is still to be written make up the
/// message: no byte is lost and none is written twice. Once the sending is over, all was taken.
pub proof fn law_message_is_written_once(
    state: SendState,
    message: ListenerMessage,
    counts: Seq<usize>,
)
    requires
        !(state is Start),
        listener::fits(state, message),
        listener::sendable(message),
        counts_fit(state, message, counts),
    ensures
        ({
            let (out, end) = taken(state, message, counts);
            out + (if end is Start {
                Seq::empty()
            } else {
                unsent(end, message)
            }) == unsent(state, message)
        }),
    decreases counts.len(),
{
    let all = unsent(state, message);
    if counts.len() == 0 {
        assert(Seq::<u8>::empty() + all =~= all);
    } else {
        let n = counts.first();
        let next = listener::send_step::<(), ()>(
            state,
            message,
            (),
            SendInput::Written(Ok(Async::Ready(n))),
        ).0;
        if next is Start {
            assert(all.take(n as int) =~= all);
            assert(all + Seq::<u8>::empty() + Seq::<u8>::empty() =~= all);
        } else {
            law_message_is_written_once(next, message, counts.drop_first());
            assert(unsent(next, message) =~= all.skip(n as int));
            let (more, end) = taken(next, message, counts.drop_first());
            let rest = if end is Start {
                Seq::empty()
            } else {
                unsent(end, message)
            };
            assert(all.take(n as int) + more + rest =~= all.take(n as int) + (more + rest));
            assert(all.take(n as int) + all.skip(n as int) =~= all);
        }
    }
}

/// What the dialer's handshake does after one more outcome of a write. If the connection could
/// not take anything, the handshake is started again.
pub open spec fn greeting_step<R>(f: DialerFuture<R>, d: Dialer<R>, outcome: Async<usize>) -> (
    DialerFuture<R>,
    HandshakeStep<R, ()>,
) {
    let (next, action) = dialer::handshake_step::<R, ()>(
        f,
        HandshakeInput::Written(d, Ok(outcome)),
    );
    match outcome {
        Async::Ready(_) => (next, action),
        Async::NotReady => dialer::handshake_step(next, HandshakeInput::Start),
    }
}

/// What the connection has taken after writes with these outcomes, and what the dialer's
/// handshake has come to.
pub open spec fn greeted<R>(
    f: DialerFuture<R>,
    step: HandshakeStep<R, ()>,
    outcomes: Seq<Async<usize>>,
) -> (Seq<u8>, DialerFuture<R>, HandshakeStep<R, ()>)
    decreases outcomes.len(),
{
    match step {
        HandshakeStep::Write(d, bytes) => if outcomes.len() == 0 {
            (Seq::empty(), f, step)
        } else {
            let (next, action) = greeting_step(f, d, outcomes.first());
            let (more, end, last) = greeted(next, action, outcomes.drop_first());
            match outcomes.first() {
                Async::Ready(n) => (bytes.take(n as int) + more, end, last),
                Async::NotReady => (more, end, last),
            }
        },
        _ => (Seq::empty(), f, step),
    }
}

/// No write of the dialer's handshake takes more bytes than it was given.
pub open spec fn greeting_fits<R>(
    f: DialerFuture<R>,
    step: HandshakeStep<R, ()>,
    outcomes: Seq<Async<usize>>,
) -> bool
    decreases outcomes.len(),
{
    match step {
        HandshakeStep::Write(d, bytes) => outcomes.len() == 0 || {
            let (next, action) = greeting_step(f, d, outcomes.first());
            (outcomes.first() matches Async::Ready(n) ==> n <= bytes.len()) && greeting_fits(
                next,
                action,
                outcomes.drop_first(),
            )
        },
        _ => true,
    }
}

/// What is still to be written of the first message.
pub open spec fn greeting_left<R>(step: HandshakeStep<R, ()>) -> Seq<u8> {
    match step {
        HandshakeStep::Write(_, bytes) => bytes,
        _ => Seq::empty(),
    }
}

proof fn lemma_greeting<R>(
    f: DialerFuture<R>,
    d: Dialer<R>,
    outcomes: Seq<Async<usize>>,
)
    requires
        f.dialer is None,
        f.offset <= crate::multistream_select::protocol::multistream_protocol().len(),
        greeting_fits(f, dialer::handshake_next(d, f.offset), outcomes),
    ensures
        ({
            let message = crate::multistream_select::protocol::multistream_protocol();
            let (out, end, last) = greeted(f, dialer::handshake_next(d, f.offset), outcomes);
            &&& out + greeting_left(last) == message.skip(f.offset as int)
            &&& last == dialer::handshake_next::<R, ()>(d, end.offset)
            &&& end.dialer is None
        }),
    decreases outcomes.len(),
{
    let message = crate::multistream_select::protocol::multistream_protocol();
    let step = dialer::handshake_next::<R, ()>(d, f.offset);
    let bytes = message.skip(f.offset as int);
    if step is Write && outcomes.len() > 0 {
        let (next, action) = greeting_step(f, d, outcomes.first());
        let (more, end, last) = greeted(next, action, outcomes.drop_first());
        assert(step == HandshakeStep::<R, ()>::Write(d, bytes));
        lemma_greeting(next, d, outcomes.drop_first());
        match outcomes.first() {
            Async::Ready(n) => {
                assert(message.skip(next.offset as int) =~= bytes.skip(n as int));
                assert(bytes.take(n as int) + more + greeting_left(last) =~= bytes.take(n as int)
                    + (more + greeting_left(last)));
                assert(bytes.take(n as int) + bytes.skip(n as int) =~= bytes);
            },
            Async::NotReady => {},
        }
    } else {
        assert(Seq::<u8>::empty() + greeting_left(step) =~= bytes);
    }
}

/// However the writes are cut, and however often the connection is not ready, what was taken and
/// what is still to be written make up the dialer's first message: no byte is lost and none is
/// written twice. Once all was taken the connection is flushed, as often as it is not ready, and
/// then the dialer is given.
pub proof fn law_dialer_greets_once<R>(inner: R, outcomes: Seq<Async<usize>>)
    requires
        ({
            let d = Dialer { inner, handshake_finished: false, state: State::Start };
            let (f, step) = dialer::handshake_step::<R, ()>(
                DialerFuture { dialer: Some(d), offset: 0 },
                HandshakeInput::Start,
            );
            greeting_fits(f, step, outcomes)
        }),
    ensures
        ({
            let d = Dialer { inner, handshake_finished: false, state: State::Start };
            let (f, step) = dialer::handshake_step::<R, ()>(
                DialerFuture { dialer: Some(d), offset: 0 },
                HandshakeInput::Start,
            );
            let (out, end, last) = greeted(f, step, outcomes);
            &&& out + greeting_left(last)
                == crate::multistream_select::protocol::multistream_protocol()
            &&& if greeting_left(last).len() > 0 {
                last == HandshakeStep::<R, ()>::Write(d, greeting_left(last))
            } else {
                &&& last == HandshakeStep::<R, ()>::Flush(d)
                &&& dialer::handshake_step::<R, ()>(
                    end,
                    HandshakeInput::Flushed(d, Ok(Async::NotReady)),
                ) == (end, last)
                &&& dialer::handshake_step::<R, ()>(
                    end,
                    HandshakeInput::Flushed(d, Ok(Async::Ready(()))),
                ).1 == HandshakeStep::<R, ()>::Return(Ok(Async::Ready(d)))
            }
        }),
{
    let message = crate::multistream_select::protocol::multistream_protocol();
    let d = Dialer { inner, handshake_finished: false, state: State::Start };
    let f = DialerFuture { dialer: None, offset: 0 };
    lemma_greeting(f, d, outcomes);
    assert(message.skip(0) =~= message);
}

/// The first protocol with a name has that name, and there is one exactly if some protocol has
/// that name.
pub proof fn law_first_named(names: Seq<Seq<u8>>, name: Seq<u8>)
    ensures
        match crate::multistream_select::listener_select::first_named(names, name) {
            Some(i) => i < names.len() && names[i as int] == name && forall|j: int|
                0 <= j < i ==> #[trigger] names[j] != name,
            None => !names.contains(name),
        },
    decreases names.len(),
{
    if names.len() > 0 {
        let rest = names.drop_first();
        law_first_named(rest, name);
        match crate::multistream_select::listener_select::first_named(names, name) {
            Some(i) => {
                assert forall|j: int| 0 <= j < i implies #[trigger] names[j] != name by {
                    if j > 0 {
                        assert(rest[j - 1] == names[j]);
                    }
                }
            },
            None => {
                if names.contains(name) {
                    let k = choose|k: int| 0 <= k < names.len() && names[k] == name;
                    assert(rest[k - 1] == name);
                }
            },
        }
    }
}

/// The answer is always one that can be sent: no choice fails for a wrong protocol name.
pub proof fn law_answer_can_be_sent(names: Seq<Seq<u8>>, frame: Seq<u8>, message: DialerMessage)
    requires
        listener::parse::<()>(frame) == Ok::<DialerMessage, MultistreamSelectError<()>>(message),
    ensures
        listener::sendable(
            crate::multistream_select::listener_select::answer(names, message).0,
        ),
{
}

/// A dialer that asks for a protocol that is supported is told so, and that protocol is chosen.
pub proof fn law_supported_protocol_is_chosen<R, X: ProtocolName, E>(
    inner: R,
    protocols: Seq<X>,
    name: Seq<u8>,
    frame: Vec<u8>,
    all: usize,
)
    requires
        name.len() > 0,
        name[0] == '/' as u8,
        crate::protocol_name::names(protocols).contains(name),
        frame@ == crate::multistream_select::protocol::with_lf(name),
        all == name.len(),
    ensures
        ({
            let asked = SelectState::<R, X>::Incoming { inner, protocols };
            let (answering, answer) = asked.step::<E>(
                SelectInput::Received(Ok(Async::Ready(Some(frame)))),
            );
            let (flushing, flush) = answering.step::<E>(SelectInput::Written(Ok(Async::Ready(all))));
            let (_, end) = flushing.step::<E>(SelectInput::Flushed(Ok(Async::Ready(()))));
            &&& answer == SelectStep::<R, X, E>::Write(name)
            &&& flush is Flush
            &&& end matches SelectStep::Return(Ok(Async::Ready((i, r, ps)))) && r == inner && ps
                == protocols && i < protocols.len() && protocols[i as int].name() == name
        }),
{
    let names = crate::protocol_name::names(protocols);
    law_first_named(names, name);
    assert(frame@.drop_last() =~= name);
    assert(name.skip(0) =~= name);
}

/// A dialer that asks for a protocol that is not supported is told so, and may ask again.
pub proof fn law_unsupported_protocol_is_refused<R, X: ProtocolName, E>(
    inner: R,
    protocols: Seq<X>,
    name: Seq<u8>,
    frame: Vec<u8>,
)
    requires
        name.len() > 0,
        name[0] == '/' as u8,
        !crate::protocol_name::names(protocols).contains(name),
        frame@ == crate::multistream_select::protocol::with_lf(name),
    ensures
        ({
            let asked = SelectState::<R, X>::Incoming { inner, protocols };
            let (answering, answer) = asked.step::<E>(
                SelectInput::Received(Ok(Async::Ready(Some(frame)))),
            );
            let (flushing, flush) = answering.step::<E>(SelectInput::Written(Ok(Async::Ready(2))));
            let (end, _) = flushing.step::<E>(SelectInput::Flushed(Ok(Async::Ready(()))));
            &&& answer == SelectStep::<R, X, E>::Write(seq!['n' as u8, 'a' as u8])
            &&& flush is Flush
            &&& end == asked
        }),
{
    let names = crate::protocol_name::names(protocols);
    law_first_named(names, name);
    assert(frame@.drop_last() =~= name);
    let na = seq!['n' as u8, 'a' as u8];
    assert(na.skip(0) =~= na);
    let asked = SelectState::<R, X>::Incoming { inner, protocols };
    let (answering, answer) = asked.step::<E>(
        SelectInput::Received(Ok(Async::Ready(Some(frame)))),
    );
    assert(answer == SelectStep::<R, X, E>::Write(na));
}

/// A dialer that asks for the protocols is told all of them, and may ask again.
pub proof fn law_list_is_given<R, X: ProtocolName, E>(
    inner: R,
    protocols: Seq<X>,
    frame: Vec<u8>,
    all: usize,
)
    requires
        frame@ == crate::multistream_select::protocol::with_lf(
            dialer::payload(DialerMessage::List),
        ),
        all == listener::list_payload(crate::protocol_name::names(protocols)).len(),
    ensures
        ({
            let asked = SelectState::<R, X>::Incoming { inner, protocols };
            let (answering, answer) = asked.step::<E>(
                SelectInput::Received(Ok(Async::Ready(Some(frame)))),
            );
            let (flushing, flush) = answering.step::<E>(SelectInput::Written(Ok(Async::Ready(all))));
            let (end, _) = flushing.step::<E>(SelectInput::Flushed(Ok(Async::Ready(()))));
            &&& answer == SelectStep::<R, X, E>::Write(
                listener::list_payload(crate::protocol_name::names(protocols)),
            )
            &&& flush is Flush
            &&& end == asked
        }),
{
    law_dialer_is_understood::<E>(DialerMessage::List);
    let bytes = listener::list_payload(crate::protocol_name::names(protocols));
    assert(bytes.skip(0) =~= bytes);
}

} // verus!
