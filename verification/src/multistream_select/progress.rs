//! How the two sides go on, wait and fail while they agree on a protocol.

use crate::async_value::{Async, AsyncSink, Poll};
use crate::multistream_select::listener_select::{
    SelectAction, SelectInput, SelectState, SelectStep,
};
use crate::multistream_select::protocol::dialer;
use crate::multistream_select::protocol::dialer::State;
use crate::multistream_select::protocol::listener;
use crate::multistream_select::protocol::listener::{
    HandshakeInput, HandshakeStep, ListenerFutureState, SendState,
};
use crate::multistream_select::protocol::{
    DialerMessage, ListenerMessage, MultistreamSelectError, ReceiveAction, SendInput, SendStep,
};
use crate::multistream_select::ProtocolChoiceError;
use crate::protocol_name::ProtocolName;
use vstd::prelude::*;

verus! {

/// The input says that the connection is not ready.
pub open spec fn is_not_ready<E>(input: SelectInput<E>) -> bool {
    match input {
        SelectInput::Start => false,
        SelectInput::Received(p) => p matches Ok(Async::NotReady),
        SelectInput::Sent(p) => p matches Ok(Async::NotReady),
        SelectInput::Written(p) => p matches Ok(Async::NotReady),
        SelectInput::Flushed(p) => p matches Ok(Async::NotReady),
    }
}

/// The input says that the connection has failed.
pub open spec fn failure<E>(input: SelectInput<E>) -> Option<E> {
    match input {
        SelectInput::Start => None,
        SelectInput::Received(p) => p.err(),
        SelectInput::Sent(p) => p.err(),
        SelectInput::Written(p) => p.err(),
        SelectInput::Flushed(p) => p.err(),
    }
}

/// A connection that is not ready changes nothing: the choice waits and can be gone on with, and a
/// write is asked for again with the same bytes.
pub proof fn law_choice_waits<R, X: ProtocolName, E>(s: SelectState<R, X>, input: SelectInput<E>)
    requires
        s.wf(),
        s.accepts(input),
        is_not_ready(input),
    ensures
        s.step(input).0 == s,
        s.step(input).1 == match s {
            SelectState::Responding { sending, message, .. } => SelectStep::<R, X, E>::Write(
                crate::multistream_select::laws::unsent(sending, message),
            ),
            _ => SelectStep::<R, X, E>::Return(Ok(Async::NotReady)),
        },
{
}

/// To go on with a choice asks for what is missing, and for nothing else: the next frame, the rest
/// of the answer, or that it be flushed. As long as nothing has come of it, nothing changes.
pub proof fn law_choice_goes_on<R, X: ProtocolName, E>(s: SelectState<R, X>)
    requires
        s.wf(),
        !(s is Undefined),
    ensures
        s.step::<E>(SelectInput::Start).0 == s,
        s.step::<E>(SelectInput::Start).1 == match s {
            SelectState::AwaitListener { handshake: ListenerFutureState::Await { .. }, .. } =>
                SelectStep::<R, X, E>::Receive,
            SelectState::AwaitListener { .. } => SelectStep::<R, X, E>::PollSend,
            SelectState::Incoming { .. } => SelectStep::<R, X, E>::Receive,
            SelectState::Responding { sending, message, .. } => SelectStep::<R, X, E>::Write(
                crate::multistream_select::laws::unsent(sending, message),
            ),
            SelectState::Outgoing { .. } => SelectStep::<R, X, E>::Flush,
            SelectState::Undefined => arbitrary(),
        },
{
}

/// That no protocol was found is said exactly when the dialer ends the connection instead of
/// asking.
pub proof fn law_no_protocol_is_found_only_at_the_end<R, X: ProtocolName, E>(
    s: SelectState<R, X>,
    input: SelectInput<E>,
)
    requires
        s.wf(),
        s.accepts(input),
    ensures
        s.step(input).1 == SelectStep::<R, X, E>::Return(Err(ProtocolChoiceError::NoProtocolFound))
            <==> s is Incoming && (input matches SelectInput::Received(Ok(Async::Ready(None)))),
{
}

/// A failure of the connection is told as it is, and a choice fails for no other reason than that,
/// the end of the connection, or a frame that is no message.
pub proof fn law_failures_of_a_choice<R, X: ProtocolName, E>(
    s: SelectState<R, X>,
    input: SelectInput<E>,
)
    requires
        s.wf(),
        s.accepts(input),
    ensures
        failure(input) matches Some(e) ==> s.step(input).1 == SelectStep::<R, X, E>::Return(
            Err(
                ProtocolChoiceError::MultistreamSelectError(MultistreamSelectError::IoError(e)),
            ),
        ),
        s.step(input).1 matches SelectStep::Return(Err(_)) ==> {
            ||| failure(input) is Some
            ||| (input matches SelectInput::Received(Ok(Async::Ready(None))))
            ||| (s is AwaitListener && (input matches SelectInput::Received(
                Ok(Async::Ready(Some(frame))),
            ) && frame@ != crate::multistream_select::protocol::with_lf(
                crate::multistream_select::protocol::multistream_protocol(),
            )))
            ||| (s is Incoming && (input matches SelectInput::Received(
                Ok(Async::Ready(Some(frame))),
            ) && is_no_question(frame@)))
        },
{
    if let SelectInput::Received(Ok(Async::Ready(Some(frame)))) = input {
        law_questions_are_read_exactly::<E>(frame@);
    }
}

/// The frame is not what a dialer asks: neither a name that starts with a slash nor `ls`, with a
/// newline at the end.
pub open spec fn is_no_question(frame: Seq<u8>) -> bool {
    forall|m: DialerMessage|
        dialer::sendable(m) ==> #[trigger] crate::multistream_select::protocol::with_lf(
            dialer::payload(m),
        ) != frame
}

/// The listener reads exactly what a dialer can send: each frame is read as the one message that it
/// is made of, and any other frame is refused as unknown.
pub proof fn law_questions_are_read_exactly<E>(frame: Seq<u8>)
    ensures
        match listener::parse::<E>(frame) {
            Ok(m) => dialer::sendable(m) && crate::multistream_select::protocol::with_lf(
                dialer::payload(m),
            ) == frame,
            Err(e) => e is UnknownMessage && is_no_question(frame),
        },
        forall|m: DialerMessage|
            dialer::sendable(m) && #[trigger] crate::multistream_select::protocol::with_lf(
                dialer::payload(m),
            ) == frame ==> listener::parse::<E>(frame) == Ok::<
                DialerMessage,
                MultistreamSelectError<E>,
            >(m),
{
    assert forall|m: DialerMessage|
        dialer::sendable(m) && #[trigger] crate::multistream_select::protocol::with_lf(
            dialer::payload(m),
        ) == frame implies listener::parse::<E>(frame) == Ok::<
        DialerMessage,
        MultistreamSelectError<E>,
    >(m) by {
        crate::multistream_select::laws::law_dialer_is_understood::<E>(m);
    }
    match listener::parse::<E>(frame) {
        Ok(DialerMessage::Request(name)) => {
            if frame.len() == 1 {
                assert(frame[0] == frame.last());
            }
            assert(name.push('\n' as u8) =~= frame);
        },
        Ok(DialerMessage::List) => {
            assert(dialer::payload(DialerMessage::List).push('\n' as u8) =~= frame);
        },
        Err(_) => {},
    }
}

/// A question is answered at once: the listener asks to write the whole answer, which names the
/// protocol if there is one of that name, and it is that one that is agreed on.
pub proof fn law_question_is_answered_at_once<R, X: ProtocolName, E>(
    inner: R,
    protocols: Seq<X>,
    frame: Vec<u8>,
    message: DialerMessage,
)
    requires
        dialer::sendable(message),
        frame@ == crate::multistream_select::protocol::with_lf(dialer::payload(message)),
    ensures
        ({
            let names = crate::protocol_name::names(protocols);
            let (next, step) = (SelectState::<R, X>::Incoming { inner, protocols }).step::<E>(
                SelectInput::Received(Ok(Async::Ready(Some(frame)))),
            );
            &&& next matches SelectState::Responding {
                inner: r,
                protocols: ps,
                message: reply,
                sending,
                outcome,
            }
            &&& r == inner
            &&& ps == protocols
            &&& listener::sent(sending) == 0
            &&& step == SelectStep::<R, X, E>::Write(listener::payload(reply))
            &&& match message {
                DialerMessage::List => reply == ListenerMessage::List(names) && outcome is None,
                DialerMessage::Request(name) => if names.contains(name) {
                    reply == ListenerMessage::Ack(name) && (outcome matches Some(i) && i
                        < names.len() && names[i as int] == name && !names.take(i as int).contains(
                        name,
                    ))
                } else {
                    reply is NotAvailable && outcome is None
                },
            }
        }),
{
    let names = crate::protocol_name::names(protocols);
    crate::multistream_select::laws::law_dialer_is_understood::<E>(message);
    match message {
        DialerMessage::Request(name) => {
            crate::multistream_select::laws::law_first_named(names, name);
            match crate::multistream_select::listener_select::first_named(names, name) {
                Some(i) => {
                    assert(names.contains(names[i as int]));
                    if names.take(i as int).contains(name) {
                        let j = names.take(i as int).index_of(name);
                        assert(names[j] == name);
                    }
                },
                None => {},
            }
        },
        DialerMessage::List => {},
    }
    let reply = crate::multistream_select::listener_select::answer(names, message).0;
    assert(listener::payload(reply).skip(0) =~= listener::payload(reply));
}

/// A write that takes a part of the answer leaves the rest to be written; one that takes all of it
/// leads to a flush. The connection, the protocols and the agreement stay what they are.
pub proof fn law_answer_is_written_on<R, X: ProtocolName, E>(s: SelectState<R, X>, n: usize)
    requires
        s.wf(),
        s matches SelectState::Responding { message, sending, .. } && n
            <= crate::multistream_select::laws::unsent(sending, message).len() && listener::sent(
            sending,
        ) + n <= usize::MAX,
    ensures
        match (s, s.step::<E>(SelectInput::Written(Ok(Async::Ready(n))))) {
            (
                SelectState::Responding { inner, protocols, message, sending, outcome },
                (next, step),
            ) => {
                let rest = crate::multistream_select::laws::unsent(sending, message).skip(n as int);
                if rest.len() == 0 {
                    &&& step == SelectStep::<R, X, E>::Flush
                    &&& next == (SelectState::Outgoing { inner, protocols, outcome })
                } else {
                    &&& step == SelectStep::<R, X, E>::Write(rest)
                    &&& next matches SelectState::Responding {
                        inner: r,
                        protocols: ps,
                        message: m,
                        sending: t,
                        outcome: o,
                    } && r == inner && ps == protocols && m == message && o == outcome
                        && crate::multistream_select::laws::unsent(t, m) == rest
                }
            },
            _ => false,
        },
{
    if let SelectState::Responding { message, sending, .. } = s {
        let all = crate::multistream_select::laws::unsent(sending, message);
        let next = listener::send_step::<(), E>(
            sending,
            message,
            (),
            SendInput::Written(Ok(Async::Ready(n))),
        );
        assert(crate::multistream_select::laws::unsent(next.0, message) =~= all.skip(n as int)
            || next.0 is Start);
        assert(listener::sending(sending, message).skip(listener::sent(sending) + n) =~= all.skip(
            n as int,
        ));
    }
}

/// Once an answer is flushed, the protocol that was agreed on is given, with the connection and the
/// protocols; if none was, the next question is read.
pub proof fn law_flushed_answer_ends_the_choice<R, X: ProtocolName, E>(
    inner: R,
    protocols: Seq<X>,
    outcome: Option<nat>,
)
    ensures
        (SelectState::<R, X>::Outgoing { inner, protocols, outcome }).step::<E>(
            SelectInput::Flushed(Ok(Async::Ready(()))),
        ) == match outcome {
            Some(i) => (
                SelectState::<R, X>::Undefined,
                SelectStep::<R, X, E>::Return(Ok(Async::Ready((i, inner, protocols)))),
            ),
            None => (
                SelectState::<R, X>::Incoming { inner, protocols },
                SelectStep::<R, X, E>::Receive,
            ),
        },
{
}

/// How many more inputs other than waiting it takes at most until an answer is out.
pub open spec fn distance<R, X: ProtocolName>(s: SelectState<R, X>) -> nat {
    match s {
        SelectState::Responding { message, sending, .. } =>
            crate::multistream_select::laws::unsent(sending, message).len() + 2,
        SelectState::Outgoing { .. } => 1,
        _ => 0,
    }
}

/// While an answer goes out, every input that does not fail brings its end nearer or, if the
/// connection is not ready, leaves everything as it is. So an answer gets out however often the
/// connection is not ready.
pub proof fn law_answer_gets_out<R, X: ProtocolName, E>(s: SelectState<R, X>, input: SelectInput<E>)
    requires
        s.wf(),
        s.accepts(input),
        s is Responding || s is Outgoing,
        failure(input) is None,
        s matches SelectState::Responding { message, sending, .. } ==> (
        input matches SelectInput::Written(Ok(Async::Ready(n))) ==> 0 < n
            <= crate::multistream_select::laws::unsent(sending, message).len()),
    ensures
        if input is Start || is_not_ready(input) {
            s.step(input).0 == s
        } else {
            distance(s.step(input).0) < distance(s)
        },
{
    if let (
        SelectState::Responding { .. },
        SelectInput::Written(Ok(Async::Ready(n))),
    ) = (s, input) {
        law_answer_is_written_on::<R, X, E>(s, n);
    }
}

/// The listener's handshake succeeds exactly on the first message of a dialer, which is answered
/// with the same; it waits as long as the connection is not ready, and hands out the listener
/// unchanged.
pub proof fn law_listener_handshake<R, E>(
    state: ListenerFutureState<R>,
    input: HandshakeInput<E>,
)
    requires
        listener::handshake_accepts(state, input),
    ensures
        ({
            let (next, step) = listener::handshake_step(state, input);
            let first = crate::multistream_select::protocol::multistream_protocol();
            let of_state = match state {
                ListenerFutureState::Await { listener } => Some(listener),
                ListenerFutureState::Reply { listener } => Some(listener),
                ListenerFutureState::Undefined => None,
            };
            match input {
                HandshakeInput::Start => next == state && step == (if state is Await {
                    HandshakeStep::<R, E>::Receive
                } else {
                    HandshakeStep::<R, E>::PollSend
                }),
                HandshakeInput::Received(Ok(Async::NotReady)) => next == state && step
                    == HandshakeStep::<R, E>::Return(Ok(Async::NotReady)),
                HandshakeInput::Sent(Ok(Async::NotReady)) => next == state && step
                    == HandshakeStep::<R, E>::Return(Ok(Async::NotReady)),
                HandshakeInput::Received(Err(e)) => step == HandshakeStep::<R, E>::Return(
                    Err(MultistreamSelectError::IoError(e)),
                ),
                HandshakeInput::Sent(Err(e)) => step == HandshakeStep::<R, E>::Return(
                    Err(MultistreamSelectError::IoError(e)),
                ),
                HandshakeInput::Received(Ok(Async::Ready(Some(frame)))) => if frame@
                    == crate::multistream_select::protocol::with_lf(first) {
                    step == HandshakeStep::<R, E>::Send(first) && (
                    next matches ListenerFutureState::Reply { listener } && Some(listener)
                        == of_state)
                } else {
                    step == HandshakeStep::<R, E>::Return(
                        Err(MultistreamSelectError::FailedHandshake),
                    )
                },
                HandshakeInput::Received(Ok(Async::Ready(None))) => step == HandshakeStep::<
                    R,
                    E,
                >::Return(Err(MultistreamSelectError::FailedHandshake)),
                HandshakeInput::Sent(Ok(Async::Ready(()))) => of_state matches Some(l) && step
                    == HandshakeStep::<R, E>::Return(Ok(Async::Ready(l))),
            }
        }),
{
}

/// What the dialer has still to write of a message.
pub open spec fn dialer_unsent(state: State, message: DialerMessage) -> Seq<u8> {
    dialer::payload(message).skip(dialer::sent(state) as int)
}

/// The dialer writes each message once and in order: it asks for all that is left, what a write
/// takes is left out from then on, and the sending is over exactly when nothing is left. A
/// connection that is not ready changes nothing and hands the message back; a failure is told.
pub proof fn law_dialer_writes_each_message_once<M, E>(
    state: State,
    message: DialerMessage,
    item: M,
    input: SendInput<E>,
)
    requires
        dialer::sendable(message),
        dialer::sent(state) <= dialer::payload(message).len(),
        dialer::payload(message).len() <= usize::MAX,
        input is Written ==> state is Message,
        input matches SendInput::Written(Ok(Async::Ready(n))) ==> n <= dialer_unsent(
            state,
            message,
        ).len(),
    ensures
        ({
            let (next, step) = dialer::send_step(state, message, item, input);
            let all = dialer_unsent(state, message);
            match input {
                SendInput::Start => step == SendStep::<M, E>::Write(item, all) && dialer_unsent(
                    next,
                    message,
                ) == all && next is Message,
                SendInput::Written(Ok(Async::Ready(n))) => if n == all.len() {
                    step == SendStep::<M, E>::Return(Ok(AsyncSink::Ready)) && next is Start
                } else {
                    step == SendStep::<M, E>::Write(item, all.skip(n as int)) && dialer_unsent(
                        next,
                        message,
                    ) == all.skip(n as int) && next is Message
                },
                SendInput::Written(Ok(Async::NotReady)) => step == SendStep::<M, E>::Return(
                    Ok(AsyncSink::NotReady(item)),
                ) && next == state,
                SendInput::Written(Err(e)) => step == SendStep::<M, E>::Return(
                    Err(MultistreamSelectError::IoError(e)),
                ),
            }
        }),
{
    let all = dialer_unsent(state, message);
    if let SendInput::Written(Ok(Async::Ready(n))) = input {
        assert(dialer::payload(message).skip(dialer::sent(state) + n) =~= all.skip(n as int));
    }
}

/// A name that does not start with a slash is never written.
pub proof fn law_wrong_names_are_not_sent<M, E>(state: State, name: Seq<u8>, item: M)
    requires
        name.len() == 0 || name[0] != '/' as u8,
    ensures
        dialer::send_step::<M, E>(state, DialerMessage::Request(name), item, SendInput::Start).1
            == SendStep::<M, E>::Return(Err(MultistreamSelectError::WrongProtocolName)),
        forall|s: SendState|
            #![trigger listener::sent(s)]
            listener::send_step::<M, E>(
                s,
                ListenerMessage::Ack(name),
                item,
                SendInput::Start,
            ).1 == SendStep::<M, E>::Return(Err(MultistreamSelectError::WrongProtocolName)),
{
}

/// The listener asks for all that is left of a message; a connection that is not ready changes
/// nothing and hands the message back; a failure is told.
pub proof fn law_listener_waits_to_write<M, E>(
    state: SendState,
    message: ListenerMessage,
    item: M,
    e: E,
)
    requires
        listener::fits(state, message),
        listener::sendable(message),
    ensures
        ({
            let (next, step) = listener::send_step::<M, E>(state, message, item, SendInput::Start);
            &&& step == SendStep::<M, E>::Write(
                item,
                crate::multistream_select::laws::unsent(state, message),
            )
            &&& crate::multistream_select::laws::unsent(next, message)
                == crate::multistream_select::laws::unsent(state, message)
            &&& !(next is Start)
        }),
        listener::send_step::<M, E>(
            state,
            message,
            item,
            SendInput::Written(Ok(Async::NotReady)),
        ) == (state, SendStep::<M, E>::Return(Ok(AsyncSink::NotReady(item)))),
        listener::send_step::<M, E>(state, message, item, SendInput::Written(Err(e))).1
            == SendStep::<M, E>::Return(Err(MultistreamSelectError::IoError(e))),
{
    let next = listener::send_step::<M, E>(state, message, item, SendInput::Start).0;
    assert(listener::sending(next, message) =~= listener::sending(state, message));
}

/// Both sides wait as long as there is no frame, tell the end of the connection as an end and its
/// failures as they are.
pub proof fn law_receiving_waits_ends_and_fails<E>(finished: bool, e: E)
    ensures
        listener::receive::<E>(Ok(Async::NotReady)) == Ok::<
            Async<Option<DialerMessage>>,
            MultistreamSelectError<E>,
        >(Async::NotReady),
        listener::receive::<E>(Ok(Async::Ready(None))) == Ok::<
            Async<Option<DialerMessage>>,
            MultistreamSelectError<E>,
        >(Async::Ready(None)),
        listener::receive::<E>(Err(e)) == Err::<
            Async<Option<DialerMessage>>,
            MultistreamSelectError<E>,
        >(MultistreamSelectError::IoError(e)),
        dialer::receive::<E>(finished, Ok(Async::NotReady)) == (
            finished,
            ReceiveAction::<ListenerMessage, E>::Return(Ok(Async::NotReady)),
        ),
        dialer::receive::<E>(finished, Ok(Async::Ready(None))) == (
            finished,
            ReceiveAction::<ListenerMessage, E>::Return(Ok(Async::Ready(None))),
        ),
        dialer::receive::<E>(finished, Err(e)).1 == ReceiveAction::<ListenerMessage, E>::Return(
            Err(MultistreamSelectError::IoError(e)),
        ),
{
}

/// The dialer takes the first frame for the handshake, and only the right one; it asks for the next
/// frame then, and never takes another one for the handshake.
pub proof fn law_dialer_checks_the_first_frame<E>(frame: Seq<u8>)
    ensures
        ({
            let first = crate::multistream_select::protocol::with_lf(
                crate::multistream_select::protocol::multistream_protocol(),
            );
            let polled: Poll<Option<Seq<u8>>, E> = Ok(Async::Ready(Some(frame)));
            &&& frame == first ==> dialer::receive(false, polled) == (
                true,
                ReceiveAction::<ListenerMessage, E>::ReadFrame,
            )
            &&& frame != first ==> dialer::receive(false, polled).1 == ReceiveAction::<
                ListenerMessage,
                E,
            >::Return(Err(MultistreamSelectError::FailedHandshake))
            &&& dialer::receive(true, polled).0
            &&& dialer::receive(true, polled).1 is Return
        }),
{
}

/// The dialer hands out what the listener has sent: an answer that a listener can send and that can
/// be told from others comes out as it went in.
pub proof fn law_dialer_receives_what_was_sent<E>(message: ListenerMessage)
    requires
        listener::sendable(message),
        listener::countable(message),
        crate::multistream_select::laws::list_is_plain(message),
    ensures
        dialer::receive::<E>(
            true,
            Ok(
                Async::Ready(
                    Some(
                        crate::multistream_select::protocol::with_lf(listener::payload(message)),
                    ),
                ),
            ),
        ) == (
            true,
            ReceiveAction::<ListenerMessage, E>::Return(Ok(Async::Ready(Some(message)))),
        ),
{
    crate::multistream_select::laws::law_listener_is_understood::<E>(message);
}

/// An agreement that the dialer reads names exactly what stands in the frame, and a refusal is
/// read from exactly one frame.
pub proof fn law_dialer_reads_no_more_than_there_is<E>(frame: Seq<u8>)
    ensures
        dialer::parse::<E>(frame) matches Ok(ListenerMessage::Ack(name)) ==> frame
            == crate::multistream_select::protocol::with_lf(name) && (frame[0] == '/' as u8),
        dialer::parse::<E>(frame) matches Ok(ListenerMessage::NotAvailable) ==> frame
            == crate::multistream_select::protocol::with_lf(
            listener::payload(ListenerMessage::NotAvailable),
        ),
        dialer::parse::<E>(frame) matches Ok(ListenerMessage::List(list)) ==> list.len()
            <= dialer::MAX_PROTOCOLS,
{
    if let Ok(ListenerMessage::Ack(name)) = dialer::parse::<E>(frame) {
        assert(name.push('\n' as u8) =~= frame);
    }
    if let Ok(ListenerMessage::NotAvailable) = dialer::parse::<E>(frame) {
        assert(listener::payload(ListenerMessage::NotAvailable).push('\n' as u8) =~= frame);
    }
    match crate::varint::uvi_decode_usize(frame) {
        Ok((n, rest)) => {
            lemma_number_of_names::<E>(rest.skip(1), n);
        },
        Err(_) => {},
    }
}

proof fn lemma_number_of_names<E>(s: Seq<u8>, k: nat)
    ensures
        dialer::parse_names::<E>(s, k) matches Ok(names) ==> names.len() == k,
    decreases k,
{
    if k > 0 {
        match crate::varint::uvi_decode_usize(s) {
            Ok((len, rem)) => {
                lemma_number_of_names::<E>(rem.skip(len as int), (k - 1) as nat);
            },
            Err(_) => {},
        }
    }
}

/// The dialer's handshake asks for what is left of the first message, then for a flush; it waits,
/// with the dialer kept, while the connection is not ready to be written to, tells the failures of
/// the connection, and gives the dialer as it is once the flush is over.
pub proof fn law_dialer_handshake_goes_on<R, E>(
    f: dialer::DialerFuture<R>,
    d: dialer::Dialer<R>,
    e: E,
)
    requires
        f.offset <= crate::multistream_select::protocol::multistream_protocol().len(),
    ensures
        ({
            let rest = crate::multistream_select::protocol::multistream_protocol().skip(
                f.offset as int,
            );
            let (next, step) = dialer::handshake_step::<R, E>(
                f,
                dialer::HandshakeInput::Written(d, Ok(Async::NotReady)),
            );
            &&& step == dialer::HandshakeStep::<R, E>::Return(Ok(Async::NotReady))
            &&& next.dialer == Some(d)
            &&& next.offset == f.offset
            &&& dialer::handshake_step::<R, E>(next, dialer::HandshakeInput::Start).1 == if rest.len()
                > 0 {
                dialer::HandshakeStep::<R, E>::Write(d, rest)
            } else {
                dialer::HandshakeStep::<R, E>::Flush(d)
            }
        }),
        dialer::handshake_step::<R, E>(f, dialer::HandshakeInput::Written(d, Err(e))).1
            == dialer::HandshakeStep::<R, E>::Return(Err(MultistreamSelectError::IoError(e))),
        dialer::handshake_step::<R, E>(f, dialer::HandshakeInput::Flushed(d, Err(e))).1
            == dialer::HandshakeStep::<R, E>::Return(Err(MultistreamSelectError::IoError(e))),
        dialer::handshake_step::<R, E>(f, dialer::HandshakeInput::Flushed(d, Ok(Async::Ready(())))).1
            == dialer::HandshakeStep::<R, E>::Return(Ok(Async::Ready(d))),
{
}

/// Each action is what the step of the choice asks for, and a protocol that is given is a clone of
/// the one at its place.
pub proof fn law_choice_does_what_it_says<R, X: ProtocolName + Clone, E>(
    action: SelectAction<R, X, E>,
    step: SelectStep<R, X, E>,
)
    requires
        crate::multistream_select::listener_select::performs(action, step),
    ensures
        match action {
            SelectAction::Receive => step is Receive,
            SelectAction::Send(v) => step == SelectStep::<R, X, E>::Send(v@),
            SelectAction::PollSend => step is PollSend,
            SelectAction::Write(v) => step == SelectStep::<R, X, E>::Write(v@),
            SelectAction::Flush => step is Flush,
            SelectAction::Return(Ok(Async::NotReady)) => step == SelectStep::<R, X, E>::Return(
                Ok(Async::NotReady),
            ),
            SelectAction::Return(Err(e)) => step == SelectStep::<R, X, E>::Return(Err(e)),
            SelectAction::Return(Ok(Async::Ready((x, r, ps)))) => step matches SelectStep::Return(
                Ok(Async::Ready((i, inner, protocols))),
            ) && inner == r && protocols == ps@ && i < ps@.len() && cloned(ps@[i as int], x),
        },
{
}

/// What is asked for can be handed in, whatever it is: a frame, what a write has taken of the bytes
/// that it was given, the outcome of a flush.
pub proof fn law_choice_takes_what_it_asks_for<R, X: ProtocolName, E>(s: SelectState<R, X>)
    requires
        s.wf(),
    ensures
        s is Incoming ==> forall|p: Poll<Option<Vec<u8>>, E>| #[trigger]
            s.accepts(SelectInput::Received(p)),
        s is Outgoing ==> forall|p: Poll<(), E>| #[trigger] s.accepts(SelectInput::Flushed(p)),
        s matches SelectState::AwaitListener { handshake, .. } ==> {
            &&& handshake is Await ==> forall|p: Poll<Option<Vec<u8>>, E>| #[trigger]
                s.accepts(SelectInput::Received(p))
            &&& handshake is Reply ==> forall|p: Poll<(), E>| #[trigger]
                s.accepts(SelectInput::Sent(p))
        },
        s matches SelectState::Responding { sending, message, .. } ==> {
            &&& forall|e: E| #[trigger] s.accepts(SelectInput::Written(Err(e)))
            &&& s.accepts::<E>(SelectInput::Written(Ok(Async::NotReady)))
            &&& forall|n: usize|
                n <= crate::multistream_select::laws::unsent(sending, message).len()
                    && listener::sending(sending, message).len() <= usize::MAX ==> #[trigger]
                s.accepts::<E>(SelectInput::Written(Ok(Async::Ready(n))))
        },
        !(s is Undefined) ==> s.accepts::<E>(SelectInput::Start),
{
}

} // verus!
