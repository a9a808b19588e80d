//! Whole runs of the listener's choice.

use crate::async_value::Async;
use crate::multistream_select::listener_select::{SelectInput, SelectState, SelectStep};
use crate::multistream_select::protocol::{DialerMessage, SendInput};
use crate::multistream_select::protocol::listener;
use crate::multistream_select::ProtocolChoiceError;
use crate::protocol_name::ProtocolName;
use vstd::prelude::*;

verus! {

/// The state after polls with these inputs, each with the connection as it is then.
pub open spec fn after<R, X: ProtocolName, E>(
    start: SelectState<R, X>,
    polls: Seq<(R, SelectInput<E>)>,
) -> SelectState<R, X>
    decreases polls.len(),
{
    if polls.len() == 0 {
        start
    } else {
        after(start, polls.drop_last()).with_connection(polls.last().0).step(polls.last().1).0
    }
}

/// The state in which the last poll is made.
pub open spec fn before_last<R, X: ProtocolName, E>(
    start: SelectState<R, X>,
    polls: Seq<(R, SelectInput<E>)>,
) -> SelectState<R, X> {
    after(start, polls.drop_last()).with_connection(polls.last().0)
}

/// What the dialer asks with an input.
pub open spec fn question<R, X: ProtocolName, E>(
    state: SelectState<R, X>,
    input: SelectInput<E>,
) -> Option<DialerMessage> {
    match (state, input) {
        (SelectState::Incoming { .. }, SelectInput::Received(polled)) => match listener::receive(
            crate::multistream_select::protocol::polled_frame(polled),
        ) {
            Ok(Async::Ready(message)) => message,
            _ => None,
        },
        _ => None,
    }
}

/// All that the dialer has asked.
pub open spec fn asked<R, X: ProtocolName, E>(
    start: SelectState<R, X>,
    polls: Seq<(R, SelectInput<E>)>,
) -> Seq<DialerMessage>
    decreases polls.len(),
{
    if polls.len() == 0 {
        Seq::empty()
    } else {
        let so_far = asked(start, polls.drop_last());
        match question(before_last(start, polls), polls.last().1) {
            Some(message) => so_far.push(message),
            None => so_far,
        }
    }
}

/// What the connection takes of an answer with an input.
pub open spec fn took<R, X: ProtocolName, E>(
    state: SelectState<R, X>,
    input: SelectInput<E>,
) -> Seq<u8> {
    match (state, input) {
        (
            SelectState::Responding { message, sending, .. },
            SelectInput::Written(Ok(Async::Ready(n))),
        ) => crate::multistream_select::laws::unsent(sending, message).take(n as int),
        _ => Seq::empty(),
    }
}

/// What the connection has taken of each answer: a question begins an answer.
pub open spec fn told<R, X: ProtocolName, E>(
    start: SelectState<R, X>,
    polls: Seq<(R, SelectInput<E>)>,
) -> Seq<Seq<u8>>
    decreases polls.len(),
{
    if polls.len() == 0 {
        Seq::empty()
    } else {
        let so_far = told(start, polls.drop_last());
        let state = before_last(start, polls);
        match question(state, polls.last().1) {
            Some(_) => so_far.push(Seq::empty()),
            None => if so_far.len() == 0 {
                so_far
            } else {
                so_far.drop_last().push(so_far.last() + took(state, polls.last().1))
            },
        }
    }
}

/// Each input can follow, and no write takes more bytes than it was given.
pub open spec fn is_run<R, X: ProtocolName, E>(
    start: SelectState<R, X>,
    polls: Seq<(R, SelectInput<E>)>,
) -> bool
    decreases polls.len(),
{
    polls.len() == 0 || {
        let state = before_last(start, polls);
        let input = polls.last().1;
        &&& is_run(start, polls.drop_last())
        &&& state.accepts(input)
        &&& state matches SelectState::Responding { message, sending, .. } ==> (
        input matches SelectInput::Written(Ok(Async::Ready(n)))
            ==> n <= crate::multistream_select::laws::unsent(sending, message).len())
    }
}

/// The answer to a question, as it is written.
pub open spec fn reply(names: Seq<Seq<u8>>, question: DialerMessage) -> Seq<u8> {
    listener::payload(crate::multistream_select::listener_select::answer(names, question).0)
}

/// The protocol that is agreed on with the answer to a question, by its place.
pub open spec fn agreed(names: Seq<Seq<u8>>, question: DialerMessage) -> Option<nat> {
    crate::multistream_select::listener_select::answer(names, question).1
}

/// The question names no protocol that there is, and the answer is a refusal, or the list of the
/// protocols if that was asked for.
pub open spec fn is_refused(
    names: Seq<Seq<u8>>,
    question: DialerMessage,
    answer: Seq<u8>,
) -> bool {
    match question {
        DialerMessage::Request(name) => !names.contains(name) && answer == seq!['n' as u8, 'a' as u8],
        DialerMessage::List => answer == listener::list_payload(names),
    }
}

/// Nothing has been asked yet.
pub open spec fn begins<R, X>(state: SelectState<R, X>, protocols: Seq<X>) -> bool {
    match state {
        SelectState::AwaitListener { protocols: ps, .. } => ps == protocols,
        SelectState::Incoming { protocols: ps, .. } => ps == protocols,
        _ => false,
    }
}

/// No question but the last leads to an agreement.
pub open spec fn only_last_agrees(names: Seq<Seq<u8>>, questions: Seq<DialerMessage>) -> bool {
    forall|i: int| 0 <= i < questions.len() - 1 ==> agreed(names, #[trigger] questions[i]) is None
}

/// The questions have been answered, each once and in order.
pub open spec fn is_answered(
    names: Seq<Seq<u8>>,
    questions: Seq<DialerMessage>,
    answers: Seq<Seq<u8>>,
) -> bool {
    &&& answers.len() == questions.len()
    &&& forall|i: int|
        0 <= i < questions.len() ==> #[trigger] answers[i] == reply(names, questions[i])
}

/// The questions but the last have been answered, and of the last answer the rest is left.
pub open spec fn is_being_answered(
    names: Seq<Seq<u8>>,
    questions: Seq<DialerMessage>,
    answers: Seq<Seq<u8>>,
    rest: Seq<u8>,
) -> bool {
    &&& answers.len() == questions.len() > 0
    &&& forall|i: int|
        0 <= i < questions.len() - 1 ==> #[trigger] answers[i] == reply(names, questions[i])
    &&& answers.last() + rest == reply(names, questions.last())
}

/// How the state and what was asked and told so far go together: the protocols stay what they
/// were, every question is answered before the next one is read, and nothing is asked any more
/// once a protocol was agreed on.
pub open spec fn is_kept<R, X: ProtocolName>(
    state: SelectState<R, X>,
    protocols: Seq<X>,
    questions: Seq<DialerMessage>,
    answers: Seq<Seq<u8>>,
) -> bool {
    let names = crate::protocol_name::names(protocols);
    match state {
        SelectState::AwaitListener { protocols: ps, .. } => {
            &&& ps == protocols
            &&& questions.len() == 0
            &&& answers.len() == 0
        },
        SelectState::Incoming { protocols: ps, .. } => {
            &&& ps == protocols
            &&& is_answered(names, questions, answers)
            &&& forall|i: int|
                0 <= i < questions.len() ==> agreed(names, #[trigger] questions[i]) is None
        },
        SelectState::Responding { protocols: ps, message, sending, outcome, .. } => {
            &&& ps == protocols
            &&& questions.len() > 0
            &&& message == crate::multistream_select::listener_select::answer(
                names,
                questions.last(),
            ).0
            &&& outcome == agreed(names, questions.last())
            &&& !(sending is Start)
            &&& listener::fits(sending, message)
            &&& listener::sendable(message)
            &&& is_being_answered(
                names,
                questions,
                answers,
                crate::multistream_select::laws::unsent(sending, message),
            )
            &&& only_last_agrees(names, questions)
        },
        SelectState::Outgoing { protocols: ps, outcome, .. } => {
            &&& ps == protocols
            &&& questions.len() > 0
            &&& outcome == agreed(names, questions.last())
            &&& is_answered(names, questions, answers)
            &&& only_last_agrees(names, questions)
        },
        SelectState::Undefined => true,
    }
}

proof fn lemma_step_keeps<R, X: ProtocolName, E>(
    state: SelectState<R, X>,
    input: SelectInput<E>,
    protocols: Seq<X>,
    questions: Seq<DialerMessage>,
    answers: Seq<Seq<u8>>,
)
    requires
        is_kept(state, protocols, questions, answers),
        state.accepts(input),
        state matches SelectState::Responding { message, sending, .. } ==> (
        input matches SelectInput::Written(Ok(Async::Ready(n)))
            ==> n <= crate::multistream_select::laws::unsent(sending, message).len()),
    ensures
        ({
            let (qs, answers) = match question(state, input) {
                Some(message) => (questions.push(message), answers.push(Seq::empty())),
                None => (
                    questions,
                    if answers.len() == 0 {
                        answers
                    } else {
                        answers.drop_last().push(answers.last() + took(state, input))
                    },
                ),
            };
            is_kept(state.step(input).0, protocols, qs, answers)
        }),
{
    let names = crate::protocol_name::names(protocols);
    match question(state, input) {
        Some(message) => {
            let reply = crate::multistream_select::listener_select::answer(names, message).0;
            let (next, _) = state.step(input);
            if let SelectState::Responding { sending, .. } = next {
                let unsent = crate::multistream_select::laws::unsent(sending, reply);
                assert(unsent =~= listener::payload(reply));
                assert(Seq::<u8>::empty() + unsent =~= unsent);
            }
        },
        None => {
            let same = answers.drop_last().push(answers.last() + took(state, input));
            if answers.len() > 0 && took(state, input).len() == 0 {
                assert(answers.last() + took(state, input) =~= answers.last());
                assert(same =~= answers);
            }
            if let SelectState::Responding { message, sending, .. } = state {
                let all = crate::multistream_select::laws::unsent(sending, message);
                if let SelectInput::Written(Ok(Async::Ready(n))) = input {
                    let next = listener::send_step::<(), E>(
                        sending,
                        message,
                        (),
                        SendInput::Written(Ok(Async::Ready(n))),
                    ).0;
                    let last = answers.last();
                    if next is Start {
                        assert(all.take(n as int) =~= all);
                    } else {
                        let rest = crate::multistream_select::laws::unsent(next, message);
                        assert(rest =~= all.skip(n as int));
                        assert(last + all.take(n as int) + rest =~= last + all);
                    }
                }
            }
        },
    }
}

/// Over any run of polls, the state goes together with what was asked and told.
pub proof fn law_questions_are_answered_in_order<R, X: ProtocolName, E>(
    start: SelectState<R, X>,
    protocols: Seq<X>,
    polls: Seq<(R, SelectInput<E>)>,
)
    requires
        begins(start, protocols),
        is_run(start, polls),
    ensures
        is_kept(after(start, polls), protocols, asked(start, polls), told(start, polls)),
    decreases polls.len(),
{
    if polls.len() > 0 {
        let so_far = polls.drop_last();
        law_questions_are_answered_in_order(start, protocols, so_far);
        lemma_step_keeps(
            before_last(start, polls),
            polls.last().1,
            protocols,
            asked(start, so_far),
            told(start, so_far),
        );
    }
}

/// Over any run of polls that ends with a protocol, the last name that the dialer asked for wins:
/// it is the name of the protocol, which is the first with that name. Each question was answered
/// once and in order: the last with the name, the others, which name no protocol that there is,
/// with a refusal or with the list of the protocols. The connection and the protocols are handed
/// back. If the dialer ends the connection, no question named a protocol that there is.
pub proof fn law_last_name_wins<R, X: ProtocolName, E>(
    start: SelectState<R, X>,
    protocols: Seq<X>,
    polls: Seq<(R, SelectInput<E>)>,
)
    requires
        begins(start, protocols),
        is_run(start, polls),
        polls.len() > 0,
    ensures
        ({
            let names = crate::protocol_name::names(protocols);
            let questions = asked(start, polls);
            let answers = told(start, polls);
            match before_last(start, polls).step(polls.last().1).1 {
                SelectStep::Return(Ok(Async::Ready((i, inner, ps)))) => {
                    &&& inner == polls.last().0
                    &&& ps == protocols
                    &&& questions.len() > 0
                    &&& questions.last() matches DialerMessage::Request(name)
                    &&& i < names.len()
                    &&& names[i as int] == name
                    &&& !names.take(i as int).contains(name)
                    &&& answers.len() == questions.len()
                    &&& answers.last() == name
                    &&& forall|j: int|
                        0 <= j < questions.len() - 1 ==> is_refused(
                            names,
                            #[trigger] questions[j],
                            answers[j],
                        )
                },
                SelectStep::Return(Err(ProtocolChoiceError::NoProtocolFound)) => {
                    &&& answers.len() == questions.len()
                    &&& forall|j: int|
                        0 <= j < questions.len() ==> is_refused(
                            names,
                            #[trigger] questions[j],
                            answers[j],
                        )
                },
                _ => true,
            }
        }),
{
    let names = crate::protocol_name::names(protocols);
    let so_far = polls.drop_last();
    let input = polls.last().1;
    let state = before_last(start, polls);
    let questions = asked(start, so_far);
    let answers = told(start, so_far);
    law_questions_are_answered_in_order(start, protocols, so_far);
    match state.step(input).1 {
        SelectStep::Return(Ok(Async::Ready((i, _, _)))) => {
            assert(answers.last() + took(state, input) =~= answers.last());
            assert(told(start, polls) =~= answers);
            if let DialerMessage::Request(name) = questions.last() {
                crate::multistream_select::laws::law_first_named(names, name);
                if names.take(i as int).contains(name) {
                    let j = names.take(i as int).index_of(name);
                    assert(names[j] == name);
                }
            }
        },
        SelectStep::Return(Err(ProtocolChoiceError::NoProtocolFound)) => {
            if answers.len() > 0 {
                assert(answers.last() + took(state, input) =~= answers.last());
                assert(told(start, polls) =~= answers);
            }
        },
        _ => {},
    }
    assert forall|j: int|
        0 <= j < questions.len() && agreed(names, questions[j]) is None && answers[j] == reply(
            names,
            questions[j],
        ) implies is_refused(names, #[trigger] questions[j], answers[j]) by {
        if let DialerMessage::Request(name) = questions[j] {
            crate::multistream_select::laws::law_first_named(names, name);
        }
    }
}

} // verus!
