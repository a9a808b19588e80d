//! What holds of the budgets of peers and of the events as a whole.

use crate::address::PeerId;
use crate::async_value::Async;
use crate::request_response::dynamic::{
    DynamicState, Event, InnerEvent, PollAction, PollInput, RequestResponseEvent,
    RequestResponseMessage,
};
use crate::request_response::peer_info::{PeerState, RequestId, ResponseState};
use crate::swarm::NetworkBehaviourAction;
use vstd::prelude::*;

verus! {

/// A peer of which nothing is known may be sent one request and may send as many as its limit, all
/// but one of which it has not been told of.
pub proof fn law_new_peer(limit: u16)
    requires
        limit > 0,
    ensures
        ({
            let peer = PeerState::fresh(limit);
            &&& peer.wf()
            &&& peer.max_recv == limit
            &&& peer.rem_send == 1
            &&& peer.rem_recv == limit
            &&& peer.add_recv + 1 == limit
            &&& forall|rid: RequestId| !peer.outbound.contains(rid)
            &&& forall|rid: RequestId| !peer.inbound.contains_key(rid)
        }),
{
}

/// What concerns the requests of the peer is the same.
pub open spec fn same_inbound(a: PeerState, b: PeerState) -> bool {
    a.max_recv == b.max_recv && a.rem_recv == b.rem_recv && a.add_recv == b.add_recv && a.inbound
        == b.inbound
}

/// What concerns the requests to the peer is the same.
pub open spec fn same_outbound(a: PeerState, b: PeerState) -> bool {
    a.rem_send == b.rem_send && a.outbound == b.outbound
}

/// Requests to a peer use up what can be sent, one by one, and what comes back with the end of a
/// request adds to what is left: nothing that was granted is lost.
pub proof fn law_send_budget_is_conserved(peer: PeerState, rid: RequestId, credit: u16)
    requires
        peer.wf(),
    ensures
        peer.rem_send > 0 ==> peer.charged().rem_send + 1 == peer.rem_send && peer.charged().outbound
            == peer.outbound,
        peer.sent(rid).rem_send == peer.rem_send,
        forall|q: RequestId| #[trigger]
            peer.sent(rid).outbound.contains(q) <==> q == rid || peer.outbound.contains(q),
        peer.rem_send + credit <= u16::MAX ==> peer.credited(rid, credit).rem_send == peer.rem_send
            + credit,
        forall|q: RequestId| #[trigger]
            peer.credited(rid, credit).outbound.contains(q) <==> q != rid && peer.outbound.contains(
                q,
            ),
        same_inbound(peer.charged(), peer),
        same_inbound(peer.sent(rid), peer),
        same_inbound(peer.credited(rid, credit), peer),
{
}

/// A request of a peer uses up one of those that it may send as long as it is under way: with a
/// response on its way, it makes no difference, and at the end of that the place is free again.
/// Requests that are not concerned stay as they are.
pub proof fn law_receive_budget_is_conserved(peer: PeerState, rid: RequestId)
    requires
        peer.wf(),
    ensures
        ({
            let all = peer.rem_recv + peer.inbound.dom().len();
            let (a, b) = (peer.received(rid), peer.answering(rid));
            let (c, d) = (peer.answered(rid), peer.unanswered(rid));
            &&& peer.rem_recv > 0 && !peer.inbound.contains_key(rid) ==> a.rem_recv + 1
                == peer.rem_recv && a.rem_recv + a.inbound.dom().len() == all && a.inbound[rid]
                is Pending && a.inbound.contains_key(rid)
            &&& peer.inbound.contains_key(rid) ==> b.rem_recv + b.inbound.dom().len() == all
                && b.rem_recv == peer.rem_recv && b.inbound[rid] is Sending
            &&& peer.inbound.contains_key(rid) && peer.inbound[rid] is Sending ==> {
                &&& c.rem_recv == peer.rem_recv + 1
                &&& c.rem_recv + c.inbound.dom().len() == all
                &&& d.rem_recv == peer.rem_recv + 1
                &&& d.rem_recv + d.inbound.dom().len() == all
            }
            &&& !(peer.inbound.contains_key(rid) && peer.inbound[rid] is Sending) ==> c.rem_recv
                == peer.rem_recv && d.rem_recv == peer.rem_recv
            &&& !c.inbound.contains_key(rid) && !d.inbound.contains_key(rid)
            &&& forall|q: RequestId|
                q != rid ==> (#[trigger] peer.inbound.contains_key(q) <==> a.inbound.contains_key(q)) && (
                peer.inbound.contains_key(q) <==> b.inbound.contains_key(q)) && (
                peer.inbound.contains_key(q) <==> c.inbound.contains_key(q)) && (
                peer.inbound.contains_key(q) <==> d.inbound.contains_key(q))
            &&& forall|q: RequestId|
                q != rid && peer.inbound.contains_key(q) ==> #[trigger] peer.inbound[q]
                    == a.inbound[q] && peer.inbound[q] == b.inbound[q] && peer.inbound[q]
                    == c.inbound[q] && peer.inbound[q] == d.inbound[q]
            &&& same_outbound(a, peer) && same_outbound(b, peer) && same_outbound(c, peer)
                && same_outbound(d, peer)
            &&& a.max_recv == peer.max_recv && b.max_recv == peer.max_recv && c.max_recv
                == peer.max_recv && d.max_recv == peer.max_recv
        }),
{
    if peer.inbound.contains_key(rid) {
        crate::request_response::peer_info::law_budget_is_below_limit(peer, rid);
        assert(peer.answering(rid).inbound.dom() =~= peer.inbound.dom());
    }
}

/// Credit that a peer has not been told of goes with the next response, all of it, and is due
/// again only if that response could not be sent.
pub proof fn law_credit_is_granted_once(peer: PeerState, rid: RequestId)
    requires
        peer.wf(),
        peer.inbound.contains_key(rid),
    ensures
        peer.answering(rid).add_recv == 0,
        peer.answering(rid).inbound[rid] == ResponseState::Sending(peer.add_recv),
        peer.answered(rid).add_recv == peer.add_recv,
        peer.unanswered(rid).add_recv == peer.add_recv
            + crate::request_response::peer_info::credit_in(peer.inbound[rid]),
        peer.received(rid).add_recv == peer.add_recv,
{
    crate::request_response::peer_info::lemma_credit_split(peer.inbound, rid);
}

/// A greater limit lets as many more requests come as it is greater, and the peer is to be told of
/// so many.
pub proof fn law_greater_limit_admits_more(peer: PeerState, limit: u16)
    requires
        peer.wf(),
        limit > peer.max_recv,
    ensures
        ({
            let raised = peer.raised(limit);
            &&& raised.max_recv == limit
            &&& raised.rem_recv - peer.rem_recv == limit - peer.max_recv
            &&& raised.add_recv == limit - peer.max_recv
            &&& raised.inbound == peer.inbound
            &&& same_outbound(raised, peer)
        }),
{
}

/// Nothing known of a peer but this one changes, nor any limit, and no event that waits is lost.
pub open spec fn only_concerns<E>(a: DynamicState<E>, b: DynamicState<E>, p: Seq<u8>) -> bool {
    &&& a.default_limit == b.default_limit
    &&& a.overrides == b.overrides
    &&& a.events.is_prefix_of(b.events)
    &&& forall|q: Seq<u8>|
        q != p ==> (#[trigger] a.peers.contains_key(q) <==> b.peers.contains_key(q)) && (
        a.peers.contains_key(q) ==> a.peers[q] == b.peers[q])
}

/// A new peer gets its own limit if there is one, and else the limit of all.
pub proof fn law_limit_of_a_new_peer<E>(s: DynamicState<E>, p: Seq<u8>)
    requires
        s.wf(),
        !s.peers.contains_key(p),
    ensures
        s.peer(p).max_recv == (if s.overrides.contains_key(p) {
            s.overrides[p]
        } else {
            s.default_limit
        }),
        s.peer(p).rem_send == 1,
        s.peer(p).wf(),
{
}

/// A limit that is raised is the limit of the peer from now on; one that is not greater than what
/// a known peer has changes nothing. No other peer is concerned.
pub proof fn law_raised_limit_holds<E>(s: DynamicState<E>, p: Seq<u8>, limit: u16)
    requires
        s.wf(),
        limit > 0,
    ensures
        ({
            let t = s.limit_raised(p, limit);
            &&& t.events == s.events
            &&& t.default_limit == s.default_limit
            &&& forall|q: Seq<u8>|
                q != p ==> (#[trigger] t.peers.contains_key(q) <==> s.peers.contains_key(q)) && (
                s.peers.contains_key(q) ==> t.peers[q] == s.peers[q])
            &&& forall|q: Seq<u8>|
                q != p ==> (#[trigger] t.overrides.contains_key(q) <==> s.overrides.contains_key(q))
                    && (s.overrides.contains_key(q) ==> t.overrides[q] == s.overrides[q])
            &&& s.peers.contains_key(p) <==> t.peers.contains_key(p)
            &&& if s.peers.contains_key(p) && limit <= s.peers[p].max_recv {
                t == s
            } else {
                &&& t.limit_of(p) == limit
                &&& t.peer(p).max_recv == limit
                &&& s.peers.contains_key(p) ==> t.peers[p].rem_recv - s.peers[p].rem_recv == limit
                    - s.peers[p].max_recv
            }
        }),
{
}

/// The peer that an event of the wrapped behaviour is about.
pub open spec fn peer_of<Q, R, C, O, I>(event: InnerEvent<Q, R, C, O, I>) -> PeerId {
    match event {
        RequestResponseEvent::Message { peer, .. } => peer,
        RequestResponseEvent::OutboundFailure { peer, .. } => peer,
        RequestResponseEvent::InboundFailure { peer, .. } => peer,
    }
}

/// The credit that an event brings for requests to the peer `p`: what a response to an awaited
/// request grants, and one for an awaited request that has failed.
pub open spec fn credit_of<Q, R, C, O, I>(
    s: DynamicState<RequestResponseEvent<Q, R, C, O, I>>,
    event: InnerEvent<Q, R, C, O, I>,
    p: Seq<u8>,
) -> nat {
    match event {
        RequestResponseEvent::Message {
            peer,
            message: RequestResponseMessage::Response { request_id, response },
        } => if peer@ == p && s.peers.contains_key(p) && s.peers[p].outbound.contains(request_id) {
            response.header.credit as nat
        } else {
            0
        },
        RequestResponseEvent::OutboundFailure { peer, request_id, .. } => if peer@ == p
            && s.peers.contains_key(p) && s.peers[p].outbound.contains(request_id) {
            1
        } else {
            0
        },
        _ => 0,
    }
}

/// An event is about its peer alone, and whatever it is, the requests that can be sent to that
/// peer grow by the credit that it brings, no more and no less.
pub proof fn law_event_brings_its_credit<Q, R, C, O, I>(
    s: DynamicState<RequestResponseEvent<Q, R, C, O, I>>,
    event: InnerEvent<Q, R, C, O, I>,
    p: Seq<u8>,
)
    requires
        s.wf(),
        s.admits(event),
    ensures
        s.noted(event).peer(p).rem_send == s.peer(p).rem_send + credit_of(s, event, p),
        only_concerns(s, s.noted(event), peer_of(event)@),
        s.noted(event).events.len() <= s.events.len() + 1,
{
}

/// An awaited request is over once its response or its failure has come, and only then.
pub proof fn law_awaited_requests<Q, R, C, O, I>(
    s: DynamicState<RequestResponseEvent<Q, R, C, O, I>>,
    event: InnerEvent<Q, R, C, O, I>,
    p: Seq<u8>,
    rid: RequestId,
)
    requires
        s.wf(),
        s.admits(event),
        s.peers.contains_key(p),
    ensures
        s.noted(event).peers.contains_key(p),
        s.noted(event).peers[p].outbound.contains(rid) <==> {
            &&& s.peers[p].outbound.contains(rid)
            &&& !(event matches RequestResponseEvent::OutboundFailure { peer, request_id, .. }
                && peer@ == p && request_id == rid)
            &&& !(event matches RequestResponseEvent::Message {
                peer,
                message: RequestResponseMessage::Response { request_id, .. },
            } && peer@ == p && request_id == rid)
        },
{
}

/// A request that a peer may send is noted and handed out, and no event waits for it; one of a
/// peer of which nothing is known is handed out too.
pub proof fn law_admitted_request_is_handed_out<A, Q, R, C, O, I>(
    s: DynamicState<RequestResponseEvent<Q, R, C, O, I>>,
    peer: PeerId,
    rid: RequestId,
    request: crate::request_response::header::Request<Q>,
    channel: C,
)
    requires
        s.wf(),
        s.peers.contains_key(peer@) ==> s.peers[peer@].rem_recv > 0,
    ensures
        ({
            let event = InnerEvent::<Q, R, C, O, I>::Message {
                peer,
                message: RequestResponseMessage::Request { request_id: rid, request, channel },
            };
            let (t, action) = s.step(
                PollInput::<A, InnerEvent<Q, R, C, O, I>>::Polled(
                    Async::Ready(NetworkBehaviourAction::GenerateEvent(event)),
                ),
            );
            &&& action == PollAction::<A, Event<RequestResponseEvent<Q, R, C, O, I>>>::Return(
                Async::Ready(
                    NetworkBehaviourAction::GenerateEvent(
                        Event::Event(
                            RequestResponseEvent::Message {
                                peer,
                                message: RequestResponseMessage::Request {
                                    request_id: rid,
                                    request: request.body,
                                    channel,
                                },
                            },
                        ),
                    ),
                ),
            )
            &&& t.events == s.events
            &&& s.peers.contains_key(peer@) ==> {
                &&& t.peers[peer@].rem_recv + 1 == s.peers[peer@].rem_recv
                &&& t.peers[peer@].inbound.contains_key(rid)
                &&& t.peers[peer@].inbound[rid] is Pending
            }
            &&& !s.peers.contains_key(peer@) ==> t == s
        }),
{
}

/// Responses and failures are handed out as they came, without their headers.
pub proof fn law_answers_are_handed_out<A, Q, R, C, O, I>(
    s: DynamicState<RequestResponseEvent<Q, R, C, O, I>>,
    event: InnerEvent<Q, R, C, O, I>,
)
    requires
        s.wf(),
        s.admits(event),
        !(event matches RequestResponseEvent::Message {
            message: RequestResponseMessage::Request { .. },
            ..
        }),
    ensures
        s.step(
            PollInput::<A, InnerEvent<Q, R, C, O, I>>::Polled(
                Async::Ready(NetworkBehaviourAction::GenerateEvent(event)),
            ),
        ).1 == PollAction::<A, Event<RequestResponseEvent<Q, R, C, O, I>>>::Return(
            Async::Ready(
                NetworkBehaviourAction::GenerateEvent(
                    Event::Event(
                        match event {
                            RequestResponseEvent::Message {
                                peer,
                                message: RequestResponseMessage::Response { request_id, response },
                            } => RequestResponseEvent::Message {
                                peer,
                                message: RequestResponseMessage::Response {
                                    request_id,
                                    response: response.body,
                                },
                            },
                            RequestResponseEvent::OutboundFailure { peer, request_id, error } =>
                                RequestResponseEvent::OutboundFailure { peer, request_id, error },
                            RequestResponseEvent::InboundFailure { peer, request_id, error } =>
                                RequestResponseEvent::InboundFailure { peer, request_id, error },
                            _ => arbitrary(),
                        },
                    ),
                ),
            ),
        ),
{
}

/// If nothing waits, the wrapped behaviour is asked; what it has to say that is no event of its
/// own is handed on, and so is that it has nothing to say. None of this changes anything.
pub proof fn law_the_rest_is_handed_on<A, Q, R, C, O, I>(
    s: DynamicState<RequestResponseEvent<Q, R, C, O, I>>,
    a: A,
)
    ensures
        s.events.len() == 0 ==> s.step(PollInput::<A, InnerEvent<Q, R, C, O, I>>::Start) == (
            s,
            PollAction::<A, Event<RequestResponseEvent<Q, R, C, O, I>>>::PollBehaviour,
        ),
        s.step(PollInput::<A, InnerEvent<Q, R, C, O, I>>::Polled(Async::NotReady)) == (
            s,
            PollAction::<A, Event<RequestResponseEvent<Q, R, C, O, I>>>::Return(Async::NotReady),
        ),
        s.step(
            PollInput::<A, InnerEvent<Q, R, C, O, I>>::Polled(
                Async::Ready(NetworkBehaviourAction::Other(a)),
            ),
        ) == (
            s,
            PollAction::<A, Event<RequestResponseEvent<Q, R, C, O, I>>>::Return(
                Async::Ready(NetworkBehaviourAction::Other(a)),
            ),
        ),
{
}

/// A response that could not be sent frees the place of its request, and the credit that it carried
/// is due again.
pub proof fn law_failed_response_frees_its_place<Q, R, C, O, I>(
    s: DynamicState<RequestResponseEvent<Q, R, C, O, I>>,
    peer: PeerId,
    rid: RequestId,
    error: I,
    credit: u16,
)
    requires
        s.wf(),
        s.peers.contains_key(peer@),
        s.peers[peer@].inbound.contains_key(rid),
        s.peers[peer@].inbound[rid] == ResponseState::Sending(credit),
    ensures
        ({
            let event = InnerEvent::<Q, R, C, O, I>::InboundFailure {
                peer,
                request_id: rid,
                error,
            };
            let t = s.noted(event);
            &&& t.peers[peer@].rem_recv == s.peers[peer@].rem_recv + 1
            &&& t.peers[peer@].add_recv == s.peers[peer@].add_recv + credit
            &&& !t.peers[peer@].inbound.contains_key(rid)
            &&& t.events == s.events
        }),
{
    assert(s.peers[peer@].wf());
    crate::request_response::peer_info::law_budget_is_below_limit(s.peers[peer@], rid);
    crate::request_response::peer_info::lemma_credit_split(s.peers[peer@].inbound, rid);
}

/// What is done with a [`Dynamic`](crate::request_response::dynamic::Dynamic).
pub enum Doing<Q, R, C, O, I> {
    /// A request is to be sent to the peer; if it can be sent, it gets the identifier.
    Request(Seq<u8>, RequestId),
    /// The wrapped behaviour tells something.
    Told(InnerEvent<Q, R, C, O, I>),
    /// The peer is connected.
    Connected(Seq<u8>),
    /// The peer's limit is raised.
    Raised(Seq<u8>, u16),
}

/// The state after it.
pub open spec fn done<Q, R, C, O, I>(
    s: DynamicState<RequestResponseEvent<Q, R, C, O, I>>,
    doing: Doing<Q, R, C, O, I>,
) -> DynamicState<RequestResponseEvent<Q, R, C, O, I>> {
    match doing {
        Doing::Request(p, rid) => if s.peer(p).rem_send == 0 {
            s.with_peer(p, s.peer(p))
        } else {
            s.with_peer(p, s.peer(p).charged().sent(rid))
        },
        Doing::Told(event) => s.noted(event),
        Doing::Connected(p) => s.with_peer(p, s.peer(p)),
        Doing::Raised(p, limit) => s.limit_raised(p, limit),
    }
}

/// The state after all of it.
pub open spec fn all_done<Q, R, C, O, I>(
    s: DynamicState<RequestResponseEvent<Q, R, C, O, I>>,
    doings: Seq<Doing<Q, R, C, O, I>>,
) -> DynamicState<RequestResponseEvent<Q, R, C, O, I>>
    decreases doings.len(),
{
    if doings.len() == 0 {
        s
    } else {
        done(all_done(s, doings.drop_last()), doings.last())
    }
}

/// All limits are positive, and all credit can be counted.
pub open spec fn can_be_done<Q, R, C, O, I>(
    s: DynamicState<RequestResponseEvent<Q, R, C, O, I>>,
    doings: Seq<Doing<Q, R, C, O, I>>,
) -> bool
    decreases doings.len(),
{
    doings.len() == 0 || (can_be_done(s, doings.drop_last()) && match doings.last() {
        Doing::Told(event) => all_done(s, doings.drop_last()).admits(event),
        Doing::Raised(_, limit) => limit > 0,
        _ => true,
    })
}

/// How many requests have been sent to the peer.
pub open spec fn sent_to<Q, R, C, O, I>(
    s: DynamicState<RequestResponseEvent<Q, R, C, O, I>>,
    doings: Seq<Doing<Q, R, C, O, I>>,
    p: Seq<u8>,
) -> nat
    decreases doings.len(),
{
    if doings.len() == 0 {
        0
    } else {
        sent_to(s, doings.drop_last(), p) + match doings.last() {
            Doing::Request(q, _) => if q == p && all_done(s, doings.drop_last()).peer(p).rem_send
                > 0 {
                1nat
            } else {
                0
            },
            _ => 0,
        }
    }
}

/// All credit that has come for requests to the peer.
pub open spec fn credit_from<Q, R, C, O, I>(
    s: DynamicState<RequestResponseEvent<Q, R, C, O, I>>,
    doings: Seq<Doing<Q, R, C, O, I>>,
    p: Seq<u8>,
) -> nat
    decreases doings.len(),
{
    if doings.len() == 0 {
        0
    } else {
        credit_from(s, doings.drop_last(), p) + match doings.last() {
            Doing::Told(event) => credit_of(all_done(s, doings.drop_last()), event, p),
            _ => 0,
        }
    }
}

proof fn lemma_done_keeps<Q, R, C, O, I>(
    s: DynamicState<RequestResponseEvent<Q, R, C, O, I>>,
    doing: Doing<Q, R, C, O, I>,
)
    requires
        s.wf(),
        doing matches Doing::Told(event) ==> s.admits(event),
        doing matches Doing::Raised(_, limit) ==> limit > 0,
    ensures
        done(s, doing).wf(),
{
    let t = done(s, doing);
    assert forall|p: Seq<u8>| #[trigger] t.peers.contains_key(p) implies t.peers[p].wf() by {
        if s.peers.contains_key(p) {
            assert(s.peers[p].wf());
        }
        match doing {
            Doing::Told(event) => {
                if p == peer_of(event)@ && s.peers.contains_key(p) {
                    let peer = s.peers[p];
                    match event {
                        RequestResponseEvent::Message {
                            message: RequestResponseMessage::Request { request_id, .. },
                            ..
                        } => {
                            if peer.rem_recv > 0 {
                                crate::request_response::peer_info::lemma_credit_change(
                                    peer.inbound,
                                    request_id,
                                    ResponseState::Pending,
                                );
                            }
                        },
                        RequestResponseEvent::InboundFailure { request_id, .. } => {
                            crate::request_response::peer_info::lemma_credit_change(
                                peer.inbound,
                                request_id,
                                ResponseState::Pending,
                            );
                        },
                        _ => {},
                    }
                }
            },
            _ => {},
        }
    }
}

/// Over any run, the requests that can still be sent to a peer and those that have been sent to it
/// make up what could be sent at first and all credit that has come: what a peer has granted is
/// never lost and never used twice.
pub proof fn law_granted_requests_can_be_sent<Q, R, C, O, I>(
    s: DynamicState<RequestResponseEvent<Q, R, C, O, I>>,
    doings: Seq<Doing<Q, R, C, O, I>>,
    p: Seq<u8>,
)
    requires
        s.wf(),
        can_be_done(s, doings),
    ensures
        all_done(s, doings).wf(),
        all_done(s, doings).peer(p).rem_send + sent_to(s, doings, p) == s.peer(p).rem_send
            + credit_from(s, doings, p),
        !s.peers.contains_key(p) ==> all_done(s, doings).peer(p).rem_send + sent_to(s, doings, p)
            == 1 + credit_from(s, doings, p),
    decreases doings.len(),
{
    if doings.len() > 0 {
        let before = all_done(s, doings.drop_last());
        law_granted_requests_can_be_sent(s, doings.drop_last(), p);
        lemma_done_keeps(before, doings.last());
        match doings.last() {
            Doing::Told(event) => {
                law_event_brings_its_credit(before, event, p);
            },
            _ => {},
        }
    }
}

/// The credit of an event can be counted exactly if what can be sent to its peer does not exceed the
/// largest number with it.
pub proof fn law_credit_that_can_be_counted<Q, R, C, O, I>(
    s: DynamicState<RequestResponseEvent<Q, R, C, O, I>>,
    event: InnerEvent<Q, R, C, O, I>,
)
    ensures
        ({
            let p = peer_of(event)@;
            s.admits(event) <==> credit_of(s, event, p) == 0 || s.peer(p).rem_send + credit_of(
                s,
                event,
                p,
            ) <= u16::MAX
        }),
{
}

} // verus!
