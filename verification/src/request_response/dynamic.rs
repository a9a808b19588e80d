//! Requests and responses with a limit on the requests of each peer.
//!
//! The two sides need not agree on the limits beforehand. Each response tells the peer how many
//! more requests it may send.

use crate::address::PeerId;
use crate::async_value::Async;
use crate::request_response::header::{Request, Response};
use crate::request_response::peer_info::{Limit, PeerInfo, PeerState, RequestId};
use crate::request_response::peer_map::PeerMap;
use crate::swarm::NetworkBehaviourAction;
use std::collections::VecDeque;
use vstd::prelude::*;

verus! {

/// An empty queue of a greater capacity is shrunk.
pub const EMPTY_QUEUE_SHRINK_THRESHOLD: usize = 100;

/// A message that has come in.
pub enum RequestResponseMessage<Q, R, C> {
    /// A request.
    Request {
        /// The identifier of the request.
        request_id: RequestId,
        /// The request.
        request: Q,
        /// Where the response goes.
        channel: C,
    },
    /// A response.
    Response {
        /// The request that is answered.
        request_id: RequestId,
        /// The response.
        response: R,
    },
}

/// An event of a behaviour that sends and answers requests.
#[allow(inconsistent_fields)]
pub enum RequestResponseEvent<Q, R, C, O, I> {
    /// A message has come in.
    Message {
        /// The peer that sent it.
        peer: PeerId,
        /// The message.
        message: RequestResponseMessage<Q, R, C>,
    },
    /// An outbound request has failed.
    OutboundFailure {
        /// The peer that the request was for.
        peer: PeerId,
        /// The request.
        request_id: RequestId,
        /// Why.
        error: O,
    },
    /// An inbound request could not be answered.
    InboundFailure {
        /// The peer that the request came from.
        peer: PeerId,
        /// The request.
        request_id: RequestId,
        /// Why.
        error: I,
    },
}

/// An event of [`Dynamic`].
pub enum Event<E> {
    /// An event of the wrapped behaviour.
    Event(E),
    /// More requests can be sent to the peer.
    ResumeSending(PeerId),
    /// The peer has sent more requests than it may.
    TooManyInboundRequests(PeerId),
}

/// An event of the handler of a connection.
pub enum HandlerEvent<H> {
    /// The response to the request has gone out.
    ResponseSent(RequestId),
    /// Anything else.
    Other(H),
}

/// The way back to the peer that sent a request.
pub struct ResponseChannel<S> {
    /// The request.
    pub request_id: RequestId,
    /// The peer.
    pub peer: PeerId,
    /// Takes the response.
    pub sender: S,
}

/// What [`Dynamic::poll`] is told.
pub enum PollInput<A, E> {
    /// Somebody wants the next event.
    Start,
    /// The wrapped behaviour was polled.
    Polled(Async<NetworkBehaviourAction<A, E>>),
}

/// What [`Dynamic::poll`] wants to be done.
pub enum PollAction<A, E> {
    /// Poll the wrapped behaviour.
    PollBehaviour,
    /// Hand this to whoever wanted the next event.
    Return(Async<NetworkBehaviourAction<A, E>>),
}

/// An event of the wrapped behaviour as it comes, with headers.
pub type InnerEvent<Q, R, C, O, I> = RequestResponseEvent<Request<Q>, Response<R>, C, O, I>;

/// The event without the headers.
pub open spec fn without_headers<Q, R, C, O, I>(
    event: InnerEvent<Q, R, C, O, I>,
) -> RequestResponseEvent<Q, R, C, O, I> {
    match event {
        RequestResponseEvent::Message { peer, message } => RequestResponseEvent::Message {
            peer,
            message: match message {
                RequestResponseMessage::Request { request_id, request, channel } =>
                    RequestResponseMessage::Request { request_id, request: request.body, channel },
                RequestResponseMessage::Response { request_id, response } =>
                    RequestResponseMessage::Response { request_id, response: response.body },
            },
        },
        RequestResponseEvent::OutboundFailure { peer, request_id, error } =>
            RequestResponseEvent::OutboundFailure { peer, request_id, error },
        RequestResponseEvent::InboundFailure { peer, request_id, error } =>
            RequestResponseEvent::InboundFailure { peer, request_id, error },
    }
}

/// The state of [`Dynamic`].
#[verifier::ext_equal]
pub struct DynamicState<E> {
    /// What is known of each peer.
    pub peers: Map<Seq<u8>, PeerState>,
    /// The limit of new peers.
    pub default_limit: u16,
    /// The limit of single peers.
    pub overrides: Map<Seq<u8>, u16>,
    /// Events to be reported.
    pub events: Seq<Event<E>>,
}

impl<E> DynamicState<E> {
    /// All limits are positive and all peers are well-formed.
    pub open spec fn wf(self) -> bool {
        &&& self.default_limit > 0
        &&& forall|p: Seq<u8>| #[trigger]
            self.overrides.contains_key(p) ==> self.overrides[p] > 0
        &&& forall|p: Seq<u8>| #[trigger] self.peers.contains_key(p) ==> self.peers[p].wf()
    }

    /// The limit that a new peer gets.
    pub open spec fn limit_of(self, p: Seq<u8>) -> u16 {
        if self.overrides.contains_key(p) {
            self.overrides[p]
        } else {
            self.default_limit
        }
    }

    /// What is known of the peer.
    pub open spec fn peer(self, p: Seq<u8>) -> PeerState {
        if self.peers.contains_key(p) {
            self.peers[p]
        } else {
            PeerState::fresh(self.limit_of(p))
        }
    }

    /// Something else is known of the peer.
    pub open spec fn with_peer(
        self,
        p: Seq<u8>,
        peer: PeerState,
    ) -> Self {
        DynamicState { peers: self.peers.insert(p, peer), ..self }
    }

    /// An event is to be reported.
    pub open spec fn with_event(self, event: Event<E>) -> Self {
        DynamicState { events: self.events.push(event), ..self }
    }

    /// The receive limit of a peer goes up. A limit that is not greater changes nothing.
    pub open spec fn limit_raised(self, p: Seq<u8>, limit: u16) -> Self {
        if self.peers.contains_key(p) {
            if limit <= self.peers[p].max_recv {
                self
            } else {
                DynamicState {
                    peers: self.peers.insert(p, self.peers[p].raised(limit)),
                    overrides: self.overrides.insert(p, limit),
                    ..self
                }
            }
        } else {
            DynamicState { overrides: self.overrides.insert(p, limit), ..self }
        }
    }

    /// An outbound request is over and the peer grants `credit` more.
    pub open spec fn credited(self, peer: PeerId, rid: RequestId, credit: u16) -> Self {
        if self.peers.contains_key(peer@) && self.peers[peer@].outbound.contains(rid) {
            let s = self.with_peer(peer@, self.peers[peer@].credited(rid, credit));
            if self.peers[peer@].rem_send == 0 && credit > 0 {
                s.with_event(Event::ResumeSending(peer))
            } else {
                s
            }
        } else {
            self
        }
    }
}

impl<Q, R, C, O, I> DynamicState<RequestResponseEvent<Q, R, C, O, I>> {
    /// The event is a request of a peer that may send none.
    pub open spec fn exceeds(self, event: InnerEvent<Q, R, C, O, I>) -> bool {
        match event {
            RequestResponseEvent::Message {
                peer,
                message: RequestResponseMessage::Request { .. },
            } => self.peers.contains_key(peer@) && self.peers[peer@].rem_recv == 0,
            _ => false,
        }
    }

    /// The credit that comes with the event does not exceed what can be counted.
    pub open spec fn admits(self, event: InnerEvent<Q, R, C, O, I>) -> bool {
        match event {
            RequestResponseEvent::Message {
                peer,
                message: RequestResponseMessage::Response { request_id, response },
            } => self.peers.contains_key(peer@) && self.peers[peer@].outbound.contains(request_id)
                ==> self.peers[peer@].rem_send + response.header.credit <= u16::MAX,
            RequestResponseEvent::OutboundFailure { peer, request_id, .. } =>
                self.peers.contains_key(peer@) && self.peers[peer@].outbound.contains(request_id)
                    ==> self.peers[peer@].rem_send + 1 <= u16::MAX,
            _ => true,
        }
    }

    /// What an event of the wrapped behaviour changes.
    pub open spec fn noted(self, event: InnerEvent<Q, R, C, O, I>) -> Self {
        match event {
            RequestResponseEvent::Message { peer, message } => match message {
                RequestResponseMessage::Response { request_id, response } => self.credited(
                    peer,
                    request_id,
                    response.header.credit,
                ),
                RequestResponseMessage::Request { request_id, .. } => if self.exceeds(event) {
                    self.with_event(Event::TooManyInboundRequests(peer))
                } else if self.peers.contains_key(peer@) {
                    self.with_peer(peer@, self.peers[peer@].received(request_id))
                } else {
                    self
                },
            },
            RequestResponseEvent::OutboundFailure { peer, request_id, .. } => self.credited(
                peer,
                request_id,
                1,
            ),
            RequestResponseEvent::InboundFailure { peer, request_id, .. } =>
                if self.peers.contains_key(peer@) {
                    self.with_peer(peer@, self.peers[peer@].unanswered(request_id))
                } else {
                    self
                },
        }
    }

    /// One step of looking for the next event.
    pub open spec fn step<A>(self, input: PollInput<A, InnerEvent<Q, R, C, O, I>>) -> (
        Self,
        PollAction<A, Event<RequestResponseEvent<Q, R, C, O, I>>>,
    ) {
        match input {
            PollInput::Start => if self.events.len() > 0 {
                (
                    DynamicState { events: self.events.drop_first(), ..self },
                    PollAction::Return(
                        Async::Ready(NetworkBehaviourAction::GenerateEvent(self.events.first())),
                    ),
                )
            } else {
                (self, PollAction::PollBehaviour)
            },
            PollInput::Polled(Async::NotReady) => (self, PollAction::Return(Async::NotReady)),
            PollInput::Polled(Async::Ready(NetworkBehaviourAction::Other(a))) => (
                self,
                PollAction::Return(Async::Ready(NetworkBehaviourAction::Other(a))),
            ),
            PollInput::Polled(Async::Ready(NetworkBehaviourAction::GenerateEvent(event))) => (
                self.noted(event),
                if self.exceeds(event) {
                    PollAction::PollBehaviour
                } else {
                    PollAction::Return(
                        Async::Ready(
                            NetworkBehaviourAction::GenerateEvent(
                                Event::Event(without_headers(event)),
                            ),
                        ),
                    )
                },
            ),
        }
    }
}

/// The limits of a map from peers to limits.
closed spec fn numbers(m: Map<Seq<u8>, Limit>) -> Map<Seq<u8>, u16> {
    Map::new(|p: Seq<u8>| m.contains_key(p), |p: Seq<u8>| m[p].max_recv)
}

/// The states of a map from peers to what is known of them.
closed spec fn states(m: Map<Seq<u8>, PeerInfo>) -> Map<
    Seq<u8>,
    PeerState,
> {
    Map::new(|p: Seq<u8>| m.contains_key(p), |p: Seq<u8>| m[p]@)
}

proof fn lemma_states_change()
    ensures
        forall|m: Map<Seq<u8>, PeerInfo>, p: Seq<u8>, i: PeerInfo| #[trigger]
            states(m.insert(p, i)) == states(m).insert(p, i@),
        forall|m: Map<Seq<u8>, PeerInfo>, p: Seq<u8>| #[trigger]
            states(m.remove(p)) == states(m).remove(p),
        forall|m: Map<Seq<u8>, Limit>, p: Seq<u8>, i: Limit| #[trigger]
            numbers(m.insert(p, i)) == numbers(m).insert(p, i.max_recv),
        forall|m: Map<Seq<u8>, Limit>, p: Seq<u8>| #[trigger]
            numbers(m.remove(p)) == numbers(m).remove(p),
{
    assert forall|m: Map<Seq<u8>, PeerInfo>, p: Seq<u8>, i: PeerInfo| #[trigger]
        states(m.insert(p, i)) == states(m).insert(p, i@) by {
        assert(states(m.insert(p, i)) =~= states(m).insert(p, i@));
    }
    assert forall|m: Map<Seq<u8>, PeerInfo>, p: Seq<u8>| #[trigger]
        states(m.remove(p)) == states(m).remove(p) by {
        assert(states(m.remove(p)) =~= states(m).remove(p));
    }
    assert forall|m: Map<Seq<u8>, Limit>, p: Seq<u8>, i: Limit| #[trigger]
        numbers(m.insert(p, i)) == numbers(m).insert(p, i.max_recv) by {
        assert(numbers(m.insert(p, i)) =~= numbers(m).insert(p, i.max_recv));
    }
    assert forall|m: Map<Seq<u8>, Limit>, p: Seq<u8>| #[trigger]
        numbers(m.remove(p)) == numbers(m).remove(p) by {
        assert(numbers(m.remove(p)) =~= numbers(m).remove(p));
    }
}

/// Calls [`VecDeque::capacity`]: how many items the queue can hold before it allocates again. That
/// depends on the allocator; it is at least the number of items in the queue.
#[verifier::external_body]
fn capacity<T>(queue: &VecDeque<T>) -> (r: usize)
    ensures
        r >= queue@.len(),
{
    queue.capacity()
}

/// Calls [`VecDeque::shrink_to_fit`]: gives up memory that is not needed and keeps the items.
#[verifier::external_body]
fn shrink_to_fit<T>(queue: &mut VecDeque<T>)
    ensures
        final(queue)@ == old(queue)@,
{
    queue.shrink_to_fit()
}

/// A wrapper around a behaviour that sends and answers requests, with limits per peer.
pub struct Dynamic<B, E> {
    behaviour: B,
    peer_info: PeerMap<PeerInfo>,
    default_limit: Limit,
    limit_overrides: PeerMap<Limit>,
    events: VecDeque<Event<E>>,
}

impl<B, E> View for Dynamic<B, E> {
    type V = DynamicState<E>;

    closed spec fn view(&self) -> DynamicState<E> {
        DynamicState {
            peers: states(self.peer_info@),
            default_limit: self.default_limit.max_recv,
            overrides: numbers(self.limit_overrides@),
            events: self.events@,
        }
    }
}

impl<B, E> Dynamic<B, E> {
    /// The maps are sound and so is the state.
    pub closed spec fn wf(&self) -> bool {
        &&& self.peer_info.wf()
        &&& self.limit_overrides.wf()
        &&& self@.wf()
    }

    /// Of every sound wrapper the state is sound: the numbers of each peer keep to its limits.
    pub proof fn law_wf(d: Self)
        requires
            d.wf(),
        ensures
            d@.wf(),
    {
    }

    /// The wrapped behaviour.
    pub closed spec fn spec_behaviour(&self) -> B {
        self.behaviour
    }

    /// Wraps a behaviour and applies limits to it.
    pub fn new(behaviour: B) -> (r: Self)
        ensures
            r.wf(),
            r.spec_behaviour() == behaviour,
            r@ == (DynamicState::<E> {
                peers: Map::empty(),
                default_limit: 1,
                overrides: Map::empty(),
                events: Seq::empty(),
            }),
    {
        let r = Dynamic {
            behaviour,
            peer_info: PeerMap::new(),
            default_limit: Limit { max_recv: 1 },
            limit_overrides: PeerMap::new(),
            events: VecDeque::new(),
        };
        assert(r@.peers =~= Map::empty());
        assert(r@.overrides =~= Map::empty());
        r
    }

    /// The wrapped behaviour.
    pub fn behaviour(&mut self) -> (r: &mut B)
        requires
            old(self).wf(),
        ensures
            *r == old(self).spec_behaviour(),
            final(self).spec_behaviour() == *final(r),
            final(self)@ == old(self)@,
            final(self).wf(),
    {
        &mut self.behaviour
    }

    fn info_mut(&mut self, p: &PeerId) -> (r: Option<&mut PeerInfo>)
        requires
            old(self).wf(),
        ensures
            match r {
                Some(info) => {
                    &&& old(self)@.peers.contains_key(p@)
                    &&& info@ == old(self)@.peers[p@]
                    &&& info@.wf()
                    &&& final(self)@ == old(self)@.with_peer(p@, final(info)@)
                    &&& final(info)@.wf() ==> final(self).wf()
                    &&& final(self).spec_behaviour() == old(self).spec_behaviour()
                },
                None => !old(self)@.peers.contains_key(p@) && *final(self) == *old(self),
            },
    {
        proof {
            lemma_states_change();
            assert(self@.peers.contains_key(p@) == self.peer_info@.contains_key(p@));
        }
        self.peer_info.get_mut(p)
    }

    /// Sets the limit of new peers.
    pub fn set_default_limit(&mut self, limit: u16)
        requires
            old(self).wf(),
            limit > 0,
        ensures
            final(self).wf(),
            final(self)@ == (DynamicState { default_limit: limit, ..old(self)@ }),
            final(self).spec_behaviour() == old(self).spec_behaviour(),
    {
        self.default_limit = Limit { max_recv: limit };
    }

    /// Increases the receive limit of a single peer.
    pub fn increase_receive_limit(&mut self, p: &PeerId, limit: u16)
        requires
            old(self).wf(),
            limit > 0,
        ensures
            final(self).wf(),
            final(self)@ == old(self)@.limit_raised(p@, limit),
            final(self).spec_behaviour() == old(self).spec_behaviour(),
    {
        proof {
            lemma_states_change();
        }
        if let Some(info) = self.info_mut(p) {
            let so_far: Limit = info.limit();
            if limit <= so_far.max_recv {
                return;
            }
            info.raise(Limit { max_recv: limit });
        }
        let ghost raised = self@;
        self.limit_overrides.insert(p.clone(), Limit { max_recv: limit });
        proof {
            assert forall|q: Seq<u8>| #[trigger] self@.overrides.contains_key(q) implies self@.overrides[q]
                > 0 by {
                if q != p@ {
                    assert(raised.overrides.contains_key(q));
                }
            }
        }
    }

    /// Removes the limit of a single peer.
    pub fn remove_override(&mut self, p: &PeerId)
        requires
            old(self).wf(),
        ensures
            final(self).wf(),
            final(self)@ == (DynamicState { overrides: old(self)@.overrides.remove(p@), ..old(self)@ }),
            final(self).spec_behaviour() == old(self).spec_behaviour(),
    {
        proof {
            lemma_states_change();
        }
        self.limit_overrides.remove(p);
    }

    /// Can a request be sent to the peer?
    pub fn can_send(&mut self, p: &PeerId) -> (r: bool)
        requires
            old(self).wf(),
        ensures
            *final(self) == *old(self),
            r == (old(self)@.peer(p@).rem_send > 0),
    {
        match self.peer_info.get(p) {
            Some(info) => info.rem_send() > 0,
            None => true,
        }
    }

    fn new_limit(&self, p: &PeerId) -> (r: Limit)
        requires
            self.wf(),
        ensures
            r.max_recv == self@.limit_of(p@),
            r.max_recv > 0,
    {
        assert(self@.overrides.contains_key(p@) == self.limit_overrides@.contains_key(p@));
        match self.limit_overrides.get(p) {
            Some(limit) => *limit,
            None => self.default_limit,
        }
    }

    fn ensure_peer(&mut self, p: &PeerId)
        requires
            old(self).wf(),
        ensures
            final(self).wf(),
            final(self)@ == old(self)@.with_peer(p@, old(self)@.peer(p@)),
            final(self).spec_behaviour() == old(self).spec_behaviour(),
    {
        proof {
            lemma_states_change();
        }
        if !self.peer_info.contains_key(p) {
            let limit: Limit = self.new_limit(p);
            self.peer_info.insert(p.clone(), PeerInfo::new(limit));
            proof {
                assert forall|q: Seq<u8>| #[trigger] self@.peers.contains_key(q) implies self@.peers[q].wf() by {
                    if q != p@ {
                        assert(old(self)@.peers.contains_key(q));
                    }
                }
            }
        } else {
            assert(self@.peers =~= self@.peers.insert(p@, self@.peers[p@]));
        }
    }

    /// Prepares a request to a peer.
    ///
    /// If no request can be sent, it is handed back. The next one should be tried only after
    /// [`Event::ResumeSending`]. Otherwise the wrapped behaviour is to send the result, and
    /// [`Dynamic::request_sent`] is to be told the identifier of the request.
    pub fn send_request<Q>(&mut self, p: &PeerId, req: Q) -> (r: Result<Request<Q>, Q>)
        requires
            old(self).wf(),
        ensures
            final(self).wf(),
            final(self).spec_behaviour() == old(self).spec_behaviour(),
            ({
                let peer = old(self)@.peer(p@);
                if peer.rem_send == 0 {
                    r == Err::<Request<Q>, Q>(req) && final(self)@ == old(self)@.with_peer(p@, peer)
                } else {
                    r == Ok::<Request<Q>, Q>(
                        (Request { header: crate::request_response::header::RequestHeader, body: req }),
                    ) && final(self)@ == old(self)@.with_peer(p@, peer.charged())
                }
            }),
    {
        proof {
            lemma_states_change();
        }
        self.ensure_peer(p);
        if let Some(info) = self.info_mut(p) {
            if info.rem_send() == 0 {
                return Err(req);
            }
            info.charge();
        }
        Ok(Request::new(req))
    }

    /// Notes that the wrapped behaviour has sent a request.
    pub fn request_sent(&mut self, p: &PeerId, rid: RequestId)
        requires
            old(self).wf(),
            old(self)@.peers.contains_key(p@),
        ensures
            final(self).wf(),
            final(self)@ == old(self)@.with_peer(p@, old(self)@.peers[p@].sent(rid)),
            final(self).spec_behaviour() == old(self).spec_behaviour(),
    {
        proof {
            lemma_states_change();
        }
        if let Some(info) = self.info_mut(p) {
            info.sent(rid);
        }
    }

    /// Prepares the response to an inbound request, for the wrapped behaviour to send.
    pub fn send_response<S, R>(&mut self, ch: &ResponseChannel<S>, res: R) -> (r: Response<R>)
        requires
            old(self).wf(),
        ensures
            final(self).wf(),
            final(self).spec_behaviour() == old(self).spec_behaviour(),
            r.body == res,
            ({
                let p = ch.peer@;
                if !old(self)@.peers.contains_key(p) {
                    r.header.credit == 1 && final(self)@ == old(self)@
                } else if old(self)@.peers[p].inbound.contains_key(ch.request_id) {
                    r.header.credit == 1 + old(self)@.peers[p].add_recv && final(self)@ == old(
                        self
                    )@.with_peer(p, old(self)@.peers[p].answering(ch.request_id))
                } else {
                    r.header.credit == 0 && final(self)@ == old(self)@
                }
            }),
    {
        proof {
            lemma_states_change();
        }
        let mut res = Response::new(res);
        if let Some(info) = self.info_mut(&ch.peer) {
            if let Some(credit) = info.answer(ch.request_id) {
                res.set_credit(credit);
            }
        } else {
            res.set_credit(1);
        }
        res
    }

    /// A peer is connected.
    pub fn inject_connected(&mut self, p: &PeerId)
        requires
            old(self).wf(),
        ensures
            final(self).wf(),
            final(self)@ == old(self)@.with_peer(p@, old(self)@.peer(p@)),
            final(self).spec_behaviour() == old(self).spec_behaviour(),
    {
        // The peer may be there already if a request was sent to it.
        self.ensure_peer(p);
    }

    /// A peer is gone.
    pub fn inject_disconnected(&mut self, p: &PeerId)
        requires
            old(self).wf(),
        ensures
            final(self).wf(),
            final(self)@ == (DynamicState { peers: old(self)@.peers.remove(p@), ..old(self)@ }),
            final(self).spec_behaviour() == old(self).spec_behaviour(),
    {
        proof {
            lemma_states_change();
        }
        self.peer_info.remove(p);
    }

    /// The handler of a connection to the peer tells something.
    pub fn inject_event<H>(&mut self, p: &PeerId, e: &HandlerEvent<H>)
        requires
            old(self).wf(),
        ensures
            final(self).wf(),
            final(self).spec_behaviour() == old(self).spec_behaviour(),
            match *e {
                HandlerEvent::ResponseSent(r) => if old(self)@.peers.contains_key(p@) {
                    final(self)@ == old(self)@.with_peer(p@, old(self)@.peers[p@].answered(r))
                } else {
                    final(self)@ == old(self)@
                },
                HandlerEvent::Other(_) => final(self)@ == old(self)@,
            },
    {
        proof {
            lemma_states_change();
        }
        if let HandlerEvent::ResponseSent(r) = e {
            if let Some(info) = self.info_mut(p) {
                info.complete(*r);
            }
        }
    }

    fn credit(&mut self, peer: &PeerId, rid: RequestId, credit: u16)
        requires
            old(self).wf(),
            old(self)@.peers.contains_key(peer@) && old(self)@.peers[peer@].outbound.contains(rid)
                ==> old(self)@.peers[peer@].rem_send + credit <= u16::MAX,
        ensures
            final(self).wf(),
            final(self)@ == old(self)@.credited(*peer, rid, credit),
            final(self).spec_behaviour() == old(self).spec_behaviour(),
    {
        proof {
            lemma_states_change();
        }
        let mut resume: bool = false;
        if let Some(info) = self.info_mut(peer) {
            if info.awaits(rid) {
                resume = info.rem_send() == 0 && credit > 0;
                info.credit(rid, credit);
            }
        }
        if resume {
            self.events.push_back(Event::ResumeSending(peer.clone()));
        }
    }
}

impl<B, Q, R, C, O, I> Dynamic<B, RequestResponseEvent<Q, R, C, O, I>> {
    /// Can the credit that comes with the event be counted?
    pub fn admits(&self, event: &InnerEvent<Q, R, C, O, I>) -> (r: bool)
        requires
            self.wf(),
        ensures
            r == self@.admits(*event),
    {
        let (peer, rid, credit): (&PeerId, RequestId, u16) = match event {
            RequestResponseEvent::Message {
                peer,
                message: RequestResponseMessage::Response { request_id, response },
            } => (peer, *request_id, response.header.credit),
            RequestResponseEvent::OutboundFailure { peer, request_id, .. } => (peer, *request_id, 1),
            _ => {
                return true;
            },
        };
        assert(self@.peers.contains_key(peer@) == self.peer_info@.contains_key(peer@));
        match self.peer_info.get(peer) {
            Some(info) => !info.awaits(rid) || info.rem_send() <= u16::MAX - credit,
            None => true,
        }
    }

    fn note(&mut self, event: &InnerEvent<Q, R, C, O, I>) -> (exceeds: bool)
        requires
            old(self).wf(),
            old(self)@.admits(*event),
        ensures
            final(self).wf(),
            final(self)@ == old(self)@.noted(*event),
            exceeds == old(self)@.exceeds(*event),
            final(self).spec_behaviour() == old(self).spec_behaviour(),
    {
        match event {
            RequestResponseEvent::Message { peer, message } => match message {
                RequestResponseMessage::Response { request_id, response } => {
                    self.credit(peer, *request_id, response.header().credit);
                    false
                },
                RequestResponseMessage::Request { request_id, .. } => {
                    let mut exceeds: bool = false;
                    if let Some(info) = self.info_mut(peer) {
                        if info.rem_recv() == 0 {
                            exceeds = true;
                        } else {
                            info.receive(*request_id);
                        }
                    }
                    if exceeds {
                        self.events.push_back(Event::TooManyInboundRequests(peer.clone()));
                        assert(self@.peers =~= old(self)@.peers);
                    }
                    exceeds
                },
            },
            RequestResponseEvent::OutboundFailure { peer, request_id, .. } => {
                self.credit(peer, *request_id, 1);
                false
            },
            RequestResponseEvent::InboundFailure { peer, request_id, .. } => {
                if let Some(info) = self.info_mut(peer) {
                    info.fail(*request_id);
                }
                false
            },
        }
    }

    fn strip(event: InnerEvent<Q, R, C, O, I>) -> (r: RequestResponseEvent<Q, R, C, O, I>)
        ensures
            r == without_headers(event),
    {
        match event {
            RequestResponseEvent::Message { peer, message } => {
                let message = match message {
                    RequestResponseMessage::Request { request_id, request, channel } =>
                        RequestResponseMessage::Request {
                            request_id,
                            request: request.into_parts().1,
                            channel,
                        },
                    RequestResponseMessage::Response { request_id, response } =>
                        RequestResponseMessage::Response {
                            request_id,
                            response: response.into_parts().1,
                        },
                };
                RequestResponseEvent::Message { peer, message }
            },
            RequestResponseEvent::OutboundFailure { peer, request_id, error } =>
                RequestResponseEvent::OutboundFailure { peer, request_id, error },
            RequestResponseEvent::InboundFailure { peer, request_id, error } =>
                RequestResponseEvent::InboundFailure { peer, request_id, error },
        }
    }

    /// One step of looking for the next event.
    ///
    /// Begins with [`PollInput::Start`]. For [`PollAction::PollBehaviour`] the wrapped behaviour
    /// is to be polled and the outcome handed in; any other action ends the search.
    pub fn poll<A>(&mut self, input: PollInput<A, InnerEvent<Q, R, C, O, I>>) -> (r: PollAction<
        A,
        Event<RequestResponseEvent<Q, R, C, O, I>>,
    >)
        requires
            old(self).wf(),
            input matches PollInput::Polled(
                Async::Ready(NetworkBehaviourAction::GenerateEvent(event)),
            ) ==> old(self)@.admits(event),
        ensures
            final(self).wf(),
            (final(self)@, r) == old(self)@.step(input),
            final(self).spec_behaviour() == old(self).spec_behaviour(),
    {
        match input {
            PollInput::Start => {
                if let Some(ev) = self.events.pop_front() {
                    proof {
                        assert(self@.events =~= old(self)@.events.drop_first());
                        assert(self@.peers == old(self)@.peers);
                        assert(self@.overrides == old(self)@.overrides);
                        assert(self@.wf());
                    }
                    PollAction::Return(Async::Ready(NetworkBehaviourAction::GenerateEvent(ev)))
                } else {
                    if capacity(&self.events) > EMPTY_QUEUE_SHRINK_THRESHOLD {
                        shrink_to_fit(&mut self.events);
                    }
                    assert(self@ =~= old(self)@);
                    PollAction::PollBehaviour
                }
            },
            PollInput::Polled(Async::NotReady) => PollAction::Return(Async::NotReady),
            PollInput::Polled(Async::Ready(action)) => match action {
                NetworkBehaviourAction::Other(a) => PollAction::Return(
                    Async::Ready(NetworkBehaviourAction::Other(a)),
                ),
                NetworkBehaviourAction::GenerateEvent(event) => {
                    if self.note(&event) {
                        PollAction::PollBehaviour
                    } else {
                        PollAction::Return(
                            Async::Ready(
                                NetworkBehaviourAction::GenerateEvent(
                                    Event::Event(Self::strip(event)),
                                ),
                            ),
                        )
                    }
                },
            },
        }
    }
}

/// A peer to which nothing could be sent can be sent to again exactly when
/// [`Event::ResumeSending`] is queued for it.
pub proof fn law_resumption_is_announced<E>(
    s: DynamicState<E>,
    peer: PeerId,
    rid: RequestId,
    credit: u16,
)
    requires
        s.wf(),
        s.peers.contains_key(peer@),
        s.peers[peer@].rem_send == 0,
    ensures
        s.credited(peer, rid, credit).peers[peer@].rem_send > 0 <==> s.credited(
            peer,
            rid,
            credit,
        ).events == s.events.push(Event::ResumeSending(peer)),
        s.credited(peer, rid, credit).peers[peer@].rem_send == 0 <==> s.credited(
            peer,
            rid,
            credit,
        ).events == s.events,
{
    assert(s.events.push(Event::ResumeSending(peer)).len() == s.events.len() + 1);
}

/// A request of a peer that may send none changes nothing known of any peer, is not handed out,
/// and leads to [`Event::TooManyInboundRequests`].
pub proof fn law_excess_request_is_dropped<A, Q, R, C, O, I>(
    s: DynamicState<RequestResponseEvent<Q, R, C, O, I>>,
    peer: PeerId,
    message: RequestResponseMessage<Request<Q>, Response<R>, C>,
)
    requires
        s.wf(),
        message is Request,
        s.peers.contains_key(peer@),
        s.peers[peer@].rem_recv == 0,
    ensures
        ({
            let event = RequestResponseEvent::<Request<Q>, Response<R>, C, O, I>::Message { peer, message };
            let input = PollInput::<A, InnerEvent<Q, R, C, O, I>>::Polled(
                Async::Ready(NetworkBehaviourAction::GenerateEvent(event)),
            );
            &&& s.step(input).0 == s.with_event(Event::TooManyInboundRequests(peer))
            &&& s.step(input).1 is PollBehaviour
        }),
{
}

/// Events that wait are handed out one by one in the order in which they were queued, before
/// anything else.
pub proof fn law_waiting_events_come_first<A, Q, R, C, O, I>(
    s: DynamicState<RequestResponseEvent<Q, R, C, O, I>>,
)
    requires
        s.events.len() > 0,
    ensures
        ({
            let (t, action) = s.step(PollInput::<A, InnerEvent<Q, R, C, O, I>>::Start);
            &&& action matches PollAction::Return(
                Async::Ready(NetworkBehaviourAction::GenerateEvent(e)),
            ) && seq![e] + t.events == s.events
            &&& t.peers == s.peers
        }),
{
    assert(seq![s.events.first()] + s.events.drop_first() =~= s.events);
}

/// A request that was refused stays refused until an event changes what is known of the peer:
/// trying again gives the same answer and the same state.
pub proof fn law_refusal_is_stable<E>(s: DynamicState<E>, p: Seq<u8>)
    requires
        s.wf(),
        s.peer(p).rem_send == 0,
    ensures
        s.with_peer(p, s.peer(p)).peer(p) == s.peer(p),
        s.with_peer(p, s.peer(p)).with_peer(p, s.peer(p)) == s.with_peer(p, s.peer(p)),
{
    let t = s.with_peer(p, s.peer(p));
    assert(t.with_peer(p, s.peer(p)).peers =~= t.peers);
}

} // verus!
