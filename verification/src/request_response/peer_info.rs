//! What is known of one peer: how many requests may still go to it and come from it.

use std::collections::{HashMap, HashSet};
use vstd::prelude::*;

verus! {

/// Identifies a request.
pub type RequestId = u64;

/// Greatest number of inbound requests that a peer may have under way; never zero.
#[derive(Clone, Copy, Debug, PartialEq, Eq, Structural)]
pub struct Limit {
    /// The number.
    pub max_recv: u16,
}

/// The state of a response.
///
/// The additional credit is kept in case that sending the response fails. It is then granted with
/// the next response.
#[derive(Clone, Copy, Debug, PartialEq, Eq, Structural)]
pub enum ResponseState {
    /// The response has not been sent yet.
    Pending,
    /// The response with the given additional credit is on its way.
    Sending(u16),
}

/// The credit that is on its way with a response.
pub open spec fn credit_in(state: ResponseState) -> nat {
    match state {
        ResponseState::Pending => 0,
        ResponseState::Sending(c) => c as nat,
    }
}

/// The credit that is on its way with all responses together.
pub open spec fn credit_sending(inbound: Map<RequestId, ResponseState>) -> nat
    decreases inbound.dom().len(),
    when inbound.dom().finite()
{
    if inbound.dom().len() == 0 {
        0
    } else {
        let k = inbound.dom().choose();
        credit_in(inbound[k]) + credit_sending(inbound.remove(k))
    }
}

/// Any response may be counted first.
pub(crate) proof fn lemma_credit_split(inbound: Map<RequestId, ResponseState>, k: RequestId)
    requires
        inbound.dom().finite(),
        inbound.contains_key(k),
    ensures
        credit_sending(inbound) == credit_in(inbound[k]) + credit_sending(inbound.remove(k)),
    decreases inbound.dom().len(),
{
    let c = inbound.dom().choose();
    assert(inbound.dom().contains(c));
    if c != k {
        let without_c = inbound.remove(c);
        let without_k = inbound.remove(k);
        lemma_credit_split(without_c, k);
        lemma_credit_split(without_k, c);
        assert(without_c.remove(k) =~= without_k.remove(c));
    }
}

/// What a change of one response does to the credit that is on its way.
pub(crate) proof fn lemma_credit_change(
    inbound: Map<RequestId, ResponseState>,
    k: RequestId,
    state: ResponseState,
)
    requires
        inbound.dom().finite(),
    ensures
        inbound.insert(k, state).dom().finite(),
        inbound.remove(k).dom().finite(),
        credit_sending(inbound.insert(k, state)) == credit_in(state) + credit_sending(
            inbound.remove(k),
        ),
        credit_sending(inbound) == credit_sending(inbound.remove(k)) + (if inbound.contains_key(k) {
            credit_in(inbound[k])
        } else {
            0
        }),
{
    lemma_credit_split(inbound.insert(k, state), k);
    assert(inbound.insert(k, state).remove(k) =~= inbound.remove(k));
    if inbound.contains_key(k) {
        lemma_credit_split(inbound, k);
    } else {
        assert(inbound.remove(k) =~= inbound);
    }
}

/// What is known of a peer.
#[verifier::ext_equal]
pub struct PeerState {
    /// Limit on inbound requests.
    pub max_recv: u16,
    /// Remaining number of outbound requests that can be sent.
    pub rem_send: u16,
    /// Remaining number of inbound requests that can be received.
    pub rem_recv: u16,
    /// Additional number of inbound requests that the peer has not been told of.
    pub add_recv: u16,
    /// Current set of outbound requests.
    pub outbound: Set<RequestId>,
    /// Current set of inbound requests and the state of their responses.
    pub inbound: Map<RequestId, ResponseState>,
}

impl PeerState {
    /// The budget covers the requests under way, and no more credit is due or on its way than the
    /// limit allows beside the credit that each response grants.
    pub open spec fn wf(self) -> bool {
        &&& self.max_recv > 0
        &&& self.inbound.dom().finite()
        &&& self.rem_recv + self.inbound.dom().len() <= self.max_recv
        &&& self.add_recv + credit_sending(self.inbound) < self.max_recv
    }

    /// A peer of which nothing is known but its limit.
    pub open spec fn fresh(limit: u16) -> Self {
        PeerState {
            max_recv: limit,
            rem_send: 1,
            rem_recv: limit,
            add_recv: (limit - 1) as u16,
            outbound: Set::empty(),
            inbound: Map::empty(),
        }
    }

    /// The limit goes up.
    pub open spec fn raised(self, limit: u16) -> Self {
        PeerState {
            max_recv: limit,
            rem_recv: (self.rem_recv + (limit - self.max_recv)) as u16,
            add_recv: (limit - self.max_recv) as u16,
            ..self
        }
    }

    /// One request is about to be sent.
    pub open spec fn charged(self) -> Self {
        PeerState { rem_send: (self.rem_send - 1) as u16, ..self }
    }

    /// A request has been sent.
    pub open spec fn sent(self, rid: RequestId) -> Self {
        PeerState { outbound: self.outbound.insert(rid), ..self }
    }

    /// A request is over and the peer grants `credit` more.
    pub open spec fn credited(self, rid: RequestId, credit: u16) -> Self {
        PeerState {
            outbound: self.outbound.remove(rid),
            rem_send: (self.rem_send + credit) as u16,
            ..self
        }
    }

    /// A request has come in.
    pub open spec fn received(self, rid: RequestId) -> Self {
        PeerState {
            inbound: self.inbound.insert(rid, ResponseState::Pending),
            rem_recv: (self.rem_recv - 1) as u16,
            ..self
        }
    }

    /// A request is being answered; all credit that is due goes with the response.
    pub open spec fn answering(self, rid: RequestId) -> Self {
        PeerState {
            inbound: self.inbound.insert(rid, ResponseState::Sending(self.add_recv)),
            add_recv: 0,
            ..self
        }
    }

    /// A response has gone out.
    pub open spec fn answered(self, rid: RequestId) -> Self {
        if self.inbound.contains_key(rid) && self.inbound[rid] is Sending {
            PeerState {
                inbound: self.inbound.remove(rid),
                rem_recv: (self.rem_recv + 1) as u16,
                ..self
            }
        } else {
            PeerState { inbound: self.inbound.remove(rid), ..self }
        }
    }

    /// A response could not be sent; the credit that it carried is due again.
    pub open spec fn unanswered(self, rid: RequestId) -> Self {
        if self.inbound.contains_key(rid) && self.inbound[rid] is Sending {
            PeerState {
                inbound: self.inbound.remove(rid),
                rem_recv: (self.rem_recv + 1) as u16,
                add_recv: (self.add_recv + self.inbound[rid]->Sending_0) as u16,
                ..self
            }
        } else {
            PeerState { inbound: self.inbound.remove(rid), ..self }
        }
    }
}

/// Information about a peer.
#[derive(Debug)]
pub struct PeerInfo {
    limit: Limit,
    rem_send: u16,
    rem_recv: u16,
    add_recv: u16,
    outbound: HashSet<RequestId>,
    inbound: HashMap<RequestId, ResponseState>,
}

impl View for PeerInfo {
    type V = PeerState;

    closed spec fn view(&self) -> PeerState {
        PeerState {
            max_recv: self.limit.max_recv,
            rem_send: self.rem_send,
            rem_recv: self.rem_recv,
            add_recv: self.add_recv,
            outbound: self.outbound@,
            inbound: self.inbound@,
        }
    }
}

impl PeerInfo {
    /// A peer of which nothing is known but its limit.
    pub fn new(limit: Limit) -> (r: Self)
        requires
            limit.max_recv > 0,
        ensures
            r@ == PeerState::fresh(limit.max_recv),
            r@.wf(),
    {
        let r = PeerInfo {
            limit,
            rem_send: 1,
            rem_recv: limit.max_recv,
            add_recv: limit.max_recv - 1,
            outbound: HashSet::new(),
            inbound: HashMap::new(),
        };
        assert(r@ =~= PeerState::fresh(limit.max_recv));
        r
    }

    /// The limit on inbound requests.
    pub fn limit(&self) -> (r: Limit)
        ensures
            r.max_recv == self@.max_recv,
    {
        self.limit
    }

    /// Remaining number of outbound requests that can be sent.
    pub fn rem_send(&self) -> (r: u16)
        ensures
            r == self@.rem_send,
    {
        self.rem_send
    }

    /// Remaining number of inbound requests that can be received.
    pub fn rem_recv(&self) -> (r: u16)
        ensures
            r == self@.rem_recv,
    {
        self.rem_recv
    }

    /// Is the request one of the outbound requests?
    pub fn awaits(&self, rid: RequestId) -> (r: bool)
        ensures
            r == self@.outbound.contains(rid),
    {
        broadcast use vstd::std_specs::hash::group_hash_axioms;

        self.outbound.contains(&rid)
    }

    /// Grants more requests than so far.
    ///
    /// The peer learns of it with the next response.
    pub fn raise(&mut self, limit: Limit)
        requires
            old(self)@.wf(),
            limit.max_recv > old(self)@.max_recv,
        ensures
            final(self)@ == old(self)@.raised(limit.max_recv),
            final(self)@.wf(),
    {
        let diff: u16 = limit.max_recv - self.limit.max_recv;
        self.add_recv = diff;
        self.rem_recv += diff;
        self.limit = limit;
    }

    /// Uses up one outbound request.
    pub fn charge(&mut self)
        requires
            old(self)@.wf(),
            old(self)@.rem_send > 0,
        ensures
            final(self)@ == old(self)@.charged(),
            final(self)@.wf(),
    {
        self.rem_send -= 1;
    }

    /// Notes an outbound request.
    pub fn sent(&mut self, rid: RequestId)
        requires
            old(self)@.wf(),
        ensures
            final(self)@ == old(self)@.sent(rid),
            final(self)@.wf(),
    {
        broadcast use vstd::std_specs::hash::group_hash_axioms;

        self.outbound.insert(rid);
    }

    /// Ends an outbound request and adds `credit` to what can be sent.
    pub fn credit(&mut self, rid: RequestId, credit: u16)
        requires
            old(self)@.wf(),
            old(self)@.rem_send + credit <= u16::MAX,
        ensures
            final(self)@ == old(self)@.credited(rid, credit),
            final(self)@.wf(),
    {
        broadcast use vstd::std_specs::hash::group_hash_axioms;

        self.outbound.remove(&rid);
        self.rem_send += credit;
        assert(self@ =~= old(self)@.credited(rid, credit));
    }

    /// Notes an inbound request.
    pub fn receive(&mut self, rid: RequestId)
        requires
            old(self)@.wf(),
            old(self)@.rem_recv > 0,
        ensures
            final(self)@ == old(self)@.received(rid),
            final(self)@.wf(),
    {
        broadcast use vstd::std_specs::hash::group_hash_axioms;

        proof {
            lemma_credit_change(self.inbound@, rid, ResponseState::Pending);
        }
        self.inbound.insert(rid, ResponseState::Pending);
        self.rem_recv -= 1;
    }

    /// Puts all credit that is due on the response to an inbound request and returns what the
    /// response grants; `None` if there is no such request.
    pub fn answer(&mut self, rid: RequestId) -> (r: Option<u16>)
        requires
            old(self)@.wf(),
        ensures
            final(self)@.wf(),
            match r {
                Some(credit) => old(self)@.inbound.contains_key(rid) && final(self)@ == old(
                    self
                )@.answering(rid) && credit == 1 + old(self)@.add_recv,
                None => !old(self)@.inbound.contains_key(rid) && final(self)@ == old(self)@,
            },
    {
        broadcast use vstd::std_specs::hash::group_hash_axioms;

        if self.inbound.contains_key(&rid) {
            let add_recv: u16 = self.add_recv;
            proof {
                lemma_credit_change(self.inbound@, rid, ResponseState::Sending(add_recv));
                assert(self.inbound@.dom() =~= self.inbound@.insert(
                    rid,
                    ResponseState::Sending(add_recv),
                ).dom());
            }
            self.inbound.insert(rid, ResponseState::Sending(add_recv));
            self.add_recv = 0;
            Some(1 + add_recv)
        } else {
            None
        }
    }

    /// Ends an inbound request whose response has gone out.
    pub fn complete(&mut self, rid: RequestId)
        requires
            old(self)@.wf(),
        ensures
            final(self)@ == old(self)@.answered(rid),
            final(self)@.wf(),
    {
        broadcast use vstd::std_specs::hash::group_hash_axioms;

        proof {
            lemma_credit_change(self.inbound@, rid, ResponseState::Pending);
        }
        let state = self.inbound.remove(&rid);
        if let Some(ResponseState::Sending(_)) = state {
            self.rem_recv += 1;
        }
    }

    /// Ends an inbound request whose response could not be sent.
    pub fn fail(&mut self, rid: RequestId)
        requires
            old(self)@.wf(),
        ensures
            final(self)@ == old(self)@.unanswered(rid),
            final(self)@.wf(),
    {
        broadcast use vstd::std_specs::hash::group_hash_axioms;

        proof {
            lemma_credit_change(self.inbound@, rid, ResponseState::Pending);
        }
        let state = self.inbound.remove(&rid);
        if let Some(ResponseState::Sending(c)) = state {
            self.rem_recv += 1;
            self.add_recv += c;
        }
    }
}

/// No more requests of a peer are under way than its limit.
pub proof fn law_inbound_requests_are_limited(peer: PeerState)
    requires
        peer.wf(),
    ensures
        peer.inbound.dom().len() <= peer.max_recv,
        peer.rem_recv <= peer.max_recv,
{
}

/// While a request is under way, the budget is below the limit.
pub proof fn law_budget_is_below_limit(peer: PeerState, rid: RequestId)
    requires
        peer.wf(),
        peer.inbound.contains_key(rid),
    ensures
        peer.rem_recv < peer.max_recv,
{
    assert(peer.inbound.dom().contains(rid));
    if peer.inbound.dom().len() == 0 {
        assert(peer.inbound.dom() =~= Set::empty());
    }
}

/// A response that could not be sent loses no credit: what was due before the answer is due
/// again after the failure.
pub proof fn law_failed_response_returns_credit(peer: PeerState, rid: RequestId)
    requires
        peer.wf(),
        peer.inbound.contains_key(rid),
    ensures
        peer.answering(rid).unanswered(rid) == (PeerState {
            inbound: peer.inbound.remove(rid),
            rem_recv: (peer.rem_recv + 1) as u16,
            ..peer
        }),
{
    law_budget_is_below_limit(peer, rid);
    assert(peer.answering(rid).unanswered(rid) =~= (PeerState {
        inbound: peer.inbound.remove(rid),
        rem_recv: (peer.rem_recv + 1) as u16,
        ..peer
    }));
}

/// A request that was received and answered leaves the budget as it was.
pub proof fn law_answered_request_restores_budget(peer: PeerState, rid: RequestId)
    requires
        peer.wf(),
        peer.rem_recv > 0,
        !peer.inbound.contains_key(rid),
    ensures
        peer.received(rid).answering(rid).answered(rid) == (PeerState { add_recv: 0, ..peer }),
{
    assert(peer.received(rid).answering(rid).answered(rid) =~= (PeerState { add_recv: 0, ..peer }));
}

} // verus!
