//! Listening on many addresses at once.

use crate::address::{Multiaddr, MultiaddrSeq};
use crate::async_value::{Async, Poll};
use crate::transport::Transport;
use std::collections::VecDeque;
use vstd::prelude::*;

verus! {

/// A single active listener.
pub struct Listener<TTrans: Transport> {
    /// The object that actually listens.
    pub listener: TTrans::Listener,
    /// Addresses it is listening on.
    pub addresses: MultiaddrSeq,
}

/// Event that can happen on the [`ListenersStream`].
#[allow(inconsistent_fields)]
pub enum ListenersEvent<TTrans: Transport> {
    /// A pending listener has started or failed to start.
    Listener {
        /// The address passed to [`ListenersStream::listen_on`].
        address: Multiaddr,
        /// Addresses the listener is listening on.
        result: Result<MultiaddrSeq, TTrans::Error>,
    },
    /// A connection is incoming on one of the listeners.
    Incoming {
        /// Addresses of the listener which received the connection.
        listen_addrs: MultiaddrSeq,
        /// The produced upgrade.
        upgrade: TTrans::ListenerUpgrade,
        /// Address used to send back data to the incoming client.
        send_back_addr: Multiaddr,
    },
    /// A listener has closed, either gracefully or with an error.
    Closed {
        /// Addresses of the listener which closed.
        listen_addrs: MultiaddrSeq,
        /// The listener that closed.
        listener: TTrans::Listener,
        /// The error that happened. `Ok` if gracefully closed.
        result: Result<(), TTrans::Error>,
    },
}

/// Where a poll of the [`ListenersStream`] stands.
#[derive(Debug, Clone, Copy, PartialEq, Eq)]
pub enum Turn {
    /// No poll is under way.
    Idle,
    /// A pending listener has been handed out; so many are still to be asked, itself included.
    Pending(usize),
    /// A listener has been handed out; so many are still to be asked, itself included.
    Active(usize),
}

/// What drives a poll of the [`ListenersStream`] forward.
#[allow(inconsistent_fields)]
pub enum ListenersInput<TTrans: Transport> {
    /// Begin a poll.
    Start,
    /// A pending listener has been polled.
    Pending {
        /// The address it was created for.
        address: Multiaddr,
        /// The pending listener.
        future: TTrans::ListenOn,
        /// What polling it gave.
        polled: Poll<(TTrans::Listener, MultiaddrSeq), TTrans::Error>,
    },
    /// An active listener has been polled.
    Active {
        /// The listener.
        listener: Listener<TTrans>,
        /// What polling it gave.
        polled: Poll<Option<(TTrans::ListenerUpgrade, Multiaddr)>, TTrans::Error>,
    },
}

/// What a step of a poll of the [`ListenersStream`] asks for.
pub enum ListenersAction<TTrans: Transport> {
    /// Poll this pending listener and come back with [`ListenersInput::Pending`].
    PollPending {
        /// The address it was created for.
        address: Multiaddr,
        /// The pending listener.
        future: TTrans::ListenOn,
    },
    /// Poll this listener and come back with [`ListenersInput::Active`].
    PollActive {
        /// The listener.
        listener: Listener<TTrans>,
    },
    /// The poll is over.
    Return(Async<ListenersEvent<TTrans>>),
}

/// The queues of a [`ListenersStream`].
pub struct ListenersState<TTrans: Transport> {
    /// Listeners that have not started yet, with the address each was created for.
    pub pending: Seq<(Multiaddr, TTrans::ListenOn)>,
    /// All the active listeners.
    pub active: Seq<Listener<TTrans>>,
    /// Where a poll stands.
    pub turn: Turn,
}

impl<TTrans: Transport> ListenersState<TTrans> {
    /// Hands out the last active listener, if there is one left to ask.
    pub open spec fn ask_active(self, remaining: nat) -> (Self, ListenersAction<TTrans>) {
        if remaining == 0 {
            (ListenersState { turn: Turn::Idle, ..self }, ListenersAction::Return(Async::NotReady))
        } else {
            (
                ListenersState {
                    active: self.active.drop_last(),
                    turn: Turn::Active(remaining as usize),
                    ..self
                },
                ListenersAction::PollActive { listener: self.active.last() },
            )
        }
    }

    /// Hands out the first pending listener, if there is one left to ask, else an active one.
    pub open spec fn ask_pending(self, remaining: nat) -> (Self, ListenersAction<TTrans>) {
        if remaining == 0 {
            self.ask_active(self.active.len())
        } else {
            (
                ListenersState {
                    pending: self.pending.drop_first(),
                    turn: Turn::Pending(remaining as usize),
                    ..self
                },
                ListenersAction::PollPending {
                    address: self.pending.first().0,
                    future: self.pending.first().1,
                },
            )
        }
    }

    /// How many are still to be asked in the queue that is being gone through.
    pub open spec fn remaining(self) -> nat {
        match self.turn {
            Turn::Idle => 0,
            Turn::Pending(n) => n as nat,
            Turn::Active(n) => n as nat,
        }
    }

    /// No more are to be asked than the queue will hold.
    pub open spec fn wf(self) -> bool {
        match self.turn {
            Turn::Idle => true,
            Turn::Pending(n) => 1 <= n <= self.pending.len() + 1,
            Turn::Active(n) => 1 <= n <= self.active.len() + 1,
        }
    }

    /// May this input come now?
    pub open spec fn accepts(self, input: ListenersInput<TTrans>) -> bool {
        match input {
            ListenersInput::Start => true,
            ListenersInput::Pending { .. } => self.turn is Pending,
            ListenersInput::Active { .. } => self.turn is Active,
        }
    }

    /// The step that an input causes.
    pub open spec fn step(self, input: ListenersInput<TTrans>) -> (
        Self,
        ListenersAction<TTrans>,
    ) {
        let idle = ListenersState { turn: Turn::Idle, ..self };
        match input {
            ListenersInput::Start => self.ask_pending(self.pending.len()),
            // A pending listener that is not ready goes to the back of its queue.
            ListenersInput::Pending {
                address,
                future,
                polled: Ok(Async::NotReady),
            } => ListenersState {
                pending: self.pending.push((address, future)),
                ..self
            }.ask_pending((self.remaining() - 1) as nat),
            ListenersInput::Pending {
                address,
                future: _,
                polled: Ok(Async::Ready((listener, addresses))),
            } => (
                ListenersState { active: self.active.push(Listener { listener, addresses }), ..idle },
                ListenersAction::Return(
                    Async::Ready(ListenersEvent::Listener { address, result: Ok(addresses) }),
                ),
            ),
            ListenersInput::Pending { address, future: _, polled: Err(e) } => (
                idle,
                ListenersAction::Return(
                    Async::Ready(ListenersEvent::Listener { address, result: Err(e) }),
                ),
            ),
            // A listener that is not ready goes to the front of its queue.
            ListenersInput::Active { listener, polled: Ok(Async::NotReady) } => ListenersState {
                active: seq![listener] + self.active,
                ..self
            }.ask_active((self.remaining() - 1) as nat),
            ListenersInput::Active {
                listener,
                polled: Ok(Async::Ready(Some((upgrade, send_back_addr)))),
            } => (
                ListenersState { active: seq![listener] + self.active, ..idle },
                ListenersAction::Return(
                    Async::Ready(
                        ListenersEvent::Incoming {
                            listen_addrs: listener.addresses,
                            upgrade,
                            send_back_addr,
                        },
                    ),
                ),
            ),
            ListenersInput::Active { listener, polled: Ok(Async::Ready(None)) } => (
                idle,
                ListenersAction::Return(
                    Async::Ready(
                        ListenersEvent::Closed {
                            listen_addrs: listener.addresses,
                            listener: listener.listener,
                            result: Ok(()),
                        },
                    ),
                ),
            ),
            ListenersInput::Active { listener, polled: Err(e) } => (
                idle,
                ListenersAction::Return(
                    Async::Ready(
                        ListenersEvent::Closed {
                            listen_addrs: listener.addresses,
                            listener: listener.listener,
                            result: Err(e),
                        },
                    ),
                ),
            ),
        }
    }
}

/// Listens on many addresses and tells of new listeners, connections and closed listeners.
///
/// Create one with [`ListenersStream::new`], then call [`ListenersStream::listen_on`] for each
/// address. The stream never ends and never fails: if a listener fails or closes, an event tells
/// so, the listener is dropped, and the stream goes on.
pub struct ListenersStream<TTrans: Transport> {
    /// Transport used to spawn listeners.
    transport: TTrans,
    /// Pending listeners.
    futures: VecDeque<(Multiaddr, TTrans::ListenOn)>,
    /// All the active listeners.
    listeners: VecDeque<Listener<TTrans>>,
    /// Where a poll stands.
    turn: Turn,
}

impl<TTrans: Transport> View for ListenersStream<TTrans> {
    type V = ListenersState<TTrans>;

    closed spec fn view(&self) -> ListenersState<TTrans> {
        ListenersState { pending: self.futures@, active: self.listeners@, turn: self.turn }
    }
}

impl<TTrans: Transport> ListenersStream<TTrans> {
    /// The transport used to spawn listeners.
    pub closed spec fn spec_transport(&self) -> TTrans {
        self.transport
    }

    /// Starts a new stream of listeners.
    pub fn new(transport: TTrans) -> (r: Self)
        ensures
            r.spec_transport() == transport,
            r@.pending == Seq::<(Multiaddr, TTrans::ListenOn)>::empty(),
            r@.active == Seq::<Listener<TTrans>>::empty(),
            r@.turn == Turn::Idle,
    {
        ListenersStream {
            transport,
            futures: VecDeque::new(),
            listeners: VecDeque::new(),
            turn: Turn::Idle,
        }
    }

    /// Same as [`ListenersStream::new`], with memory for the given number of listeners.
    pub fn with_capacity(transport: TTrans, capacity: usize) -> (r: Self)
        ensures
            r.spec_transport() == transport,
            r@.pending == Seq::<(Multiaddr, TTrans::ListenOn)>::empty(),
            r@.active == Seq::<Listener<TTrans>>::empty(),
            r@.turn == Turn::Idle,
    {
        ListenersStream {
            transport,
            futures: VecDeque::with_capacity(capacity),
            listeners: VecDeque::with_capacity(capacity),
            turn: Turn::Idle,
        }
    }

    /// Start listening on an address.
    ///
    /// Gives the address back if the transport does not support it.
    pub fn listen_on(&mut self, addr: Multiaddr) -> (r: Result<(), Multiaddr>) where TTrans: Clone
        ensures
            final(self).spec_transport() == old(self).spec_transport(),
            final(self)@.active == old(self)@.active,
            final(self)@.turn == old(self)@.turn,
            exists|t: TTrans, asked: Result<TTrans::ListenOn, (TTrans, Multiaddr)>|
                {
                    &&& cloned(old(self).spec_transport(), t)
                    &&& #[trigger] call_ensures(TTrans::listen_on, (t, addr), asked)
                    &&& match asked {
                        Ok(future) => r is Ok && final(self)@.pending == old(self)@.pending.push(
                            (addr, future),
                        ),
                        Err((_, a)) => r == Err::<(), Multiaddr>(a) && final(self)@.pending
                            == old(self)@.pending,
                    }
                },
    {
        let transport = self.transport.clone();
        let asked = transport.listen_on(addr.clone());
        self.listen_on_asked(addr, asked)
    }

    /// Takes note of what the transport has answered to a request to listen on an address.
    pub fn listen_on_asked(
        &mut self,
        addr: Multiaddr,
        asked: Result<TTrans::ListenOn, (TTrans, Multiaddr)>,
    ) -> (r: Result<(), Multiaddr>)
        ensures
            final(self).spec_transport() == old(self).spec_transport(),
            final(self)@.active == old(self)@.active,
            final(self)@.turn == old(self)@.turn,
            match asked {
                Ok(future) => r is Ok && final(self)@.pending == old(self)@.pending.push(
                    (addr, future),
                ),
                Err((_, a)) => r == Err::<(), Multiaddr>(a) && final(self)@.pending == old(
                    self,
                )@.pending,
            },
    {
        match asked {
            Ok(future) => {
                self.futures.push_back((addr, future));
                Ok(())
            },
            Err((_, a)) => Err(a),
        }
    }

    /// Returns the transport passed when building this object.
    pub fn transport(&self) -> (r: &TTrans)
        ensures
            *r == self.spec_transport(),
    {
        &self.transport
    }

    /// Returns the addresses that each active listener is listening on.
    pub fn listeners(&self) -> (r: Vec<MultiaddrSeq>)
        ensures
            r@ == self@.active.map_values(|l: Listener<TTrans>| l.addresses),
    {
        let mut out: Vec<MultiaddrSeq> = Vec::new();
        let n: usize = self.listeners.len();
        let mut i: usize = 0;
        while i < n
            invariant
                n == self.listeners@.len(),
                i <= n,
                out@.len() == i,
                forall|j: int| 0 <= j < i ==> out@[j] == self.listeners@[j].addresses,
            decreases n - i,
        {
            out.push(self.listeners[i].addresses.clone());
            i += 1;
        }
        assert(out@ =~= self@.active.map_values(|l: Listener<TTrans>| l.addresses));
        out
    }

    fn ask_active(&mut self, remaining: usize) -> (r: ListenersAction<TTrans>)
        requires
            remaining <= old(self)@.active.len(),
        ensures
            final(self).spec_transport() == old(self).spec_transport(),
            (final(self)@, r) == old(self)@.ask_active(remaining as nat),
            final(self)@.wf(),
    {
        if remaining > 0 {
            if let Some(listener) = self.listeners.pop_back() {
                self.turn = Turn::Active(remaining);
                assert(self@.active =~= old(self)@.active.drop_last());
                return ListenersAction::PollActive { listener };
            }
        }
        self.turn = Turn::Idle;
        ListenersAction::Return(Async::NotReady)
    }

    fn ask_pending(&mut self, remaining: usize) -> (r: ListenersAction<TTrans>)
        requires
            remaining <= old(self)@.pending.len(),
        ensures
            final(self).spec_transport() == old(self).spec_transport(),
            (final(self)@, r) == old(self)@.ask_pending(remaining as nat),
            final(self)@.wf(),
    {
        if remaining > 0 {
            if let Some((address, future)) = self.futures.pop_front() {
                self.turn = Turn::Pending(remaining);
                assert(self@.pending =~= old(self)@.pending.drop_first());
                return ListenersAction::PollPending { address, future };
            }
        }
        let n: usize = self.listeners.len();
        self.ask_active(n)
    }

    /// Carries a poll one step forward.
    ///
    /// A poll begins with [`ListenersInput::Start`] and goes on, by polling what each action
    /// hands out, until an action is [`ListenersAction::Return`]. First every pending listener
    /// is asked once, in order, until one has started or failed. If none has, every active
    /// listener is asked once, from the last to the first, until one has something to tell.
    pub fn poll(&mut self, input: ListenersInput<TTrans>) -> (r: ListenersAction<TTrans>)
        requires
            old(self)@.wf(),
            old(self)@.accepts(input),
        ensures
            final(self).spec_transport() == old(self).spec_transport(),
            (final(self)@, r) == old(self)@.step(input),
            final(self)@.wf(),
    {
        match input {
            ListenersInput::Start => {
                let n: usize = self.futures.len();
                self.ask_pending(n)
            },
            ListenersInput::Pending { address, future, polled } => {
                let remaining: usize = match self.turn {
                    Turn::Pending(n) => n,
                    _ => 1,
                };
                match polled {
                    Ok(Async::NotReady) => {
                        self.futures.push_back((address, future));
                        self.ask_pending(remaining - 1)
                    },
                    Ok(Async::Ready((listener, addresses))) => {
                        self.turn = Turn::Idle;
                        self.listeners.push_back(
                            Listener { listener, addresses: addresses.clone() },
                        );
                        ListenersAction::Return(
                            Async::Ready(
                                ListenersEvent::Listener { address, result: Ok(addresses) },
                            ),
                        )
                    },
                    Err(e) => {
                        self.turn = Turn::Idle;
                        ListenersAction::Return(
                            Async::Ready(ListenersEvent::Listener { address, result: Err(e) }),
                        )
                    },
                }
            },
            ListenersInput::Active { listener, polled } => {
                let remaining: usize = match self.turn {
                    Turn::Active(n) => n,
                    _ => 1,
                };
                match polled {
                    Ok(Async::NotReady) => {
                        self.listeners.push_front(listener);
                        self.ask_active(remaining - 1)
                    },
                    Ok(Async::Ready(Some((upgrade, send_back_addr)))) => {
                        let listen_addrs = listener.addresses.clone();
                        self.turn = Turn::Idle;
                        self.listeners.push_front(listener);
                        ListenersAction::Return(
                            Async::Ready(
                                ListenersEvent::Incoming { listen_addrs, upgrade, send_back_addr },
                            ),
                        )
                    },
                    Ok(Async::Ready(None)) => {
                        self.turn = Turn::Idle;
                        ListenersAction::Return(
                            Async::Ready(
                                ListenersEvent::Closed {
                                    listen_addrs: listener.addresses,
                                    listener: listener.listener,
                                    result: Ok(()),
                                },
                            ),
                        )
                    },
                    Err(e) => {
                        self.turn = Turn::Idle;
                        ListenersAction::Return(
                            Async::Ready(
                                ListenersEvent::Closed {
                                    listen_addrs: listener.addresses,
                                    listener: listener.listener,
                                    result: Err(e),
                                },
                            ),
                        )
                    },
                }
            },
        }
    }
}

/// What polling a pending listener gave: the pending listener afterwards, and its answer.
pub type PendingAnswer<TTrans> = (
    <TTrans as Transport>::ListenOn,
    Poll<(<TTrans as Transport>::Listener, MultiaddrSeq), <TTrans as Transport>::Error>,
);

/// What polling an active listener gave: the listener afterwards, and its answer.
pub type ActiveAnswer<TTrans> = (
    <TTrans as Transport>::Listener,
    Poll<
        Option<(<TTrans as Transport>::ListenerUpgrade, Multiaddr)>,
        <TTrans as Transport>::Error,
    >,
);

impl<TTrans: Transport> ListenersState<TTrans> {
    /// What the rest of a poll comes to, when the pending listeners that are handed out answer
    /// as in `p` and the active ones as in `a`, each in turn.
    pub open spec fn drive(
        self,
        action: ListenersAction<TTrans>,
        p: Seq<PendingAnswer<TTrans>>,
        a: Seq<ActiveAnswer<TTrans>>,
    ) -> (Self, Async<ListenersEvent<TTrans>>)
        decreases p.len() + a.len(),
    {
        match action {
            ListenersAction::Return(r) => (self, r),
            ListenersAction::PollPending { address, future } => if p.len() == 0 {
                (self, Async::NotReady)
            } else {
                let (s, next) = self.step(
                    ListenersInput::Pending { address, future: p[0].0, polled: p[0].1 },
                );
                s.drive(next, p.drop_first(), a)
            },
            ListenersAction::PollActive { listener } => if a.len() == 0 {
                (self, Async::NotReady)
            } else {
                let (s, next) = self.step(
                    ListenersInput::Active {
                        listener: Listener { listener: a[0].0, addresses: listener.addresses },
                        polled: a[0].1,
                    },
                );
                s.drive(next, p, a.drop_first())
            },
        }
    }

    /// What a whole poll comes to, with answers as in [`ListenersState::drive`].
    pub open spec fn poll_run(
        self,
        p: Seq<PendingAnswer<TTrans>>,
        a: Seq<ActiveAnswer<TTrans>>,
    ) -> (Self, Async<ListenersEvent<TTrans>>) {
        let (s, action) = self.step(ListenersInput::Start);
        s.drive(action, p, a)
    }

    /// The first `k` pending listeners after they have answered.
    pub open spec fn asked_pending(self, p: Seq<PendingAnswer<TTrans>>, k: nat) -> Seq<
        (Multiaddr, TTrans::ListenOn),
    > {
        Seq::new(k, |j: int| (self.pending[j].0, p[j].0))
    }

    /// The last `k` active listeners after they have answered, the last one first to answer.
    pub open spec fn asked_active(self, a: Seq<ActiveAnswer<TTrans>>, k: nat) -> Seq<
        Listener<TTrans>,
    > {
        Seq::new(
            k,
            |j: int|
                Listener {
                    listener: a[k - 1 - j].0,
                    addresses: self.active[self.active.len() - k + j].addresses,
                },
        )
    }

    /// The first `k` answers of the pending listeners are that they are not ready.
    pub open spec fn pending_wait(p: Seq<PendingAnswer<TTrans>>, k: nat) -> bool {
        forall|j: int| 0 <= j < k ==> ((#[trigger] p[j]).1 matches Ok(Async::NotReady))
    }

    /// The first `k` answers of the active listeners are that they are not ready.
    pub open spec fn active_wait(a: Seq<ActiveAnswer<TTrans>>, k: nat) -> bool {
        forall|j: int| 0 <= j < k ==> ((#[trigger] a[j]).1 matches Ok(Async::NotReady))
    }

    /// The queues fit in memory.
    pub open spec fn fits(self) -> bool {
        self.pending.len() <= usize::MAX && self.active.len() <= usize::MAX
    }

    /// A poll in the middle of which `k` pending listeners have said that they are not ready.
    spec fn mid_pending(self, p: Seq<PendingAnswer<TTrans>>, k: nat, turn: Turn) -> Self {
        ListenersState {
            pending: self.pending.skip(k as int) + self.asked_pending(p, k),
            active: self.active,
            turn,
        }
    }

    /// A poll in the middle of which `k` active listeners have said that they are not ready.
    spec fn mid_active(self, a: Seq<ActiveAnswer<TTrans>>, k: nat, turn: Turn) -> Self {
        ListenersState {
            pending: self.pending,
            active: self.asked_active(a, k) + self.active.take(self.active.len() - k),
            turn,
        }
    }

    proof fn lemma_pending_waits(
        self,
        p: Seq<PendingAnswer<TTrans>>,
        a: Seq<ActiveAnswer<TTrans>>,
        k: nat,
    ) -> (turn: Turn)
        requires
            self.fits(),
            k <= self.pending.len(),
            k <= p.len(),
            Self::pending_wait(p, k),
        ensures
            ({
                let (s, action) = self.mid_pending(p, k, turn).ask_pending(
                    (self.pending.len() - k) as nat,
                );
                self.poll_run(p, a) == s.drive(action, p.skip(k as int), a)
            }),
        decreases k,
    {
        if k == 0 {
            assert(self.mid_pending(p, 0, self.turn).pending =~= self.pending);
            assert(p.skip(0) =~= p);
            self.turn
        } else {
            let i = (k - 1) as nat;
            let turn0 = self.lemma_pending_waits(p, a, i);
            let m = self.mid_pending(p, i, turn0);
            let n = (self.pending.len() - i) as nat;
            let (s, action) = m.ask_pending(n);
            assert(p.skip(i as int)[0] == p[i as int]);
            assert(p.skip(i as int).drop_first() =~= p.skip(k as int));
            let (s2, action2) = s.step(
                ListenersInput::Pending {
                    address: m.pending.first().0,
                    future: p[i as int].0,
                    polled: p[i as int].1,
                },
            );
            assert(s.pending.push((m.pending.first().0, p[i as int].0)) =~= self.mid_pending(
                p,
                k,
                s.turn,
            ).pending);
            assert(self.poll_run(p, a) == s2.drive(action2, p.skip(k as int), a));
            s.turn
        }
    }

    proof fn lemma_active_waits(
        self,
        p: Seq<PendingAnswer<TTrans>>,
        a: Seq<ActiveAnswer<TTrans>>,
        k: nat,
    ) -> (turn: Turn)
        requires
            self.fits(),
            k <= self.active.len(),
            k <= a.len(),
            Self::active_wait(a, k),
        ensures
            ({
                let (s0, action0) = self.ask_active(self.active.len());
                let (s, action) = self.mid_active(a, k, turn).ask_active(
                    (self.active.len() - k) as nat,
                );
                s0.drive(action0, p, a) == s.drive(action, p, a.skip(k as int))
            }),
        decreases k,
    {
        if k == 0 {
            assert(self.mid_active(a, 0, self.turn).active =~= self.active);
            assert(a.skip(0) =~= a);
            self.turn
        } else {
            let i = (k - 1) as nat;
            let turn0 = self.lemma_active_waits(p, a, i);
            let m = self.mid_active(a, i, turn0);
            let n = (self.active.len() - i) as nat;
            let (s, action) = m.ask_active(n);
            assert(a.skip(i as int)[0] == a[i as int]);
            assert(a.skip(i as int).drop_first() =~= a.skip(k as int));
            let listener = Listener::<TTrans> {
                listener: a[i as int].0,
                addresses: m.active.last().addresses,
            };
            let (s2, action2) = s.step(
                ListenersInput::Active { listener, polled: a[i as int].1 },
            );
            assert(seq![listener] + s.active =~= self.mid_active(a, k, s.turn).active);
            s.turn
        }
    }

    /// A poll asks the pending listeners in order. If the first `k` are not ready and the next
    /// one has started or failed, the poll tells so, and the `k` wait behind the others.
    pub proof fn law_pending_listener_starts(
        self,
        p: Seq<PendingAnswer<TTrans>>,
        a: Seq<ActiveAnswer<TTrans>>,
        k: nat,
    )
        requires
            self.fits(),
            k < self.pending.len(),
            k < p.len(),
            Self::pending_wait(p, k),
            !(p[k as int].1 matches Ok(Async::NotReady)),
        ensures
            ({
                let (s, r) = self.poll_run(p, a);
                let address = self.pending[k as int].0;
                &&& s.turn == Turn::Idle
                &&& s.pending == self.pending.skip(k as int + 1) + self.asked_pending(p, k)
                &&& match p[k as int].1 {
                    Ok(Async::Ready((listener, addresses))) => {
                        &&& s.active == self.active.push(Listener { listener, addresses })
                        &&& r == Async::Ready(
                            ListenersEvent::<TTrans>::Listener { address, result: Ok(addresses) },
                        )
                    },
                    Ok(Async::NotReady) => true,
                    Err(e) => {
                        &&& s.active == self.active
                        &&& r == Async::Ready(
                            ListenersEvent::<TTrans>::Listener { address, result: Err(e) },
                        )
                    },
                }
            }),
    {
        let turn = self.lemma_pending_waits(p, a, k);
        let m = self.mid_pending(p, k, turn);
        let (s, action) = m.ask_pending((self.pending.len() - k) as nat);
        assert(p.skip(k as int)[0] == p[k as int]);
        assert(m.pending.drop_first() =~= self.pending.skip(k as int + 1) + self.asked_pending(p, k));
        assert(m.pending.first() == self.pending[k as int]);
        reveal_with_fuel(ListenersState::drive, 2);
    }

    /// If no pending listener is ready, a poll asks the active listeners from the last to the
    /// first. If `k` are not ready and the next one has something to tell, the poll tells it.
    /// Those that were asked and are still open go to the front, the last one asked foremost.
    pub proof fn law_active_listener_tells(
        self,
        p: Seq<PendingAnswer<TTrans>>,
        a: Seq<ActiveAnswer<TTrans>>,
        k: nat,
    )
        requires
            self.fits(),
            p.len() == self.pending.len(),
            Self::pending_wait(p, p.len()),
            k < self.active.len(),
            k < a.len(),
            Self::active_wait(a, k),
            !(a[k as int].1 matches Ok(Async::NotReady)),
        ensures
            ({
                let (s, r) = self.poll_run(p, a);
                let addresses = self.active[self.active.len() - 1 - k].addresses;
                let rest = self.active.take(self.active.len() - 1 - k);
                &&& s.turn == Turn::Idle
                &&& s.pending == self.asked_pending(p, p.len())
                &&& match a[k as int].1 {
                    Ok(Async::Ready(Some((upgrade, send_back_addr)))) => {
                        &&& s.active == self.asked_active(a, k + 1) + rest
                        &&& r == Async::Ready(
                            ListenersEvent::<TTrans>::Incoming {
                                listen_addrs: addresses,
                                upgrade,
                                send_back_addr,
                            },
                        )
                    },
                    Ok(Async::Ready(None)) => {
                        &&& s.active == self.asked_active(a, k) + rest
                        &&& r == Async::Ready(
                            ListenersEvent::<TTrans>::Closed {
                                listen_addrs: addresses,
                                listener: a[k as int].0,
                                result: Ok(()),
                            },
                        )
                    },
                    Ok(Async::NotReady) => true,
                    Err(e) => {
                        &&& s.active == self.asked_active(a, k) + rest
                        &&& r == Async::Ready(
                            ListenersEvent::<TTrans>::Closed {
                                listen_addrs: addresses,
                                listener: a[k as int].0,
                                result: Err(e),
                            },
                        )
                    },
                }
            }),
    {
        let turn = self.lemma_pending_waits(p, a, p.len());
        let b = self.mid_pending(p, p.len(), turn);
        assert(b.pending =~= self.asked_pending(p, p.len()));
        assert(p.skip(p.len() as int).len() == 0);
        let q = p.skip(p.len() as int);
        let turn2 = b.lemma_active_waits(q, a, k);
        let m = b.mid_active(a, k, turn2);
        let (s, action) = m.ask_active((self.active.len() - k) as nat);
        assert(a.skip(k as int)[0] == a[k as int]);
        assert(m.active.last() == self.active[self.active.len() - 1 - k]);
        let rest = self.active.take(self.active.len() - 1 - k);
        assert(b.asked_active(a, k) =~= self.asked_active(a, k));
        assert(m.active.drop_last() =~= self.asked_active(a, k) + rest);
        let listener = Listener::<TTrans> {
            listener: a[k as int].0,
            addresses: m.active.last().addresses,
        };
        assert(seq![listener] + m.active.drop_last() =~= self.asked_active(a, k + 1) + rest);
        reveal_with_fuel(ListenersState::drive, 2);
    }

    /// If nothing is ready, a poll says so after asking everyone once, and both queues are as
    /// before, in the same order.
    pub proof fn law_nothing_is_ready(
        self,
        p: Seq<PendingAnswer<TTrans>>,
        a: Seq<ActiveAnswer<TTrans>>,
    )
        requires
            self.fits(),
            p.len() == self.pending.len(),
            a.len() == self.active.len(),
            Self::pending_wait(p, p.len()),
            Self::active_wait(a, a.len()),
        ensures
            ({
                let (s, r) = self.poll_run(p, a);
                &&& r == Async::<ListenersEvent<TTrans>>::NotReady
                &&& s.turn == Turn::Idle
                &&& s.pending == self.asked_pending(p, p.len())
                &&& s.active == self.asked_active(a, a.len())
            }),
    {
        let turn = self.lemma_pending_waits(p, a, p.len());
        let b = self.mid_pending(p, p.len(), turn);
        assert(b.pending =~= self.asked_pending(p, p.len()));
        let q = p.skip(p.len() as int);
        let turn2 = b.lemma_active_waits(q, a, a.len());
        let m = b.mid_active(a, a.len(), turn2);
        assert(m.active =~= self.asked_active(a, a.len()));
    }

    /// The state after as many polls as there are answers in `a`, when nothing is pending and
    /// the first listener asked in each poll answers as in `a`.
    pub open spec fn after_polls(self, a: Seq<ActiveAnswer<TTrans>>) -> Self
        decreases a.len(),
    {
        if a.len() == 0 {
            self
        } else {
            self.after_polls(a.drop_last()).poll_run(seq![], seq![a.last()]).0
        }
    }

    /// Each listener gets its turn: when every listener always has a connection to tell of, each
    /// of the next polls tells of another listener, from the last one to the first.
    pub proof fn law_each_listener_gets_its_turn(self, a: Seq<ActiveAnswer<TTrans>>)
        requires
            self.fits(),
            self.pending.len() == 0,
            a.len() <= self.active.len(),
            forall|j: int|
                0 <= j < a.len() ==> ((#[trigger] a[j]).1 matches Ok(Async::Ready(Some(_)))),
        ensures
            self.after_polls(a).pending == self.pending,
            self.after_polls(a).active == self.asked_active(a, a.len()) + self.active.take(
                self.active.len() - a.len(),
            ),
            a.len() > 0 ==> ({
                let n = a.len();
                let (upgrade, send_back_addr) = a.last().1->Ok_0->Ready_0->Some_0;
                self.after_polls(a.drop_last()).poll_run(seq![], seq![a.last()]).1 == Async::Ready(
                    ListenersEvent::<TTrans>::Incoming {
                        listen_addrs: self.active[self.active.len() - n].addresses,
                        upgrade,
                        send_back_addr,
                    },
                )
            }),
        decreases a.len(),
    {
        if a.len() == 0 {
            assert(self.asked_active(a, 0) + self.active.take(self.active.len() as int)
                =~= self.active);
        } else {
            let b = a.drop_last();
            assert forall|j: int| 0 <= j < b.len() implies ((#[trigger] b[j]).1 matches Ok(
                Async::Ready(Some(_)),
            )) by {
                assert(b[j] == a[j]);
            }
            self.law_each_listener_gets_its_turn(b);
            let s = self.after_polls(b);
            let one = seq![a.last()];
            assert(a[a.len() - 1] == a.last());
            s.law_active_listener_tells(seq![], one, 0);
            let t = self.after_polls(a);
            assert(t.pending =~= self.pending);
            assert(s.active.last() == self.active[self.active.len() - a.len()]);
            assert(t.active =~= self.asked_active(a, a.len()) + self.active.take(
                self.active.len() - a.len(),
            ));
        }
    }

    /// A poll begins with the first pending listener if there is one, else with the last active
    /// one; it is handed out with its address and leaves its queue, and no other one does.
    pub proof fn law_poll_begins(self)
        requires
            self.fits(),
        ensures
            ({
                let (s, action) = self.step(ListenersInput::Start);
                if self.pending.len() > 0 {
                    &&& action matches ListenersAction::PollPending { address, future } && seq![
                        (address, future),
                    ] + s.pending == self.pending
                    &&& s.active == self.active
                } else if self.active.len() > 0 {
                    &&& action matches ListenersAction::PollActive { listener } && s.active.push(
                        listener,
                    ) == self.active
                    &&& s.pending == self.pending
                } else {
                    &&& action == ListenersAction::<TTrans>::Return(Async::NotReady)
                    &&& s.pending == self.pending
                    &&& s.active == self.active
                }
            }),
    {
        if self.pending.len() > 0 {
            assert(seq![self.pending.first()] + self.pending.drop_first() =~= self.pending);
        } else if self.active.len() > 0 {
            assert(self.active.drop_last().push(self.active.last()) =~= self.active);
        }
    }

    /// A listener that is not ready is kept: with what is handed out next, there are as many
    /// pending and as many active listeners as before.
    pub proof fn law_waiting_listeners_are_kept(self, input: ListenersInput<TTrans>)
        requires
            self.fits(),
            self.wf(),
            self.accepts(input),
            (input matches ListenersInput::Pending { polled: Ok(Async::NotReady), .. }) || (
            input matches ListenersInput::Active { polled: Ok(Async::NotReady), .. }),
        ensures
            ({
                let (s, action) = self.step(input);
                let (p, a) = match input {
                    ListenersInput::Pending { .. } => (1nat, 0nat),
                    _ => (0nat, 1nat),
                };
                let (q, b) = match action {
                    ListenersAction::PollPending { .. } => (1nat, 0nat),
                    ListenersAction::PollActive { .. } => (0nat, 1nat),
                    ListenersAction::Return(_) => (0nat, 0nat),
                };
                &&& s.pending.len() + q == self.pending.len() + p
                &&& s.active.len() + b == self.active.len() + a
                &&& action matches ListenersAction::Return(r) ==> r is NotReady
            }),
    {
    }
}

} // verus!
