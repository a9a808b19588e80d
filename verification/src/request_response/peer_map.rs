//! A map from peers to values.

use crate::address::PeerId;
use vstd::prelude::*;

verus! {

/// A map from peers to values.
pub struct PeerMap<V> {
    entries: Vec<(PeerId, V)>,
}

impl<V> View for PeerMap<V> {
    type V = Map<Seq<u8>, V>;

    closed spec fn view(&self) -> Map<Seq<u8>, V> {
        Map::new(|k: Seq<u8>| self.has(k), |k: Seq<u8>| self.entries@[self.position(k)].1)
    }
}

impl<V> PeerMap<V> {
    /// The entry at `i` is for the peer `k`.
    closed spec fn at(&self, i: int, k: Seq<u8>) -> bool {
        0 <= i < self.entries@.len() && self.entries@[i].0@ == k
    }

    /// There is an entry for the peer `k`.
    closed spec fn has(&self, k: Seq<u8>) -> bool {
        exists|i: int| self.at(i, k)
    }

    /// Where the entry for the peer `k` stands.
    closed spec fn position(&self, k: Seq<u8>) -> int {
        choose|i: int| self.at(i, k)
    }

    /// No peer has two entries.
    pub closed spec fn wf(&self) -> bool {
        forall|i: int, j: int|
            0 <= i < j < self.entries@.len() ==> #[trigger] self.entries@[i].0@
                != #[trigger] self.entries@[j].0@
    }

    proof fn lemma_position(&self, i: int, k: Seq<u8>)
        requires
            self.wf(),
            self.at(i, k),
        ensures
            self.has(k),
            self.position(k) == i,
            self@.contains_key(k),
            self@[k] == self.entries@[i].1,
    {
        let j = self.position(k);
        assert(self.at(j, k));
        assert(self.entries@[i].0@ == self.entries@[j].0@);
        if i < j {
        } else if j < i {
        }
    }

    /// Setting the value at `i` is an insertion.
    proof fn lemma_set(a: Self, b: Self, i: int, k: Seq<u8>, entry: (PeerId, V))
        requires
            a.wf(),
            a.at(i, k),
            entry.0@ == k,
            b.entries@ == a.entries@.update(i, entry),
        ensures
            b.wf(),
            b@ == a@.insert(k, entry.1),
    {
        assert forall|x: int, y: int| 0 <= x < y < b.entries@.len() implies #[trigger] b.entries@[x].0@
            != #[trigger] b.entries@[y].0@ by {
            assert(a.entries@[x].0@ != a.entries@[y].0@);
        }
        Self::lemma_same_values(a, b, i, k);
        b.lemma_position(i, k);
        assert(b@ =~= a@.insert(k, entry.1));
    }

    /// Two maps whose entries agree but at `i`, where both have one for the peer `k`, agree on
    /// all other peers.
    proof fn lemma_same_values(a: Self, b: Self, i: int, k: Seq<u8>)
        requires
            a.wf(),
            b.wf(),
            a.at(i, k),
            b.at(i, k),
            a.entries@.len() == b.entries@.len(),
            forall|j: int|
                0 <= j < a.entries@.len() && j != i ==> #[trigger] a.entries@[j] == b.entries@[j],
        ensures
            forall|q: Seq<u8>| q != k ==> #[trigger] a@.contains_key(q) == b@.contains_key(q),
            forall|q: Seq<u8>| q != k && a@.contains_key(q) ==> #[trigger] a@[q] == b@[q],
    {
        assert forall|q: Seq<u8>| q != k implies #[trigger] a@.contains_key(q) == b@.contains_key(q)
            && (a@.contains_key(q) ==> a@[q] == b@[q]) by {
            if a.has(q) {
                let j = a.position(q);
                assert(a.at(j, q));
                assert(b.at(j, q));
                b.lemma_position(j, q);
            }
            if b.has(q) {
                let j = b.position(q);
                assert(b.at(j, q));
                assert(a.at(j, q));
            }
        }
    }

    /// A value for a new peer at the end is an insertion.
    proof fn lemma_push(a: Self, b: Self, entry: (PeerId, V))
        requires
            a.wf(),
            !a.has(entry.0@),
            b.entries@ == a.entries@.push(entry),
        ensures
            b.wf(),
            b@ == a@.insert(entry.0@, entry.1),
    {
        let n = a.entries@.len() as int;
        let k = entry.0@;
        assert forall|x: int, y: int| 0 <= x < y < b.entries@.len() implies #[trigger] b.entries@[x].0@
            != #[trigger] b.entries@[y].0@ by {
            assert(!a.at(x, k));
        }
        assert(b.at(n, k));
        b.lemma_position(n, k);
        assert forall|q: Seq<u8>| q != k implies #[trigger] a@.contains_key(q) == b@.contains_key(q)
            && (a@.contains_key(q) ==> a@[q] == b@[q]) by {
            if a.has(q) {
                let j = a.position(q);
                assert(a.at(j, q));
                assert(b.at(j, q));
                b.lemma_position(j, q);
            }
            if b.has(q) {
                let j = b.position(q);
                assert(b.at(j, q));
                assert(a.at(j, q));
            }
        }
        assert(b@ =~= a@.insert(k, entry.1));
    }

    /// Taking the entry at `i` out is a removal.
    proof fn lemma_cut(a: Self, b: Self, i: int, k: Seq<u8>)
        requires
            a.wf(),
            a.at(i, k),
            b.entries@ == a.entries@.remove(i),
        ensures
            b.wf(),
            b@ == a@.remove(k),
    {
        assert forall|x: int, y: int| 0 <= x < y < b.entries@.len() implies #[trigger] b.entries@[x].0@
            != #[trigger] b.entries@[y].0@ by {
            let p = if x < i { x } else { x + 1 };
            let q = if y < i { y } else { y + 1 };
            assert(a.entries@[p].0@ != a.entries@[q].0@);
        }
        a.lemma_position(i, k);
        assert forall|q: Seq<u8>| #[trigger] b@.contains_key(q) == (q != k && a@.contains_key(q))
            && (b@.contains_key(q) ==> a@[q] == b@[q]) by {
            if a.has(q) && q != k {
                let j = a.position(q);
                assert(a.at(j, q));
                let p = if j < i { j } else { j - 1 };
                assert(b.at(p, q));
                b.lemma_position(p, q);
            }
            if b.has(q) {
                let p = b.position(q);
                assert(b.at(p, q));
                let j = if p < i { p } else { p + 1 };
                assert(a.at(j, q));
                a.lemma_position(j, q);
                assert(j != i);
            }
        }
        assert(b@ =~= a@.remove(k));
    }

    /// The empty map.
    pub fn new() -> (r: Self)
        ensures
            r.wf(),
            r@ == Map::<Seq<u8>, V>::empty(),
    {
        let r = PeerMap { entries: Vec::new() };
        assert(r@ =~= Map::<Seq<u8>, V>::empty());
        r
    }

    fn find(&self, peer: &PeerId) -> (r: Option<usize>)
        requires
            self.wf(),
        ensures
            match r {
                Some(i) => self.at(i as int, peer@),
                None => !self.has(peer@),
            },
    {
        let n: usize = self.entries.len();
        let mut i: usize = 0;
        while i < n
            invariant
                n == self.entries@.len(),
                i <= n,
                forall|j: int| 0 <= j < i ==> self.entries@[j].0@ != peer@,
            decreases n - i,
        {
            if self.entries[i].0.same(peer) {
                return Some(i);
            }
            i += 1;
        }
        None
    }

    /// Is there a value for the peer?
    pub fn contains_key(&self, peer: &PeerId) -> (r: bool)
        requires
            self.wf(),
        ensures
            r == self@.contains_key(peer@),
    {
        self.find(peer).is_some()
    }

    /// The value for the peer.
    pub fn get(&self, peer: &PeerId) -> (r: Option<&V>)
        requires
            self.wf(),
        ensures
            match r {
                Some(v) => self@.contains_key(peer@) && *v == self@[peer@],
                None => !self@.contains_key(peer@),
            },
    {
        match self.find(peer) {
            Some(i) => {
                proof {
                    self.lemma_position(i as int, peer@);
                }
                Some(&self.entries[i].1)
            },
            None => None,
        }
    }

    /// The value for the peer, to be changed.
    pub fn get_mut(&mut self, peer: &PeerId) -> (r: Option<&mut V>)
        requires
            old(self).wf(),
        ensures
            final(self).wf(),
            match r {
                Some(v) => old(self)@.contains_key(peer@) && *v == old(self)@[peer@] && final(self)@ == old(self)@.insert(peer@, *final(v)),
                None => !old(self)@.contains_key(peer@) && *final(self) == *old(self),
            },
    {
        match self.find(peer) {
            Some(i) => {
                proof {
                    self.lemma_position(i as int, peer@);
                    let ghost m = *old(self);
                    assert forall|b: Self, v: V|
                        #![trigger m.entries@.update(i as int, (m.entries@[i as int].0, v)), b.entries]
                        b.entries@ == m.entries@.update(i as int, (m.entries@[i as int].0, v)) implies b.wf()
                        && b@ == m@.insert(peer@, v) by {
                        Self::lemma_set(m, b, i as int, peer@, (m.entries@[i as int].0, v));
                    }
                }
                let entry = &mut self.entries[i];
                Some(&mut entry.1)
            },
            None => None,
        }
    }

    /// Sets the value for the peer.
    pub fn insert(&mut self, peer: PeerId, value: V)
        requires
            old(self).wf(),
        ensures
            final(self).wf(),
            final(self)@ == old(self)@.insert(peer@, value),
    {
        match self.find(&peer) {
            Some(i) => {
                self.entries[i] = (peer, value);
                proof {
                    Self::lemma_set(*old(self), *self, i as int, peer@, (peer, value));
                }
            },
            None => {
                self.entries.push((peer, value));
                proof {
                    Self::lemma_push(*old(self), *self, (peer, value));
                }
            },
        }
    }

    /// Removes the value for the peer.
    pub fn remove(&mut self, peer: &PeerId) -> (r: Option<V>)
        requires
            old(self).wf(),
        ensures
            final(self).wf(),
            final(self)@ == old(self)@.remove(peer@),
            match r {
                Some(v) => old(self)@.contains_key(peer@) && v == old(self)@[peer@],
                None => !old(self)@.contains_key(peer@),
            },
    {
        match self.find(peer) {
            Some(i) => {
                let (_, value) = self.entries.remove(i);
                proof {
                    old(self).lemma_position(i as int, peer@);
                    Self::lemma_cut(*old(self), *self, i as int, peer@);
                }
                Some(value)
            },
            None => {
                assert(self@ =~= self@.remove(peer@));
                None
            },
        }
    }
}

} // verus!
