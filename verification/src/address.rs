//! Network addresses and identifiers of peers.

use std::sync::Arc;
use vstd::prelude::*;

verus! {

/// One component of a [`Multiaddr`].
#[derive(Debug, PartialEq, Eq)]
pub enum Protocol {
    /// A Curve25519 public key.
    Curve25519([u8; 32]),
    /// Any other component, in its textual form.
    Other(Arc<Vec<u8>>),
}

impl Clone for Protocol {
    fn clone(&self) -> (r: Self)
        ensures
            r == *self,
    {
        match self {
            Protocol::Curve25519(key) => Protocol::Curve25519(*key),
            Protocol::Other(text) => Protocol::Other(text.clone()),
        }
    }
}

/// A way to reach a node: a sequence of protocol components.
#[derive(Debug, PartialEq, Eq)]
pub struct Multiaddr {
    components: Arc<Vec<Protocol>>,
}

impl View for Multiaddr {
    type V = Seq<Protocol>;

    closed spec fn view(&self) -> Seq<Protocol> {
        self.components@
    }
}

impl Clone for Multiaddr {
    fn clone(&self) -> (r: Self)
        ensures
            r == *self,
    {
        Multiaddr { components: self.components.clone() }
    }
}

impl Multiaddr {
    /// The address made of the given components.
    pub fn from_components(components: Vec<Protocol>) -> (r: Self)
        ensures
            r@ == components@,
    {
        Multiaddr { components: Arc::new(components) }
    }

    /// Takes the last component off the address.
    pub fn pop(&mut self) -> (r: Option<Protocol>)
        ensures
            old(self)@.len() == 0 ==> r is None && final(self)@ == old(self)@,
            old(self)@.len() > 0 ==> r == Some(old(self)@.last()) && final(self)@
                == old(self)@.drop_last(),
    {
        let n: usize = self.components.len();
        if n == 0 {
            return None;
        }
        let last = self.components[n - 1].clone();
        let mut rest: Vec<Protocol> = Vec::new();
        let mut i: usize = 0;
        while i < n - 1
            invariant
                n == self.components@.len(),
                n > 0,
                i <= n - 1,
                rest@ =~= self.components@.take(i as int),
            decreases n - i,
        {
            rest.push(self.components[i].clone());
            i += 1;
        }
        assert(rest@ =~= self.components@.drop_last());
        self.components = Arc::new(rest);
        Some(last)
    }

    /// Adds a component at the end of the address.
    pub fn append(&mut self, protocol: Protocol)
        ensures
            final(self)@ == old(self)@.push(protocol),
    {
        let n: usize = self.components.len();
        let mut all: Vec<Protocol> = Vec::new();
        let mut i: usize = 0;
        while i < n
            invariant
                n == self.components@.len(),
                i <= n,
                all@ =~= self.components@.take(i as int),
            decreases n - i,
        {
            all.push(self.components[i].clone());
            i += 1;
        }
        all.push(protocol);
        assert(all@ =~= self.components@.push(protocol));
        self.components = Arc::new(all);
    }
}

/// One or more addresses of a listener.
#[derive(Debug, PartialEq, Eq)]
pub struct MultiaddrSeq {
    first: Multiaddr,
    others: Arc<Vec<Multiaddr>>,
}

impl View for MultiaddrSeq {
    type V = Seq<Multiaddr>;

    closed spec fn view(&self) -> Seq<Multiaddr> {
        seq![self.first] + self.others@
    }
}

impl Clone for MultiaddrSeq {
    fn clone(&self) -> (r: Self)
        ensures
            r == *self,
    {
        MultiaddrSeq { first: self.first.clone(), others: self.others.clone() }
    }
}

impl MultiaddrSeq {
    /// The sequence that holds one address.
    pub fn singleton(addr: Multiaddr) -> (r: Self)
        ensures
            r@ == seq![addr],
    {
        let r = MultiaddrSeq { first: addr, others: Arc::new(Vec::new()) };
        assert(r@ =~= seq![addr]);
        r
    }

    /// The first address.
    pub fn head(&self) -> (r: &Multiaddr)
        ensures
            self@.len() > 0,
            *r == self@[0],
    {
        &self.first
    }
}

/// Identifier of a peer.
#[derive(Debug, PartialEq, Eq)]
pub struct PeerId {
    bytes: Arc<Vec<u8>>,
}

impl View for PeerId {
    type V = Seq<u8>;

    closed spec fn view(&self) -> Seq<u8> {
        self.bytes@
    }
}

impl Clone for PeerId {
    fn clone(&self) -> (r: Self)
        ensures
            r == *self,
    {
        PeerId { bytes: self.bytes.clone() }
    }
}

impl PeerId {
    /// The identifier made of the given bytes.
    pub fn from_bytes(bytes: Vec<u8>) -> (r: Self)
        ensures
            r@ == bytes@,
    {
        PeerId { bytes: Arc::new(bytes) }
    }

    /// Do both identifiers name the same peer?
    pub fn same(&self, other: &PeerId) -> (r: bool)
        ensures
            r == (self@ == other@),
    {
        same_bytes(self.bytes.as_slice(), other.bytes.as_slice())
    }
}

/// Are the two byte strings equal?
pub fn same_bytes(a: &[u8], b: &[u8]) -> (r: bool)
    ensures
        r == (a@ == b@),
{
    if a.len() != b.len() {
        return false;
    }
    let n: usize = a.len();
    let mut i: usize = 0;
    while i < n
        invariant
            n == a@.len(),
            n == b@.len(),
            i <= n,
            forall|j: int| 0 <= j < i ==> a@[j] == b@[j],
        decreases n - i,
    {
        if a[i] != b[i] {
            return false;
        }
        i += 1;
    }
    assert(a@ =~= b@);
    true
}

} // verus!
