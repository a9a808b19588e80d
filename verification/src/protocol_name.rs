//! Things that have a name on the wire.

use vstd::prelude::*;

verus! {

/// Something that has a protocol name.
pub trait ProtocolName {
    /// The name.
    spec fn name(&self) -> Seq<u8>;

    /// The name as it goes on the wire.
    fn protocol_name(&self) -> (r: &[u8])
        ensures
            r@ == self.name(),
    ;
}

impl ProtocolName for Vec<u8> {
    open spec fn name(&self) -> Seq<u8> {
        self@
    }

    fn protocol_name(&self) -> (r: &[u8]) {
        self.as_slice()
    }
}

/// The names of several things.
pub open spec fn names<N: ProtocolName>(list: Seq<N>) -> Seq<Seq<u8>> {
    Seq::new(list.len(), |i: int| list[i].name())
}

/// A copy of a name.
pub fn copy_name(name: &[u8]) -> (r: Vec<u8>)
    ensures
        r@ == name@,
{
    let mut r: Vec<u8> = Vec::new();
    r.extend_from_slice(name);
    assert(r@ =~= name@);
    r
}

/// The names of protocols are their names, one for each and in their order.
pub proof fn law_names_are_the_names<N: ProtocolName>(protocols: Seq<N>)
    ensures
        names(protocols).len() == protocols.len(),
        forall|i: int|
            0 <= i < protocols.len() ==> #[trigger] names(protocols)[i] == protocols[i].name(),
{
}

} // verus!
