use vstd::prelude::*;

verus! {

/// Identity of the network being indexed: its numeric id and its display
/// name, which also keys the chain's indexed-block set.
#[derive(Debug, Clone, PartialEq, Eq)]
pub struct Chain {
    pub id: i64,
    pub name: String,
}

impl Chain {
    pub fn new(id: i64, name: String) -> (r: Chain)
        ensures
            r.id == id,
            r.name@ == name@,
    {
        Chain { id, name }
    }
}

} // verus!
