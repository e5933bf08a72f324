use vstd::prelude::*;

verus! {

/// A remote node, known by a single free-form address.
#[derive(Debug)]
pub struct Peer {
    pub address: String,
}

impl Peer {
    /// Makes a peer with the given address, taken as it is.
    pub fn new(address: String) -> (r: Peer)
        ensures
            r.address == address,
    {
        Peer { address }
    }
}

impl Clone for Peer {
    fn clone(&self) -> (r: Peer)
        ensures
            r == *self,
    {
        Peer { address: self.address.clone() }
    }
}

impl PartialEq for Peer {
    fn eq(&self, other: &Peer) -> (r: bool)
        ensures
            r == (self.address@ == other.address@),
    {
        self.address == other.address
    }
}

impl vstd::std_specs::cmp::PartialEqSpecImpl for Peer {
    open spec fn obeys_eq_spec() -> bool {
        true
    }

    open spec fn eq_spec(&self, other: &Peer) -> bool {
        self.address@ == other.address@
    }
}

} // verus!
