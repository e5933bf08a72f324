use vstd::prelude::*;

use crate::peer::Peer;

verus! {

/// The known peers, in the order in which they were added.
///
/// Any address is accepted and nothing is deduplicated: the same peer added
/// twice stands twice.
pub struct Registry {
    peers: Vec<Peer>,
}

impl View for Registry {
    type V = Seq<Peer>;

    closed spec fn view(&self) -> Seq<Peer> {
        self.peers@
    }
}

impl Registry {
    /// An empty registry.
    pub fn new() -> (r: Registry)
        ensures
            r@ == Seq::<Peer>::empty(),
    {
        Registry { peers: Vec::new() }
    }

    /// The number of peers held.
    pub fn len(&self) -> (r: usize)
        ensures
            r == self@.len(),
    {
        self.peers.len()
    }

    /// A copy of every peer held, in order.
    pub fn list(&self) -> (r: Vec<Peer>)
        ensures
            r@ == self@,
    {
        let mut out: Vec<Peer> = Vec::with_capacity(self.peers.len());
        let mut i: usize = 0;
        while i < self.peers.len()
            invariant
                i <= self.peers@.len(),
                out@ == self.peers@.subrange(0, i as int),
            decreases self.peers@.len() - i,
        {
            out.push(self.peers[i].clone());
            i = i + 1;
        }
        assert(out@ =~= self.peers@);
        out
    }

    /// Appends `peer` at the end and hands it back unchanged.
    pub fn add(&mut self, peer: Peer) -> (r: Peer)
        ensures
            r == peer,
            final(self)@ == old(self)@.push(peer),
    {
        let echo = peer.clone();
        self.peers.push(peer);
        echo
    }
}

} // verus!
