use vstd::prelude::*;

use crate::peer::Peer;

verus! {

/// The peers held after `adds` were appended one by one, in that order, to a
/// registry that held `start`: each `Registry::add` pushes one peer.
pub open spec fn after_adds(start: Seq<Peer>, adds: Seq<Peer>) -> Seq<Peer>
    decreases adds.len(),
{
    if adds.len() == 0 {
        start
    } else {
        after_adds(start.push(adds[0]), adds.drop_first())
    }
}

/// Appending peers one by one leaves the old peers in front and the new ones
/// behind them, in the order of the adds.
pub proof fn lemma_after_adds_appends(start: Seq<Peer>, adds: Seq<Peer>)
    ensures
        after_adds(start, adds) == start + adds,
    decreases adds.len(),
{
    if adds.len() == 0 {
        assert(start + adds =~= start);
    } else {
        lemma_after_adds_appends(start.push(adds[0]), adds.drop_first());
        assert(start.push(adds[0]) + adds.drop_first() =~= start + adds);
    }
}

/// Adds that race for the registry are applied one at a time, in the order in
/// which each gets exclusive access; that order, `granted`, holds the same
/// peers as `adds`, in some arrangement. Whatever it is, a fresh registry then
/// holds exactly the added peers: as many as were added, each as often as it
/// was added, and no peer twice where no two adds were alike.
pub proof fn lemma_racing_adds_keep_every_peer(adds: Seq<Peer>, granted: Seq<Peer>)
    requires
        granted.to_multiset() == adds.to_multiset(),
    ensures
        after_adds(Seq::empty(), granted).len() == adds.len(),
        after_adds(Seq::empty(), granted).to_multiset() == adds.to_multiset(),
        adds.no_duplicates() ==> after_adds(Seq::empty(), granted).no_duplicates(),
{
    lemma_after_adds_appends(Seq::empty(), granted);
    assert(Seq::<Peer>::empty() + granted =~= granted);
    granted.to_multiset_ensures();
    adds.to_multiset_ensures();
    if adds.no_duplicates() {
        adds.lemma_multiset_has_no_duplicates();
        granted.lemma_multiset_has_no_duplicates_conv();
    }
}

/// Adding the same peer twice leaves it on the registry twice: nothing is
/// deduplicated.
pub proof fn lemma_adding_twice_keeps_both(start: Seq<Peer>, peer: Peer)
    ensures
        after_adds(start, seq![peer, peer]) == start.push(peer).push(peer),
        after_adds(start, seq![peer, peer]).len() == start.len() + 2,
        after_adds(start, seq![peer, peer]).to_multiset().count(peer)
            == start.to_multiset().count(peer) + 2,
{
    lemma_after_adds_appends(start, seq![peer, peer]);
    assert(start + seq![peer, peer] =~= start.push(peer).push(peer));
    start.to_multiset_ensures();
    start.push(peer).to_multiset_ensures();
}

} // verus!
