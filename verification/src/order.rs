//! The order in which an idle worker visits its peers when it looks for work
//! to steal: a fresh random rearrangement of all peer indices on every search,
//! so that no peer becomes the habitual first victim.

use vstd::prelude::*;
use rand::seq::SliceRandom;

verus! {

/// The peer indices `0, 1, .., n - 1` in increasing order.
pub open spec fn in_turn(n: nat) -> Seq<usize> {
    Seq::new(n, |i: int| i as usize)
}

/// `order` is a rearrangement of the indices of `n` peers: it holds each of
/// `0, 1, .., n - 1` as often as `in_turn(n)` does, and nothing else.
pub open spec fn is_steal_order(order: Seq<usize>, n: nat) -> bool {
    order.to_multiset() =~= in_turn(n).to_multiset()
}

/// A steal order over `n` peers has `n` entries, each the index of a peer, no
/// index twice, and every peer among them: a search that walks it to the end
/// has tried every peer exactly once.
pub proof fn lemma_steal_order_visits_each_peer_once(order: Seq<usize>, n: nat)
    requires
        is_steal_order(order, n),
        n <= usize::MAX,
    ensures
        order.len() == n,
        order.no_duplicates(),
        forall|j: int| 0 <= j < order.len() ==> order[j] < n,
        forall|k: usize| k < n ==> order.contains(k),
{
    broadcast use vstd::seq_lib::group_to_multiset_ensures;

    let plain = in_turn(n);
    assert(order.len() == n) by {
        assert(order.to_multiset().len() == order.len());
        assert(plain.to_multiset().len() == plain.len());
    }
    assert(plain.no_duplicates());
    plain.lemma_multiset_has_no_duplicates();
    order.lemma_multiset_has_no_duplicates_conv();
    assert forall|j: int| 0 <= j < order.len() implies order[j] < n by {
        assert(order.contains(order[j]));
        assert(order.to_multiset().count(order[j]) > 0);
        assert(plain.to_multiset().count(order[j]) > 0);
        assert(plain.contains(order[j]));
    }
    assert forall|k: usize| k < n implies order.contains(k) by {
        assert(plain[k as int] == k);
        assert(plain.contains(k));
        assert(plain.to_multiset().count(k) > 0);
        assert(order.to_multiset().count(k) > 0);
    }
}

/// The indices of `n` peers in increasing order.
fn peers_in_turn(n: usize) -> (order: Vec<usize>)
    ensures
        order@ == in_turn(n as nat),
{
    let mut order: Vec<usize> = Vec::with_capacity(n);
    let mut i: usize = 0;
    while i < n
        invariant
            i <= n,
            order@ == in_turn(i as nat),
        decreases n - i,
    {
        order.push(i);
        i = i + 1;
    }
    order
}

/// `SliceRandom::shuffle` with the generator of `rand::thread_rng`: rearranges
/// the entries in place by swapping pairs of them. Which rearrangement comes
/// out is left to chance; that it is one, entries neither lost nor added,
/// holds of every outcome.
///
/// The generator is seeded by the operating system when a thread first uses
/// it; on a system that cannot give the seed, that first call panics.
#[verifier::external_body]
fn shuffle(order: &mut Vec<usize>)
    ensures
        final(order)@.to_multiset() == old(order)@.to_multiset(),
{
    let mut rng = rand::thread_rng();
    order.shuffle(&mut rng);
}

/// A fresh steal order over `n` peers.
pub fn steal_order(n: usize) -> (order: Vec<usize>)
    ensures
        is_steal_order(order@, n as nat),
{
    let mut order = peers_in_turn(n);
    shuffle(&mut order);
    order
}

} // verus!
