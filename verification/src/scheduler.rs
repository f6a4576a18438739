//! How one worker looks for its next message.

use std::sync::Arc;
use vstd::prelude::*;
use crossbeam_deque::{Injector, Stealer, Worker};
use crate::deque::{injector_steal, local_pop, queue_of, stealer_steal, target_of};
use crate::order::{is_steal_order, lemma_steal_order_visits_each_peer_once, steal_order};
use crate::task::{action_for, next_action, Action, Attempt, Message};

verus! {

/// What one search tried and what every attempt gave, in the order in which
/// the attempts were made.
pub struct Tried {
    /// What the worker's own queue gave. This attempt is always made.
    pub local: Option<Message>,
    /// What the attempt on the injector gave, if one was made.
    pub injector: Option<Attempt>,
    /// The steal order that was drawn, if the search got as far as the peers.
    pub order: Option<Vec<usize>>,
    /// What the attempts on the peers gave: entry `k` is the attempt on the
    /// peer at position `order[k]`.
    pub peers: Seq<Attempt>,
}

/// What a walk along the peers gave: the message of the last attempt, if
/// there was an attempt.
pub open spec fn last_yield(attempts: Seq<Attempt>) -> Option<Message> {
    if attempts.len() > 0 {
        attempts.last().message()
    } else {
        None
    }
}

/// `attempts` is what a walk along `peers` peers gave, one attempt per peer
/// in the order of the walk: every attempt but the last yielded nothing, and
/// a walk that found nothing went all the way to the end.
pub open spec fn walked(attempts: Seq<Attempt>, peers: nat) -> bool {
    &&& attempts.len() <= peers
    &&& forall|k: int| 0 <= k < attempts.len() - 1 ==> (#[trigger] attempts[k]).message() is None
    &&& last_yield(attempts) is None ==> attempts.len() == peers
}

impl Tried {
    /// The message that the search ends with: the first one that an attempt
    /// in the record yielded.
    pub open spec fn found(self) -> Option<Message> {
        if self.local is Some {
            self.local
        } else if self.injector is Some && self.injector.unwrap().message() is Some {
            self.injector.unwrap().message()
        } else {
            last_yield(self.peers)
        }
    }

    /// The record is that of one search in priority order: the own queue
    /// first; the injector only if the own queue gave nothing; the peers only
    /// if the injector gave nothing either, an attempt that was crossed by
    /// another thread counting as nothing and not being repeated; the peers
    /// in the order drawn, one attempt each, up to the first message; and all
    /// of them where nothing was found.
    pub open spec fn in_search_order(self) -> bool {
        &&& self.local is Some ==> self.injector is None
        &&& self.local is None ==> self.injector is Some
        &&& self.order is Some <==> (self.injector is Some && self.injector.unwrap().message()
            is None)
        &&& self.order is None ==> self.peers.len() == 0
        &&& self.order matches Some(order) ==> walked(self.peers, order@.len())
    }

    /// The record is that of one search among `peers` peers that ended with
    /// `found`.
    pub open spec fn is_search(self, peers: nat, found: Option<Message>) -> bool {
        &&& self.in_search_order()
        &&& found == self.found()
        &&& self.order matches Some(order) ==> is_steal_order(order@, peers)
    }
}

/// `attempts` and `found` are what a walk along the peers in `order` gave,
/// where `peer` makes the attempt on the peer at a given position.
pub open spec fn stolen_in_order<S>(
    peer: S,
    order: Seq<usize>,
    attempts: Seq<Attempt>,
    found: Option<Message>,
) -> bool where S: Fn(usize) -> Attempt {
    &&& walked(attempts, order.len())
    &&& found == last_yield(attempts)
    &&& forall|k: int|
        0 <= k < attempts.len() ==> peer.ensures((order[k],), #[trigger] attempts[k])
}

/// `tried` and `found` are the record and the result of one search in which
/// `pop` asks the worker's own queue, `steal` the injector, `draw` draws the
/// steal order and `peer` asks the peer at a given position: the record is in
/// search order, every entry of it is what the source in question gave, and
/// the result is the first message in it.
pub open spec fn searched<P, G, D, S>(
    pop: P,
    steal: G,
    draw: D,
    peer: S,
    tried: Tried,
    found: Option<Message>,
) -> bool where
    P: FnOnce() -> Option<Message>,
    G: FnOnce() -> Attempt,
    D: FnOnce() -> Vec<usize>,
    S: Fn(usize) -> Attempt,
 {
    &&& tried.in_search_order()
    &&& found == tried.found()
    &&& pop.ensures((), tried.local)
    &&& tried.injector matches Some(attempt) ==> steal.ensures((), attempt)
    &&& tried.order matches Some(order) ==> {
        &&& draw.ensures((), order)
        &&& stolen_in_order(peer, order@, tried.peers, last_yield(tried.peers))
    }
}

/// A search that finds nothing has asked every source once and got nothing
/// from any: the own queue, the injector, and each of the peers.
pub proof fn lemma_nothing_found_after_every_source(tried: Tried, peers: nat)
    requires
        tried.is_search(peers, None),
        peers <= usize::MAX,
    ensures
        tried.local is None,
        tried.injector is Some && tried.injector.unwrap().message() is None,
        tried.order is Some,
        tried.peers.len() == peers,
        forall|k: int| 0 <= k < peers ==> (#[trigger] tried.peers[k]).message() is None,
        forall|position: usize| position < peers ==> tried.order.unwrap()@.contains(position),
        tried.order.unwrap()@.no_duplicates(),
{
    let order = tried.order.unwrap()@;
    lemma_steal_order_visits_each_peer_once(order, peers);
    assert forall|k: int| 0 <= k < peers implies (#[trigger] tried.peers[k]).message() is None by {
        if k == peers - 1 {
            assert(tried.peers.last() == tried.peers[k]);
        }
    }
}

/// No peer is passed over: a walk in a steal order finds a message whenever
/// some peer is sure to yield one, whatever the order is.
pub proof fn lemma_yielding_peer_is_found<S>(
    peer: S,
    order: Seq<usize>,
    attempts: Seq<Attempt>,
    found: Option<Message>,
    peers: nat,
    position: usize,
) where S: Fn(usize) -> Attempt
    requires
        stolen_in_order(peer, order, attempts, found),
        is_steal_order(order, peers),
        peers <= usize::MAX,
        position < peers,
        forall|attempt: Attempt|
            peer.ensures((position,), attempt) ==> (#[trigger] attempt.message()) is Some,
    ensures
        found is Some,
{
    lemma_steal_order_visits_each_peer_once(order, peers);
    if found is None {
        assert(order.contains(position));
        let k = choose|k: int| 0 <= k < order.len() && order[k] == position;
        assert(peer.ensures((order[k],), attempts[k]));
        assert(attempts[k].message() is Some);
        if k == attempts.len() - 1 {
            assert(attempts.last() == attempts[k]);
        }
    }
}

/// Tries the peers at the positions that `order` lists, in that order, one
/// attempt each, and stops at the first message. Returns that message, and
/// what each attempt gave.
pub fn steal_in_order<S>(peer: S, order: &Vec<usize>) -> (r: (Option<Message>, Ghost<Seq<Attempt>>))
    where S: Fn(usize) -> Attempt
    requires
        forall|k: int| 0 <= k < order@.len() ==> peer.requires((#[trigger] order@[k],)),
    ensures
        stolen_in_order(peer, order@, r.1@, r.0),
{
    let ghost mut attempts: Seq<Attempt> = Seq::empty();
    let mut k: usize = 0;
    while k < order.len()
        invariant
            k <= order@.len(),
            attempts.len() == k,
            forall|j: int| 0 <= j < order@.len() ==> peer.requires((#[trigger] order@[j],)),
            forall|j: int| 0 <= j < k ==> (#[trigger] attempts[j]).message() is None,
            forall|j: int| 0 <= j < k ==> peer.ensures((order@[j],), #[trigger] attempts[j]),
        decreases order@.len() - k,
    {
        let attempt = peer(order[k]);
        proof {
            attempts = attempts.push(attempt);
        }
        if let Some(m) = attempt.taken() {
            return (Some(m), Ghost(attempts));
        }
        k = k + 1;
    }
    (None, Ghost(attempts))
}

/// One search for work over four callables: `pop` asks the worker's own
/// queue, `steal` asks the injector, `draw` draws the order in which the peers
/// are visited, and `peer` asks the peer at a given position.
///
/// Each source is asked at most once and in this order; the first message
/// that a source yields is returned at once, and no further source is asked.
/// The order is drawn only when the search gets as far as the peers. The
/// second result records what was asked and what it gave.
pub fn search<P, G, D, S>(pop: P, steal: G, draw: D, peer: S) -> (r: (
    Option<Message>,
    Ghost<Tried>,
)) where
    P: FnOnce() -> Option<Message>,
    G: FnOnce() -> Attempt,
    D: FnOnce() -> Vec<usize>,
    S: Fn(usize) -> Attempt,

    requires
        pop.requires(()),
        steal.requires(()),
        draw.requires(()),
        forall|order: Vec<usize>, k: int|
            draw.ensures((), order) && 0 <= k < order@.len() ==> peer.requires(
                (#[trigger] order@[k],),
            ),
    ensures
        searched(pop, steal, draw, peer, r.1@, r.0),
{
    let local = pop();
    let ghost own = local;
    if let Some(m) = local {
        return (Some(m), Ghost(Tried { local: own, injector: None, order: None, peers: Seq::empty() }));
    }
    let attempt = steal();
    let ghost global = attempt;
    if let Some(m) = attempt.taken() {
        return (
            Some(m),
            Ghost(Tried { local: None, injector: Some(global), order: None, peers: Seq::empty() }),
        );
    }
    let order = draw();
    let (found, attempts) = steal_in_order(peer, &order);
    (
        found,
        Ghost(Tried { local: None, injector: Some(global), order: Some(order), peers: attempts@ }),
    )
}

/// One search for work. The sources are tried in this order, each at most
/// once, and the first message found is returned at once, with no further
/// removal:
///
/// 1. the worker's own local queue, at the owner's end;
/// 2. the global injector;
/// 3. every peer's local queue, through its stealer, in a fresh random order.
///
/// `None` means that no attempt yielded a message, every peer having been
/// tried once. The second result records what was tried and what each
/// attempt gave. What the queues hold is up to the other threads, so nothing
/// is promised about what an attempt gives.
pub fn find_task(
    local: &Worker<Message>,
    global_injector: &Arc<Injector<Message>>,
    stealers: &[Stealer<Message>],
) -> (r: (Option<Message>, Ghost<Tried>))
    ensures
        r.1@.is_search(stealers@.len(), r.0),
{
    let peers = stealers.len();
    let pop = || -> (popped: Option<Message>) { local_pop(local) };
    let steal = || -> (attempt: Attempt) { injector_steal(global_injector) };
    let draw = || -> (order: Vec<usize>)
        ensures
            is_steal_order(order@, peers as nat),
        { steal_order(peers) };
    let peer = |position: usize| -> (attempt: Attempt)
        requires
            position < stealers@.len(),
        { stealer_steal(&stealers[position]) };
    proof {
        assert forall|order: Vec<usize>, k: int|
            draw.ensures((), order) && 0 <= k < order@.len() implies peer.requires(
            (#[trigger] order@[k],),
        ) by {
            lemma_steal_order_visits_each_peer_once(order@, peers as nat);
        }
    }
    search(pop, steal, draw, peer)
}

/// All that one worker needs to run: its place in the pool, its own local
/// queue, the pool's injector, and a stealer onto every worker's local queue,
/// its own included.
pub struct WorkerContext {
    id: usize,
    local: Worker<Message>,
    global_injector: Arc<Injector<Message>>,
    stealers: Vec<Stealer<Message>>,
}

impl WorkerContext {
    /// The worker's own stealer, at its own position in the list, targets the
    /// queue that the worker owns.
    #[verifier::type_invariant]
    spec fn well_formed(self) -> bool {
        &&& self.id < self.stealers@.len()
        &&& target_of(self.stealers@[self.id as int]) == queue_of(self.local)
    }

    /// The worker's position in the pool.
    pub closed spec fn index(self) -> nat {
        self.id as nat
    }

    /// The queue that this worker owns.
    pub closed spec fn queue(self) -> int {
        queue_of(self.local)
    }

    /// The queues that this worker can steal from, by position in the pool.
    pub closed spec fn targets(self) -> Seq<int> {
        Seq::new(self.stealers@.len(), |j: int| target_of(self.stealers@[j]))
    }

    /// The injector that this worker takes submitted messages from.
    pub closed spec fn injector(self) -> Injector<Message> {
        *self.global_injector
    }

    /// Puts a worker's context together.
    pub(crate) fn new(
        id: usize,
        local: Worker<Message>,
        global_injector: Arc<Injector<Message>>,
        stealers: Vec<Stealer<Message>>,
    ) -> (context: WorkerContext)
        requires
            id < stealers@.len(),
            target_of(stealers@[id as int]) == queue_of(local),
        ensures
            context.index() == id,
            context.queue() == queue_of(local),
            context.injector() == *global_injector,
            context.targets() == Seq::new(stealers@.len(), |j: int| target_of(stealers@[j])),
    {
        WorkerContext { id, local, global_injector, stealers }
    }

    /// The worker's position in the pool. A worker can steal from every
    /// worker of its pool, and the entry at its own position is its own queue.
    pub fn id(&self) -> (id: usize)
        ensures
            id == self.index(),
            id < self.targets().len(),
            self.targets()[id as int] == self.queue(),
    {
        proof {
            use_type_invariant(self);
        }
        self.id
    }

    /// The number of workers in the pool.
    pub fn peers(&self) -> (n: usize)
        ensures
            n == self.targets().len(),
    {
        self.stealers.len()
    }

    /// One search for work from this worker's sources: its own queue, its
    /// pool's injector, and every worker of its pool as a peer. See
    /// [`find_task`].
    pub fn find_task(&self) -> (r: (Option<Message>, Ghost<Tried>))
        ensures
            r.1@.is_search(self.targets().len(), r.0),
    {
        find_task(&self.local, &self.global_injector, self.stealers.as_slice())
    }

    /// One round of the worker's loop: searches once and decides what to do
    /// with the outcome. The caller carries the action out and calls again,
    /// until the action is `Exit`. The second result records the search.
    pub fn poll(&self) -> (r: (Action, Ghost<Tried>))
        ensures
            r.1@.is_search(self.targets().len(), r.1@.found()),
            r.0 == action_for(r.1@.found()),
    {
        let (found, tried) = self.find_task();
        (next_action(found), tried)
    }
}

} // verus!
