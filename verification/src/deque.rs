//! The concurrent queues of `crossbeam_deque`, as the scheduler sees them.
//!
//! Every queue here is shared between threads and is changed through a shared
//! reference. What it holds can change between any two calls, so no
//! specification function of a handle stands for its contents, and the
//! contracts below promise nothing about which message a removal yields. What a
//! handle does fix, for as long as it lives, is the queue it belongs to.

use std::sync::Arc;
use vstd::prelude::*;
use crossbeam_deque::{Injector, Steal, Stealer, Worker};
use crate::task::{Attempt, Message};

verus! {

/// `crossbeam_deque::Injector`: the queue that any thread may push to and
/// any thread may try to remove from. Opaque.
#[verifier::external_type_specification]
#[verifier::external_body]
#[verifier::reject_recursive_types(T)]
pub struct ExInjector<T>(crossbeam_deque::Injector<T>);

/// `crossbeam_deque::Worker`: the owner handle of a local queue, held by one
/// thread. Opaque.
#[verifier::external_type_specification]
#[verifier::external_body]
#[verifier::reject_recursive_types(T)]
pub struct ExWorker<T>(crossbeam_deque::Worker<T>);

/// `crossbeam_deque::Stealer`: a handle through which any thread may try to
/// remove from the far end of one local queue. Opaque.
#[verifier::external_type_specification]
#[verifier::external_body]
#[verifier::reject_recursive_types(T)]
pub struct ExStealer<T>(crossbeam_deque::Stealer<T>);

/// The local queue that an owner handle pushes to and pops from, as a number
/// that stands for the queue. A handle keeps its queue for as long as it
/// lives. Nothing else is claimed of the number.
pub uninterp spec fn queue_of(owner: Worker<Message>) -> int;

/// The local queue that a stealer handle removes from, as the number that
/// [`queue_of`] gives to the owner handle of the same queue.
pub uninterp spec fn target_of(stealer: Stealer<Message>) -> int;

/// `Injector::new`: a fresh queue for messages.
#[verifier::external_body]
pub(crate) fn injector_new() -> (q: Injector<Message>) {
    Injector::new()
}

/// `Arc::clone`: another pointer to the same injector, not a second queue.
#[verifier::external_body]
pub(crate) fn injector_share(q: &Arc<Injector<Message>>) -> (r: Arc<Injector<Message>>)
    ensures
        *r == **q,
{
    Arc::clone(q)
}

/// `Injector::push`: hands the message over to the queue. The call does not
/// fail and does not wait for a consumer.
#[verifier::external_body]
pub(crate) fn injector_push(q: &Injector<Message>, m: Message) {
    q.push(m)
}

/// `Injector::steal`: one attempt to remove the oldest message. Any of the
/// three outcomes is possible on any call.
#[verifier::external_body]
pub(crate) fn injector_steal(q: &Injector<Message>) -> (r: Attempt) {
    match q.steal() {
        Steal::Success(m) => Attempt::Success(m),
        Steal::Empty => Attempt::Empty,
        Steal::Retry => Attempt::Retry,
    }
}

/// `Worker::new_lifo`: a fresh local queue, returned as its owner handle. The
/// owner pushes and pops at one end, newest first; stealers remove at the
/// other, oldest first. The queue is allocated by the call, so it is none of
/// the queues behind the handles in `others`, all of which are alive while the
/// call runs.
#[verifier::external_body]
#[allow(unused_variables)]
pub(crate) fn local_new(others: &Vec<Worker<Message>>) -> (w: Worker<Message>)
    ensures
        forall|i: int| 0 <= i < others@.len() ==> queue_of(w) != queue_of(#[trigger] others@[i]),
{
    Worker::new_lifo()
}

/// `Worker::stealer`: a stealer handle onto the queue that `w` owns. The new
/// handle shares the owner's queue.
#[verifier::external_body]
pub(crate) fn local_stealer(w: &Worker<Message>) -> (s: Stealer<Message>)
    ensures
        target_of(s) == queue_of(*w),
{
    w.stealer()
}

/// `Worker::pop`: removes a message at the owner's end, if one is seen.
#[verifier::external_body]
pub(crate) fn local_pop(w: &Worker<Message>) -> (r: Option<Message>) {
    w.pop()
}

/// `Stealer::clone`: another handle onto the queue that `s` targets.
#[verifier::external_body]
pub(crate) fn stealer_clone(s: &Stealer<Message>) -> (r: Stealer<Message>)
    ensures
        target_of(r) == target_of(*s),
{
    s.clone()
}

/// `Stealer::steal`: one attempt to remove a message at the far end of the
/// queue that `s` targets. Any of the three outcomes is possible on any call.
#[verifier::external_body]
pub(crate) fn stealer_steal(s: &Stealer<Message>) -> (r: Attempt) {
    match s.steal() {
        Steal::Success(m) => Attempt::Success(m),
        Steal::Empty => Attempt::Empty,
        Steal::Retry => Attempt::Retry,
    }
}

} // verus!
