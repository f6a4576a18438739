//! The pool handle: construction, submission and shutdown.

use std::sync::Arc;
use vstd::prelude::*;
use crossbeam_deque::{Injector, Stealer};
use crate::deque::{
    injector_new, injector_push, injector_share, local_new, local_stealer, queue_of,
    stealer_clone, target_of,
};
use crate::scheduler::WorkerContext;
use crate::task::{Message, Task};

verus! {

/// Why a submission was turned down.
#[derive(Clone, Copy, Debug, PartialEq, Eq)]
pub enum SubmitError {
    /// The pool has been shut down: the stop signals are out, and a task
    /// queued behind them might never run.
    PoolStopped,
}

/// The pool's record of one worker: its position, and its context until the
/// worker is started. The context is handed out once.
struct WorkerSlot {
    id: usize,
    context: Option<WorkerContext>,
}

impl WorkerSlot {
    fn new(id: usize, context: WorkerContext) -> (slot: WorkerSlot)
        ensures
            slot.id == id,
            slot.context == Some(context),
    {
        WorkerSlot { id, context: Some(context) }
    }
}

/// Empties the slot at `id` and returns the context that was in it, if any.
fn take_at(workers: &mut Vec<WorkerSlot>, id: usize) -> (context: Option<WorkerContext>)
    requires
        id < old(workers)@.len(),
    ensures
        context == old(workers)@[id as int].context,
        final(workers)@ == old(workers)@.update(
            id as int,
            (WorkerSlot { id: old(workers)@[id as int].id, context: None }),
        ),
    no_unwind
{
    let mut context: Option<WorkerContext> = None;
    std::mem::swap(&mut workers[id].context, &mut context);
    context
}

/// One fresh local queue for each of `size` workers, no two of them the same
/// queue.
fn local_queues(size: usize) -> (locals: Vec<crossbeam_deque::Worker<Message>>)
    ensures
        locals@.len() == size,
        forall|i: int, j: int|
            0 <= i < j < size ==> queue_of(#[trigger] locals@[i]) != queue_of(
                #[trigger] locals@[j],
            ),
{
    let mut locals: Vec<crossbeam_deque::Worker<Message>> = Vec::with_capacity(size);
    let mut n: usize = 0;
    while n < size
        invariant
            n <= size,
            locals@.len() == n,
            forall|i: int, j: int|
                0 <= i < j < n ==> queue_of(#[trigger] locals@[i]) != queue_of(
                    #[trigger] locals@[j],
                ),
        decreases size - n,
    {
        let local = local_new(&locals);
        locals.push(local);
        n = n + 1;
    }
    locals
}

/// A stealer onto each of the local queues, in the same order.
fn stealers_of(locals: &Vec<crossbeam_deque::Worker<Message>>) -> (stealers: Vec<Stealer<Message>>)
    ensures
        stealers@.len() == locals@.len(),
        forall|j: int|
            0 <= j < locals@.len() ==> target_of(#[trigger] stealers@[j]) == queue_of(locals@[j]),
{
    let mut stealers: Vec<Stealer<Message>> = Vec::with_capacity(locals.len());
    let mut i: usize = 0;
    while i < locals.len()
        invariant
            i <= locals@.len(),
            stealers@.len() == i,
            forall|j: int|
                0 <= j < i ==> target_of(#[trigger] stealers@[j]) == queue_of(locals@[j]),
        decreases locals@.len() - i,
    {
        stealers.push(local_stealer(&locals[i]));
        i = i + 1;
    }
    stealers
}

/// A second list of stealers onto the same queues, in the same order.
fn clone_stealers(stealers: &Vec<Stealer<Message>>) -> (copy: Vec<Stealer<Message>>)
    ensures
        copy@.len() == stealers@.len(),
        forall|j: int|
            0 <= j < stealers@.len() ==> target_of(#[trigger] copy@[j]) == target_of(stealers@[j]),
{
    let mut copy: Vec<Stealer<Message>> = Vec::with_capacity(stealers.len());
    let mut i: usize = 0;
    while i < stealers.len()
        invariant
            i <= stealers@.len(),
            copy@.len() == i,
            forall|j: int|
                0 <= j < i ==> target_of(#[trigger] copy@[j]) == target_of(stealers@[j]),
        decreases stealers@.len() - i,
    {
        copy.push(stealer_clone(&stealers[i]));
        i = i + 1;
    }
    copy
}

/// The context `context` belongs to the worker at `position` of a pool whose
/// workers own `queues`, in pool order, and which is fed through `injector`:
/// it has that position, owns that worker's queue, steals from every worker's
/// queue in pool order, and takes submitted messages from that injector.
pub open spec fn wired(
    queues: Seq<int>,
    injector: Injector<Message>,
    position: int,
    context: WorkerContext,
) -> bool {
    &&& context.index() == position
    &&& context.queue() == queues[position]
    &&& context.targets() == queues
    &&& context.injector() == injector
}

/// What the pool is, seen from outside.
pub struct PoolState {
    /// For each worker, by position: whether its context is still held by the
    /// pool, waiting to be taken.
    pub waiting: Seq<bool>,
    /// Whether the pool has been shut down.
    pub stopped: bool,
    /// For each worker, by position: the local queue that it owns.
    pub queues: Seq<int>,
    /// The queue that submissions and stop signals go through.
    pub injector: Injector<Message>,
}

impl PoolState {
    /// The number of workers.
    pub open spec fn size(self) -> nat {
        self.waiting.len()
    }

    /// How many stop signals a shutdown in this state sends: one per worker,
    /// unless they are out already.
    pub open spec fn signals_due(self) -> nat {
        if self.stopped {
            0
        } else {
            self.size()
        }
    }

    /// The state that a shutdown leaves behind.
    pub open spec fn shut_down(self) -> PoolState {
        PoolState { stopped: true, ..self }
    }

    /// `context` belongs to the worker at `position` of a pool in this state.
    pub open spec fn wires(self, position: int, context: WorkerContext) -> bool {
        wired(self.queues, self.injector, position, context)
    }
}

/// However often a pool is shut down, each of its workers is sent exactly one
/// stop signal: the first shutdown sends one per worker, and every later one
/// sends none and changes nothing.
pub proof fn lemma_one_stop_signal_per_worker(state: PoolState)
    ensures
        !state.stopped ==> state.signals_due() == state.size(),
        state.shut_down().signals_due() == 0,
        state.shut_down().shut_down() == state.shut_down(),
        state.shut_down().size() == state.size(),
{
}

/// `submitted` and `handed` are what a submission of `f` gives, on a pool
/// that is `stopped` or not. A stopped pool turns the task down and hands
/// nothing on. An open pool hands on one message: a new task that
/// accomplishes what a call of `f` ensures.
pub open spec fn submission<F>(
    stopped: bool,
    f: F,
    submitted: Result<(), SubmitError>,
    handed: Option<Message>,
) -> bool where F: FnOnce() + Send + 'static {
    if stopped {
        &&& submitted == Err::<(), SubmitError>(SubmitError::PoolStopped)
        &&& handed is None
    } else {
        &&& submitted == Ok::<(), SubmitError>(())
        &&& handed matches Some(Message::NewTask(task))
        &&& task.accomplished() == f.ensures((), ())
    }
}

/// Submits `f` through `push`, the callable that puts a message on the
/// injector: wraps `f` as a task and hands it on, once, unless the pool is
/// stopped. The second result is the message handed on.
pub fn submit_through<F, P>(stopped: bool, f: F, push: P) -> (r: (
    Result<(), SubmitError>,
    Ghost<Option<Message>>,
)) where F: FnOnce() + Send + 'static, P: FnOnce(Message)
    requires
        f.requires(()),
        forall|message: Message| push.requires((message,)),
    ensures
        submission(stopped, f, r.0, r.1@),
        r.1@ matches Some(message) ==> push.ensures((message,), ()),
{
    if stopped {
        return (Err(SubmitError::PoolStopped), Ghost(None));
    }
    let message = Message::NewTask(Task::new(f));
    let ghost handed = message;
    push(message);
    (Ok(()), Ghost(Some(handed)))
}

/// `sent` and `handed` are what a shutdown gives, on a pool of `workers`
/// workers that is `stopped` or not, where `push` puts a message on the
/// injector: one stop signal per worker was handed on, or none at all where
/// the pool was stopped already.
pub open spec fn stop_signals<P>(
    stopped: bool,
    workers: usize,
    push: P,
    sent: usize,
    handed: Seq<Message>,
) -> bool where P: Fn(Message) {
    &&& sent == handed.len()
    &&& handed.len() == if stopped { 0 } else { workers as nat }
    &&& forall|k: int|
        0 <= k < handed.len() ==> #[trigger] handed[k] == Message::Terminate && push.ensures(
            (handed[k],),
            (),
        )
}

/// Sends the stop signals through `push`, the callable that puts a message
/// on the injector: one per worker, unless the pool is stopped already. The
/// results are how many were sent, and the messages handed on.
pub fn signal_through<P>(stopped: bool, workers: usize, push: P) -> (r: (
    usize,
    Ghost<Seq<Message>>,
)) where P: Fn(Message)
    requires
        forall|message: Message| push.requires((message,)),
    ensures
        stop_signals(stopped, workers, push, r.0, r.1@),
{
    let ghost mut handed: Seq<Message> = Seq::empty();
    if stopped {
        return (0, Ghost(handed));
    }
    let mut sent: usize = 0;
    while sent < workers
        invariant
            sent <= workers,
            handed.len() == sent,
            forall|message: Message| push.requires((message,)),
            forall|k: int|
                0 <= k < handed.len() ==> #[trigger] handed[k] == Message::Terminate
                    && push.ensures((handed[k],), ()),
        decreases workers - sent,
    {
        push(Message::Terminate);
        proof {
            handed = handed.push(Message::Terminate);
        }
        sent = sent + 1;
    }
    (sent, Ghost(handed))
}

/// A fixed-size pool of workers. Tasks go in through the shared injector;
/// every worker has a local queue of its own and may steal from the others.
pub struct ThreadPool {
    workers: Vec<WorkerSlot>,
    global_injector: Arc<Injector<Message>>,
    stopped: bool,
    queues: Ghost<Seq<int>>,
}

impl View for ThreadPool {
    type V = PoolState;

    closed spec fn view(&self) -> PoolState {
        PoolState {
            waiting: Seq::new(self.workers@.len(), |i: int| self.workers@[i].context is Some),
            stopped: self.stopped,
            queues: self.queues@,
            injector: *self.global_injector,
        }
    }
}

impl ThreadPool {
    #[verifier::type_invariant]
    spec fn well_formed(self) -> bool {
        &&& self.workers@.len() > 0
        &&& self.queues@.len() == self.workers@.len()
        &&& forall|i: int|
            0 <= i < self.workers@.len() ==> (#[trigger] self.workers@[i]).id == i
        &&& forall|i: int|
            0 <= i < self.workers@.len() ==> (#[trigger] self.workers@[i].context matches Some(c)
                ==> self@.wires(i, c))
    }

    /// Builds a pool of `size` workers, none of them started and none
    /// stopped. Each worker gets a fresh local queue of its own, which is no
    /// other worker's; every
    /// worker's context holds that queue, the one shared injector, and a
    /// stealer onto every worker's queue, in pool order.
    ///
    /// A pool without workers could never run a task, so `size` must be
    /// positive.
    pub fn new(size: usize) -> (pool: ThreadPool)
        requires
            size > 0,
        ensures
            pool@.size() == size,
            pool@.queues.len() == size,
            pool@.queues.no_duplicates(),
            !pool@.stopped,
            forall|i: int| 0 <= i < size ==> pool@.waiting[i],
    {
        let global_injector = Arc::new(injector_new());
        let mut workers: Vec<WorkerSlot> = Vec::with_capacity(size);
        let mut locals = local_queues(size);
        let stealers = stealers_of(&locals);
        let ghost all = locals@;
        let ghost queues = Seq::new(size as nat, |i: int| queue_of(all[i]));
        let mut id: usize = 0;
        while id < size
            invariant
                id <= size,
                all.len() == size,
                locals@ == all.subrange(id as int, size as int),
                stealers@.len() == size,
                forall|j: int|
                    0 <= j < size ==> target_of(#[trigger] stealers@[j]) == queue_of(all[j]),
                queues == Seq::new(size as nat, |i: int| queue_of(all[i])),
                workers@.len() == id,
                forall|i: int| 0 <= i < id ==> (#[trigger] workers@[i]).id == i,
                forall|i: int|
                    0 <= i < id ==> (#[trigger] workers@[i].context matches Some(c)
                        && wired(queues, *global_injector, i, c)),
            decreases size - id,
        {
            let local = locals.remove(0);
            assert(local == all[id as int]);
            assert(locals@ == all.subrange(id as int + 1, size as int));
            let injector_clone = injector_share(&global_injector);
            let stealers_clone = clone_stealers(&stealers);
            let context = WorkerContext::new(id, local, injector_clone, stealers_clone);
            assert(context.targets() == queues);
            workers.push(WorkerSlot::new(id, context));
            id = id + 1;
        }
        ThreadPool { workers, global_injector, stopped: false, queues: Ghost(queues) }
    }

    /// The number of workers, fixed at construction and never zero.
    pub fn size(&self) -> (size: usize)
        ensures
            size == self@.size(),
            size > 0,
            self@.queues.len() == size,
    {
        proof {
            use_type_invariant(self);
        }
        self.workers.len()
    }

    /// Whether the pool has been shut down.
    pub fn is_stopped(&self) -> (stopped: bool)
        ensures
            stopped == self@.stopped,
    {
        self.stopped
    }

    /// Hands out the context of the worker at position `id`, for whoever
    /// starts that worker. Each context is handed out once: the call yields
    /// it exactly when `id` is a position of the pool whose context has not
    /// been taken yet, and changes nothing otherwise.
    pub fn take_context(&mut self, id: usize) -> (context: Option<WorkerContext>)
        ensures
            context is Some <==> id < old(self)@.size() && old(self)@.waiting[id as int],
            context matches Some(c) ==> old(self)@.wires(id as int, c),
            final(self)@ == (PoolState {
                waiting: if context is Some {
                    old(self)@.waiting.update(id as int, false)
                } else {
                    old(self)@.waiting
                },
                ..old(self)@
            }),
    {
        proof {
            use_type_invariant(&*self);
        }
        if id >= self.workers.len() {
            return None;
        }
        let context = take_at(&mut self.workers, id);
        assert(self@.waiting =~= if context is Some {
            old(self)@.waiting.update(id as int, false)
        } else {
            old(self)@.waiting
        });
        context
    }

    /// Submits a task: wraps the callable and puts it on the global injector,
    /// from where some worker's search will pick it up. The call never waits.
    ///
    /// A pool that has been shut down takes no more work: the task is turned
    /// down, and dropped without having run.
    ///
    /// The second result is the message that was put on the injector.
    pub fn execute<F>(&self, f: F) -> (r: (Result<(), SubmitError>, Ghost<Option<Message>>)) where
        F: FnOnce() + Send + 'static,

        requires
            f.requires(()),
        ensures
            submission(self@.stopped, f, r.0, r.1@),
    {
        let push = |message: Message| { injector_push(&self.global_injector, message) };
        submit_through(self.stopped, f, push)
    }

    /// Shuts the pool down: puts exactly one stop signal per worker on the
    /// global injector, behind everything submitted so far, and returns how
    /// many it sent. From then on the pool takes no submissions. A second
    /// shutdown sends nothing.
    ///
    /// Each worker leaves its loop on the first stop signal it finds, so
    /// every started worker ends once the signals are out.
    pub fn shutdown(&mut self) -> (sent: usize)
        ensures
            final(self)@ == old(self)@.shut_down(),
            sent == old(self)@.signals_due(),
    {
        let push = |message: Message| { injector_push(&self.global_injector, message) };
        let (sent, _) = signal_through(self.stopped, self.workers.len(), push);
        proof {
            use_type_invariant(&*self);
        }
        self.stopped = true;
        sent
    }
}

} // verus!
