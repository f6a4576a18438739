//! Units of work and the messages that carry them to the workers.

use vstd::prelude::*;

verus! {

/// Something that can be run once, on whichever thread ends up holding it.
pub(crate) trait Runnable: Send {
    /// Whether running is allowed.
    spec fn ready(&self) -> bool;

    /// What holds once the work has run.
    spec fn done(&self) -> bool;

    /// Runs the work, consuming it.
    fn run(self: Box<Self>)
        requires
            self.ready(),
        ensures
            self.done(),
    ;
}

impl<F: FnOnce() + Send + 'static> Runnable for F {
    open spec fn ready(&self) -> bool {
        call_requires(*self, ())
    }

    open spec fn done(&self) -> bool {
        call_ensures(*self, (), ())
    }

    fn run(self: Box<Self>) {
        let f: F = *self;
        f()
    }
}

/// A one-shot unit of work with no argument and no result. It owns everything
/// it touches, so it may be handed to any thread.
pub struct Task {
    job: Box<dyn Runnable>,
}

impl Task {
    #[verifier::type_invariant]
    spec fn callable(self) -> bool {
        self.job.ready()
    }

    /// What holds once the task has run: what the callable that it wraps
    /// promises of a call.
    pub closed spec fn accomplished(self) -> bool {
        self.job.done()
    }

    /// Wraps a callable as a task. Running the task is calling the callable:
    /// the task accomplishes exactly what a call of `f` ensures.
    pub fn new<F>(f: F) -> (task: Task) where F: FnOnce() + Send + 'static
        requires
            f.requires(()),
        ensures
            task.accomplished() == f.ensures((), ()),
    {
        Task { job: Box::new(f) }
    }

    /// Runs the task on the calling thread, consuming it.
    pub fn run(self)
        ensures
            self.accomplished(),
    {
        proof {
            use_type_invariant(&self);
        }
        self.job.run()
    }
}

/// What travels through the queues: real work, or the signal that tells one
/// worker to stop.
pub enum Message {
    NewTask(Task),
    Terminate,
}

/// The outcome of one attempt to remove a message from a queue that other
/// threads use at the same time.
pub enum Attempt {
    /// A message was removed and now belongs to the caller.
    Success(Message),
    /// The queue was seen empty.
    Empty,
    /// Another thread got in the way; nothing was removed.
    Retry,
}

impl Attempt {
    /// The message that the attempt yielded. An attempt that was crossed by
    /// another thread counts like one on an empty queue: it is not repeated.
    pub open spec fn message(self) -> Option<Message> {
        match self {
            Attempt::Success(m) => Some(m),
            Attempt::Empty => None,
            Attempt::Retry => None,
        }
    }

    /// Gives up the message of a successful attempt, and nothing otherwise.
    pub fn taken(self) -> (found: Option<Message>)
        ensures
            found == self.message(),
    {
        match self {
            Attempt::Success(m) => Some(m),
            Attempt::Empty => None,
            Attempt::Retry => None,
        }
    }
}

/// What a worker does next.
pub enum Action {
    /// A task was found: it is to run on the worker's own thread.
    Run(Task),
    /// Leave the loop; the worker's thread ends.
    Exit,
    /// Nothing was found anywhere: give up the processor, then look again.
    Yield,
}

/// The action that answers the outcome of one search for work.
pub open spec fn action_for(found: Option<Message>) -> Action {
    match found {
        Some(Message::NewTask(task)) => Action::Run(task),
        Some(Message::Terminate) => Action::Exit,
        None => Action::Yield,
    }
}

/// A worker leaves its loop on a stop signal and for no other reason; it
/// yields exactly when a search found nothing; and a task that was found is
/// the task that runs.
pub proof fn lemma_exit_only_on_terminate(found: Option<Message>)
    ensures
        action_for(found) is Exit <==> found == Some(Message::Terminate),
        action_for(found) is Yield <==> found is None,
        forall|task: Task|
            action_for(found) == Action::Run(task) <==> found == Some(Message::NewTask(task)),
{
}

/// Decides what a worker does with the outcome of one search for work: a task
/// is to be run, a stop signal ends the worker, and an empty-handed search
/// makes it yield.
pub fn next_action(found: Option<Message>) -> (action: Action)
    ensures
        action == action_for(found),
{
    match found {
        Some(Message::NewTask(task)) => Action::Run(task),
        Some(Message::Terminate) => Action::Exit,
        None => Action::Yield,
    }
}

} // verus!
