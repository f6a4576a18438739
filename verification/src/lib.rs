//! A fixed-size pool of workers that share tasks by work stealing.
//!
//! Tasks are submitted through the pool handle and land on one global
//! injector queue. Every worker owns a local queue and looks for its next
//! message in three places, in this order: its own queue, the injector, and
//! the queues of its peers in a fresh random order. Shutting the pool down
//! sends one stop signal per worker through the same injector.
//!
//! The library decides; it starts no thread and never waits. Whoever drives a
//! worker takes its [`scheduler::WorkerContext`] from the pool, calls
//! [`scheduler::WorkerContext::poll`] in a loop, and carries out the
//! [`task::Action`] that each call returns.
//!
//! The queues are shared between threads, so no contract says what a queue
//! holds. A search instead returns, beside its result, a record of what it
//! asked and what each source gave, and its contract is stated over that
//! record; [`scheduler::search`] states it over any sources.
//!
//! - [`task`]: tasks, the messages that carry them, and what a worker does
//!   with the outcome of a search.
//! - [`deque`]: the concurrent queues, and what is taken on trust about them.
//! - [`order`]: the random order in which peers are visited.
//! - [`scheduler`]: the search for work, and a worker's context.
//! - [`pool`]: the pool handle.

pub mod deque;
pub mod order;
pub mod pool;
pub mod scheduler;
pub mod task;

pub use pool::ThreadPool;
