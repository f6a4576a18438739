use std::sync::mpsc;
use std::cell::RefCell;
use thread_pool::pool::{signal_through, submit_through, SubmitError};
use thread_pool::scheduler::WorkerContext;
use thread_pool::task::{Action, Message};
use thread_pool::ThreadPool;

fn take_all(pool: &mut ThreadPool) -> Vec<WorkerContext> {
    let mut contexts = Vec::new();
    for id in 0..pool.size() {
        contexts.push(pool.take_context(id).unwrap());
    }
    contexts
}

/// Polls until the worker gets something other than `Yield`, a bounded number
/// of times.
fn poll_settled(context: &WorkerContext) -> Action {
    for _ in 0..1000 {
        match context.poll().0 {
            Action::Yield => {}
            other => return other,
        }
    }
    Action::Yield
}

#[test]
fn new_pool_has_the_requested_size_and_is_open() {
    for size in [1usize, 2, 4, 17] {
        let pool = ThreadPool::new(size);
        assert_eq!(pool.size(), size);
        assert!(!pool.is_stopped());
    }
}

#[test]
fn each_context_is_handed_out_once() {
    let mut pool = ThreadPool::new(3);
    let second = pool.take_context(1);
    assert!(second.is_some());
    assert!(pool.take_context(1).is_none());
    assert!(pool.take_context(0).is_some());
    assert!(pool.take_context(2).is_some());
    assert!(pool.take_context(0).is_none());
    assert!(pool.take_context(2).is_none());
    assert_eq!(pool.size(), 3);
}

#[test]
fn no_context_beyond_the_last_worker() {
    let mut pool = ThreadPool::new(3);
    assert!(pool.take_context(3).is_none());
    assert!(pool.take_context(usize::MAX).is_none());
    assert!(pool.take_context(2).is_some());
}

#[test]
fn contexts_know_their_place() {
    let mut pool = ThreadPool::new(5);
    let contexts = take_all(&mut pool);
    assert_eq!(contexts.len(), 5);
    for (position, context) in contexts.iter().enumerate() {
        assert_eq!(context.id(), position);
        assert_eq!(context.peers(), 5);
    }
}

#[test]
fn shutdown_sends_one_signal_per_worker_once() {
    let mut pool = ThreadPool::new(4);
    assert_eq!(pool.shutdown(), 4);
    assert!(pool.is_stopped());
    assert_eq!(pool.shutdown(), 0);
    assert_eq!(pool.shutdown(), 0);
    assert!(pool.is_stopped());
    assert_eq!(pool.size(), 4);
}

#[test]
fn idle_pool_stops_every_worker_and_leaves_nothing_behind() {
    for size in [1usize, 3, 8] {
        let mut pool = ThreadPool::new(size);
        let contexts = take_all(&mut pool);
        assert_eq!(pool.shutdown(), size);
        for context in &contexts {
            assert!(matches!(poll_settled(context), Action::Exit));
        }
        assert!(matches!(poll_settled(&contexts[0]), Action::Yield));
    }
}

#[test]
fn stopped_pool_turns_submissions_down() {
    let (tx, rx) = mpsc::channel();
    let mut pool = ThreadPool::new(2);
    let contexts = take_all(&mut pool);
    pool.shutdown();
    let (submitted, _) = pool.execute(move || {
        tx.send(7).unwrap();
    });
    assert_eq!(submitted, Err(SubmitError::PoolStopped));
    for context in &contexts {
        assert!(matches!(poll_settled(context), Action::Exit));
    }
    assert!(matches!(poll_settled(&contexts[0]), Action::Yield));
    assert!(rx.try_recv().is_err());
}

#[test]
fn submission_does_not_run_the_task() {
    let (tx, rx) = mpsc::channel();
    let pool = ThreadPool::new(2);
    let (submitted, _) = pool.execute(move || {
        tx.send(1).unwrap();
    });
    assert_eq!(submitted, Ok(()));
    assert!(rx.try_recv().is_err());
}

#[test]
fn work_submitted_before_shutdown_comes_before_the_stop_signals() {
    let (tx, rx) = mpsc::channel();
    let mut pool = ThreadPool::new(2);
    let contexts = take_all(&mut pool);
    for token in 0..3 {
        let tx = tx.clone();
        pool.execute(move || tx.send(token).unwrap()).0.unwrap();
    }
    pool.shutdown();
    for expected in 0..3 {
        match poll_settled(&contexts[1]) {
            Action::Run(task) => task.run(),
            _ => panic!("a task was due"),
        }
        assert_eq!(rx.try_recv(), Ok(expected));
    }
    assert!(matches!(poll_settled(&contexts[1]), Action::Exit));
    assert!(matches!(poll_settled(&contexts[0]), Action::Exit));
}

#[test]
fn hundred_tasks_on_four_workers_each_run_once() {
    let (tx, rx) = mpsc::channel();
    let mut pool = ThreadPool::new(4);
    let contexts = take_all(&mut pool);
    for token in 0..100usize {
        let tx = tx.clone();
        pool.execute(move || tx.send(token).unwrap()).0.unwrap();
    }
    let mut ran = vec![0usize; 4];
    let mut received = Vec::new();
    let mut turn = 0;
    for _ in 0..100_000 {
        if received.len() == 100 {
            break;
        }
        let context = &contexts[turn % 4];
        if let Action::Run(task) = context.poll().0 {
            task.run();
            ran[context.id()] += 1;
            received.push(rx.try_recv().unwrap());
        }
        turn += 1;
    }
    assert!(rx.try_recv().is_err());
    received.sort();
    assert_eq!(received, (0..100).collect::<Vec<usize>>());
    assert_eq!(ran.iter().sum::<usize>(), 100);
    assert!(ran.iter().all(|&n| n > 0));

    assert_eq!(pool.shutdown(), 4);
    for context in &contexts {
        assert!(matches!(poll_settled(context), Action::Exit));
    }
    assert!(matches!(poll_settled(&contexts[0]), Action::Yield));
}

#[test]
fn any_number_of_tasks_is_delivered_exactly_once() {
    for (size, count) in [(1usize, 0usize), (1, 1), (2, 7), (3, 64), (5, 65), (8, 200)] {
        let (tx, rx) = mpsc::channel();
        let mut pool = ThreadPool::new(size);
        let contexts = take_all(&mut pool);
        for token in (0..count).rev() {
            let tx = tx.clone();
            pool.execute(move || tx.send(token).unwrap()).0.unwrap();
        }
        let mut turn = 0;
        let mut done = 0;
        for _ in 0..100_000 {
            if done == count {
                break;
            }
            if let Action::Run(task) = contexts[turn % size].poll().0 {
                task.run();
                done += 1;
            }
            turn += 1;
        }
        let mut received: Vec<usize> = rx.try_iter().collect();
        received.sort();
        assert_eq!(received, (0..count).collect::<Vec<usize>>());
    }
}

#[test]
fn an_open_pool_hands_on_one_new_task() {
    let (tx, rx) = mpsc::channel();
    let handed: RefCell<Vec<Message>> = RefCell::new(Vec::new());
    let (submitted, _) = submit_through(
        false,
        move || tx.send(11).unwrap(),
        |message| handed.borrow_mut().push(message),
    );
    assert_eq!(submitted, Ok(()));
    let mut handed = handed.into_inner();
    assert_eq!(handed.len(), 1);
    assert!(rx.try_recv().is_err());
    match handed.pop() {
        Some(Message::NewTask(task)) => task.run(),
        _ => panic!("a new task was due"),
    }
    assert_eq!(rx.try_recv(), Ok(11));
}

#[test]
fn a_stopped_pool_hands_nothing_on() {
    let handed: RefCell<Vec<Message>> = RefCell::new(Vec::new());
    let (submitted, _) = submit_through(true, || {}, |message| handed.borrow_mut().push(message));
    assert_eq!(submitted, Err(SubmitError::PoolStopped));
    assert!(handed.into_inner().is_empty());
}

#[test]
fn a_shutdown_hands_on_one_stop_signal_per_worker() {
    for workers in [1usize, 4, 9] {
        let handed: RefCell<Vec<Message>> = RefCell::new(Vec::new());
        let (sent, _) = signal_through(false, workers, |message| handed.borrow_mut().push(message));
        assert_eq!(sent, workers);
        let handed = handed.into_inner();
        assert_eq!(handed.len(), workers);
        assert!(handed.iter().all(|message| matches!(message, Message::Terminate)));
    }
}

#[test]
fn a_second_shutdown_hands_nothing_on() {
    let handed: RefCell<Vec<Message>> = RefCell::new(Vec::new());
    let (sent, _) = signal_through(true, 4, |message| handed.borrow_mut().push(message));
    assert_eq!(sent, 0);
    assert!(handed.into_inner().is_empty());
}
