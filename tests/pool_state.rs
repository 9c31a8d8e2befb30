use lending_thread_pool::{
    ConstructionError, DequeueResult, EnqueueOutcome, JoinStep, PoolQueue, PoolState,
};
use std::collections::VecDeque;

type Task = Box<dyn FnOnce(&mut u64)>;

fn increment() -> Task {
    Box::new(|n: &mut u64| *n += 1)
}

fn take(state: &mut PoolState<Task>) -> Option<Task> {
    match state.dequeue() {
        DequeueResult::TaskAvailable { task, .. } => Some(task),
        _ => None,
    }
}

#[test]
fn empty_worker_data_is_refused_every_time() {
    for _ in 0..5 {
        assert!(matches!(PoolState::<u32>::new(0), Err(ConstructionError::NoWorkers)));
        assert!(matches!(
            PoolState::<u32>::new_with_queue_size(0, 4),
            Err(ConstructionError::NoWorkers)
        ));
    }
}

#[test]
fn zero_capacity_is_refused_every_time() {
    for _ in 0..5 {
        assert!(matches!(
            PoolState::<u32>::new_with_queue_size(3, 0),
            Err(ConstructionError::ZeroCapacity)
        ));
    }
}

#[test]
fn default_capacity_is_worker_count() {
    let mut s = PoolState::<u32>::new(3).ok().unwrap();
    assert_eq!(s.max_pending_tasks(), 3);
    assert_eq!(s.pending_count(), Some(0));
    for i in 0..3 {
        assert!(matches!(s.try_enqueue(i), EnqueueOutcome::Added));
    }
    assert!(matches!(s.try_enqueue(9), EnqueueOutcome::Full(9)));
    assert_eq!(s.pending_count(), Some(3));
}

#[test]
fn queue_never_exceeds_capacity() {
    let mut s = PoolState::<u32>::new_with_queue_size(4, 2).ok().unwrap();
    for i in 0..20 {
        let _ = s.try_enqueue(i);
        assert!(s.pending_count().unwrap() <= 2);
        if i % 3 == 0 {
            let _ = s.dequeue();
        }
        assert!(s.pending_count().unwrap() <= 2);
    }
}

#[test]
fn full_queue_holds_producer_until_dequeue() {
    let mut s = PoolState::<&str>::new_with_queue_size(1, 1).ok().unwrap();
    assert!(matches!(s.try_enqueue("first"), EnqueueOutcome::Added));
    for _ in 0..3 {
        assert!(matches!(s.try_enqueue("second"), EnqueueOutcome::Full("second")));
        assert_eq!(s.pending_count(), Some(1));
    }
    assert!(matches!(
        s.dequeue(),
        DequeueResult::TaskAvailable { task: "first", has_more: false }
    ));
    assert!(matches!(s.try_enqueue("second"), EnqueueOutcome::Added));
}

#[test]
fn tasks_leave_in_submission_order() {
    let mut s = PoolState::<char>::new_with_queue_size(2, 2).ok().unwrap();
    assert!(matches!(s.try_enqueue('a'), EnqueueOutcome::Added));
    assert!(matches!(s.try_enqueue('b'), EnqueueOutcome::Added));
    assert!(matches!(
        s.dequeue(),
        DequeueResult::TaskAvailable { task: 'a', has_more: true }
    ));
    assert!(matches!(s.try_enqueue('c'), EnqueueOutcome::Added));
    assert!(matches!(
        s.dequeue(),
        DequeueResult::TaskAvailable { task: 'b', has_more: true }
    ));
    assert!(matches!(
        s.dequeue(),
        DequeueResult::TaskAvailable { task: 'c', has_more: false }
    ));
    assert!(matches!(s.dequeue(), DequeueResult::WaitingForTasks));
}

#[test]
fn join_waits_for_drain_then_stops() {
    let mut s = PoolState::<u8>::new_with_queue_size(1, 3).ok().unwrap();
    assert_eq!(s.join_step(), JoinStep::StopWorkers);
    assert!(s.is_shut_down());

    let mut s = PoolState::<u8>::new_with_queue_size(1, 3).ok().unwrap();
    let _ = s.try_enqueue(1);
    assert_eq!(s.join_step(), JoinStep::WaitForIdle);
    assert!(!s.is_shut_down());
    let _ = s.dequeue();
    assert_eq!(s.join_step(), JoinStep::StopWorkers);
    assert_eq!(s.pending_count(), None);
}

#[test]
fn full_drain_runs_every_task() {
    let n: u64 = 25;
    let mut counter: u64 = 0;
    let mut s = PoolState::<Task>::new_with_queue_size(2, 3).ok().unwrap();
    for _ in 0..n {
        let mut task = increment();
        loop {
            match s.try_enqueue(task) {
                EnqueueOutcome::Added => break,
                EnqueueOutcome::Full(t) => {
                    task = t;
                    let run = take(&mut s).unwrap();
                    run(&mut counter);
                }
                EnqueueOutcome::ShutDown(_) => panic!("pool shut down early"),
            }
        }
    }
    loop {
        match s.join_step() {
            JoinStep::WaitForIdle => {
                let run = take(&mut s).unwrap();
                run(&mut counter);
            }
            JoinStep::StopWorkers => break,
            JoinStep::AlreadyJoined => panic!("joined twice"),
        }
    }
    assert_eq!(counter, n);
}

#[test]
fn teardown_is_idempotent() {
    let mut s = PoolState::<u8>::new(2).ok().unwrap();
    assert_eq!(s.join_step(), JoinStep::StopWorkers);
    for _ in 0..3 {
        assert_eq!(s.join_step(), JoinStep::AlreadyJoined);
        assert!(s.is_shut_down());
    }
    assert!(matches!(s.try_enqueue(5), EnqueueOutcome::ShutDown(5)));
    assert!(matches!(s.dequeue(), DequeueResult::Joined));
}

#[test]
fn two_workers_with_own_counters() {
    let mut counters: [u64; 2] = [0, 0];
    let mut s = PoolState::<Task>::new_with_queue_size(2, 2).ok().unwrap();
    let mut turn: usize = 0;
    for _ in 0..10 {
        let mut task = increment();
        loop {
            match s.try_enqueue(task) {
                EnqueueOutcome::Added => break,
                EnqueueOutcome::Full(t) => {
                    task = t;
                    let run = take(&mut s).unwrap();
                    run(&mut counters[turn]);
                    turn = 1 - turn;
                }
                EnqueueOutcome::ShutDown(_) => panic!("pool shut down early"),
            }
        }
    }
    while s.join_step() == JoinStep::WaitForIdle {
        let run = take(&mut s).unwrap();
        run(&mut counters[turn]);
        turn = 1 - turn;
    }
    assert_eq!(counters[0] + counters[1], 10);
    assert!(counters[0] > 0 && counters[1] > 0);
    assert!(matches!(s.join_step(), JoinStep::AlreadyJoined));
}

#[test]
fn queue_dequeue_reports_each_case() {
    let mut done = PoolQueue::<u8>::Done;
    assert!(matches!(done.dequeue(), DequeueResult::Joined));
    let mut empty = PoolQueue::<u8>::new();
    assert!(matches!(empty.dequeue(), DequeueResult::WaitingForTasks));
    let mut q = PoolQueue::Todo(VecDeque::from(vec![4u8, 5]));
    assert!(matches!(q.dequeue(), DequeueResult::TaskAvailable { task: 4, has_more: true }));
    assert!(matches!(q.dequeue(), DequeueResult::TaskAvailable { task: 5, has_more: false }));
    assert!(matches!(q.dequeue(), DequeueResult::WaitingForTasks));
}
