use std::collections::VecDeque;
use vstd::prelude::*;

verus! {

/// The pending tasks of a pool: `Todo` while the pool accepts work, `Done`
/// once shutdown has begun (terminal: nothing is queued any more).
pub enum PoolQueue<T> {
    Done,
    Todo(VecDeque<T>),
}

/// What a worker finds when it looks at the queue.
pub enum DequeueResult<T> {
    /// The pool has shut down: the worker stops.
    Joined,
    /// The pool accepts work but nothing is queued: the worker waits.
    WaitingForTasks,
    /// The head of the queue, and whether tasks remain behind it.
    TaskAvailable { task: T, has_more: bool },
}

impl<T> View for PoolQueue<T> {
    /// `None` once shut down, else the queued tasks from head to tail.
    type V = Option<Seq<T>>;

    open spec fn view(&self) -> Option<Seq<T>> {
        match self {
            PoolQueue::Done => None,
            PoolQueue::Todo(tasks) => Some(tasks@),
        }
    }
}

/// The queue after one dequeue: the head leaves an accepting, non-empty queue.
pub open spec fn queue_after_dequeue<T>(q: Option<Seq<T>>) -> Option<Seq<T>> {
    match q {
        Some(s) => if s.len() > 0 {
            Some(s.drop_first())
        } else {
            q
        },
        None => None,
    }
}

/// What a dequeue on `q` reports, up to the task it hands out.
pub open spec fn dequeue_result_matches<T>(q: Option<Seq<T>>, r: DequeueResult<T>) -> bool {
    match q {
        None => r is Joined,
        Some(s) => if s.len() == 0 {
            r is WaitingForTasks
        } else {
            r matches DequeueResult::TaskAvailable { task, has_more } && task == s[0] && has_more
                == (s.len() > 1)
        },
    }
}

impl<T> PoolQueue<T> {
    /// An accepting queue with nothing in it.
    pub fn new() -> (r: Self)
        ensures
            r@ == Some(Seq::<T>::empty()),
    {
        PoolQueue::Todo(VecDeque::new())
    }

    /// Takes the head of the queue, if the pool accepts work and a task waits.
    pub fn dequeue(&mut self) -> (r: DequeueResult<T>)
        ensures
            final(self)@ == queue_after_dequeue(old(self)@),
            dequeue_result_matches(old(self)@, r),
    {
        match self {
            PoolQueue::Done => DequeueResult::Joined,
            PoolQueue::Todo(tasks) => match tasks.pop_front() {
                Some(task) => {
                    let has_more = tasks.len() > 0;
                    DequeueResult::TaskAvailable { task, has_more }
                },
                None => DequeueResult::WaitingForTasks,
            },
        }
    }
}

} // verus!
