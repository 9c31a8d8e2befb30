use crate::queue::{dequeue_result_matches, queue_after_dequeue, DequeueResult, PoolQueue};
use vstd::prelude::*;

verus! {

/// Why a pool could not be built.
#[derive(Debug, Clone, Copy, PartialEq, Eq, Structural)]
pub enum ConstructionError {
    /// No worker data was given, so the pool would have no worker.
    NoWorkers,
    /// The queue bound was zero, so no task could ever be queued.
    ZeroCapacity,
}

/// What became of a task handed to [`PoolState::try_enqueue`].
pub enum EnqueueOutcome<T> {
    /// The task went to the tail of the queue: one waiting worker should be woken.
    Added,
    /// The queue holds as many tasks as it may: the task comes back, and the
    /// producer waits for a worker to take one.
    Full(T),
    /// The pool has shut down: the task comes back, never to run.
    ShutDown(T),
}

/// What a call of [`PoolState::join_step`] asks of the joining thread.
#[derive(Debug, Clone, Copy, PartialEq, Eq, Structural)]
pub enum JoinStep {
    /// Shutdown had already begun: nothing is left to do.
    AlreadyJoined,
    /// Tasks are still queued: wait until a worker takes one, then ask again.
    WaitForIdle,
    /// The queue was empty and the pool has now shut down: wake every worker
    /// and wait for their threads.
    StopWorkers,
}

/// The abstract state of a pool: its bound, its queue (`None` once shut
/// down), every task ever queued, and every task ever handed to a worker.
pub ghost struct PoolView<T> {
    pub capacity: nat,
    pub pending: Option<Seq<T>>,
    pub submitted: Seq<T>,
    pub taken: Seq<T>,
}

/// What holds of every state a pool can reach.
pub open spec fn pool_invariant<T>(v: PoolView<T>) -> bool {
    &&& v.capacity > 0
    &&& match v.pending {
        Some(q) => q.len() <= v.capacity && v.taken + q == v.submitted,
        None => v.taken == v.submitted,
    }
}

/// The state of a fresh pool with the given bound.
pub open spec fn initial_view<T>(capacity: nat) -> PoolView<T> {
    PoolView {
        capacity,
        pending: Some(Seq::empty()),
        submitted: Seq::empty(),
        taken: Seq::empty(),
    }
}

/// Whether a task offered now would be queued.
pub open spec fn accepts<T>(v: PoolView<T>) -> bool {
    v.pending matches Some(q) && q.len() < v.capacity
}

/// The state after offering `t`.
pub open spec fn after_enqueue<T>(v: PoolView<T>, t: T) -> PoolView<T> {
    if accepts(v) {
        PoolView {
            pending: Some(v.pending->0.push(t)),
            submitted: v.submitted.push(t),
            ..v
        }
    } else {
        v
    }
}

/// What offering `t` reports.
pub open spec fn enqueue_outcome_matches<T>(v: PoolView<T>, t: T, r: EnqueueOutcome<T>) -> bool {
    match v.pending {
        None => r == EnqueueOutcome::ShutDown(t),
        Some(q) => if q.len() < v.capacity {
            r is Added
        } else {
            r == EnqueueOutcome::Full(t)
        },
    }
}

/// The state after a worker looks at the queue: the head, if any, is taken.
pub open spec fn after_dequeue<T>(v: PoolView<T>) -> PoolView<T> {
    match v.pending {
        Some(q) => if q.len() > 0 {
            PoolView { pending: queue_after_dequeue(v.pending), taken: v.taken.push(q[0]), ..v }
        } else {
            v
        },
        None => v,
    }
}

/// What a join attempt decides.
pub open spec fn join_step_of<T>(v: PoolView<T>) -> JoinStep {
    match v.pending {
        None => JoinStep::AlreadyJoined,
        Some(q) => if q.len() == 0 {
            JoinStep::StopWorkers
        } else {
            JoinStep::WaitForIdle
        },
    }
}

/// The state after a join attempt: an empty accepting queue shuts down.
pub open spec fn after_join_step<T>(v: PoolView<T>) -> PoolView<T> {
    if join_step_of(v) == JoinStep::StopWorkers {
        PoolView { pending: None, ..v }
    } else {
        v
    }
}

/// The state that a pool's threads share behind one lock: the queue bound,
/// the queue itself, and the history of tasks queued and taken.
pub struct PoolState<T> {
    max_pending_tasks: usize,
    pending_tasks: PoolQueue<T>,
    submitted: Ghost<Seq<T>>,
    taken: Ghost<Seq<T>>,
}

impl<T> View for PoolState<T> {
    type V = PoolView<T>;

    closed spec fn view(&self) -> PoolView<T> {
        PoolView {
            capacity: self.max_pending_tasks as nat,
            pending: self.pending_tasks@,
            submitted: self.submitted@,
            taken: self.taken@,
        }
    }
}

impl<T> PoolState<T> {
    /// The state for a pool of `worker_count` workers whose queue holds at
    /// most `max_pending_tasks` tasks.
    pub fn new_with_queue_size(worker_count: usize, max_pending_tasks: usize) -> (r: Result<
        Self,
        ConstructionError,
    >)
        ensures
            worker_count == 0 ==> r == Err::<Self, ConstructionError>(
                ConstructionError::NoWorkers,
            ),
            worker_count > 0 && max_pending_tasks == 0 ==> r == Err::<Self, ConstructionError>(
                ConstructionError::ZeroCapacity,
            ),
            worker_count > 0 && max_pending_tasks > 0 ==> (r matches Ok(s) && s@ == initial_view::<
                T,
            >(max_pending_tasks as nat) && pool_invariant(s@)),
    {
        if worker_count == 0 {
            return Err(ConstructionError::NoWorkers);
        }
        if max_pending_tasks == 0 {
            return Err(ConstructionError::ZeroCapacity);
        }
        let s = PoolState {
            max_pending_tasks,
            pending_tasks: PoolQueue::new(),
            submitted: Ghost(Seq::empty()),
            taken: Ghost(Seq::empty()),
        };
        assert(s.taken@ + Seq::<T>::empty() =~= s.submitted@);
        Ok(s)
    }

    /// The state for a pool of `worker_count` workers, with one queue slot
    /// per worker.
    pub fn new(worker_count: usize) -> (r: Result<Self, ConstructionError>)
        ensures
            worker_count == 0 ==> r == Err::<Self, ConstructionError>(
                ConstructionError::NoWorkers,
            ),
            worker_count > 0 ==> (r matches Ok(s) && s@ == initial_view::<T>(worker_count as nat)
                && pool_invariant(s@)),
    {
        Self::new_with_queue_size(worker_count, worker_count)
    }

    /// Offers a task: it is queued at the tail if the pool accepts work and
    /// the queue has a free slot, else it comes back.
    pub fn try_enqueue(&mut self, task: T) -> (r: EnqueueOutcome<T>)
        requires
            pool_invariant(old(self)@),
        ensures
            final(self)@ == after_enqueue(old(self)@, task),
            enqueue_outcome_matches(old(self)@, task, r),
            pool_invariant(final(self)@),
    {
        let ghost before = self@;
        match &mut self.pending_tasks {
            PoolQueue::Done => EnqueueOutcome::ShutDown(task),
            PoolQueue::Todo(tasks) => {
                if tasks.len() >= self.max_pending_tasks {
                    EnqueueOutcome::Full(task)
                } else {
                    self.submitted = Ghost(before.submitted.push(task));
                    tasks.push_back(task);
                    proof {
                        let q = before.pending->0;
                        assert(before.taken + q.push(task) =~= (before.taken + q).push(task));
                    }
                    EnqueueOutcome::Added
                }
            },
        }
    }

    /// A worker's look at the queue: hands out the head if there is one.
    pub fn dequeue(&mut self) -> (r: DequeueResult<T>)
        requires
            pool_invariant(old(self)@),
        ensures
            final(self)@ == after_dequeue(old(self)@),
            dequeue_result_matches(old(self)@.pending, r),
            pool_invariant(final(self)@),
    {
        let ghost before = self@;
        let r = self.pending_tasks.dequeue();
        self.taken = Ghost(after_dequeue(before).taken);
        proof {
            if let Some(q) = before.pending {
                if q.len() > 0 {
                    assert(before.taken.push(q[0]) + q.drop_first() =~= before.taken + q);
                }
            }
        }
        r
    }

    /// One attempt of a join: shuts the pool down if nothing is queued.
    pub fn join_step(&mut self) -> (r: JoinStep)
        requires
            pool_invariant(old(self)@),
        ensures
            r == join_step_of(old(self)@),
            final(self)@ == after_join_step(old(self)@),
            pool_invariant(final(self)@),
    {
        let ghost before = self@;
        let r = match &self.pending_tasks {
            PoolQueue::Done => JoinStep::AlreadyJoined,
            PoolQueue::Todo(tasks) => if tasks.len() == 0 {
                JoinStep::StopWorkers
            } else {
                JoinStep::WaitForIdle
            },
        };
        if let JoinStep::StopWorkers = r {
            self.pending_tasks = PoolQueue::Done;
            proof {
                assert(before.taken + before.pending->0 =~= before.taken);
            }
        }
        r
    }

    /// The most tasks the queue may hold.
    pub fn max_pending_tasks(&self) -> (r: usize)
        ensures
            r == self@.capacity,
    {
        self.max_pending_tasks
    }

    /// How many tasks wait in the queue, or `None` once shut down.
    pub fn pending_count(&self) -> (r: Option<usize>)
        ensures
            match self@.pending {
                None => r is None,
                Some(q) => r == Some(q.len() as usize),
            },
    {
        match &self.pending_tasks {
            PoolQueue::Done => None,
            PoolQueue::Todo(tasks) => Some(tasks.len()),
        }
    }

    /// Whether shutdown has begun.
    pub fn is_shut_down(&self) -> (r: bool)
        ensures
            r == (self@.pending is None),
    {
        match &self.pending_tasks {
            PoolQueue::Done => true,
            PoolQueue::Todo(_) => false,
        }
    }
}

} // verus!
