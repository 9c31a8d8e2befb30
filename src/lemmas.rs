use crate::pool::{
    accepts, after_dequeue, after_enqueue, after_join_step, enqueue_outcome_matches, join_step_of,
    pool_invariant, EnqueueOutcome, JoinStep, PoolView,
};
use vstd::prelude::*;

verus! {

/// The queue never holds more tasks than the pool's bound: in every reachable
/// state, and after any enqueue, dequeue or join attempt from it.
pub proof fn lemma_capacity_never_exceeded<T>(v: PoolView<T>, t: T)
    requires
        pool_invariant(v),
    ensures
        v.pending matches Some(q) ==> q.len() <= v.capacity,
        pool_invariant(after_enqueue(v, t)),
        pool_invariant(after_dequeue(v)),
        pool_invariant(after_join_step(v)),
        after_enqueue(v, t).pending matches Some(q) ==> q.len() <= v.capacity,
        after_dequeue(v).pending matches Some(q) ==> q.len() <= v.capacity,
{
    if accepts(v) {
        let q = v.pending->0;
        assert(v.taken + q.push(t) =~= (v.taken + q).push(t));
    }
    if let Some(q) = v.pending {
        if q.len() > 0 {
            assert(v.taken.push(q[0]) + q.drop_first() =~= v.taken + q);
        }
        if q.len() == 0 {
            assert(v.taken + q =~= v.taken);
        }
    }
}

/// A producer facing a full queue is held back: its enqueue queues nothing and
/// reports `Full` for as long as no worker takes a task, and one dequeue by a
/// worker frees a slot for it.
pub proof fn lemma_full_queue_holds_producer<T>(v: PoolView<T>, t: T)
    requires
        pool_invariant(v),
        v.pending matches Some(q) && q.len() == v.capacity,
    ensures
        !accepts(v),
        after_enqueue(v, t) == v,
        forall|r: EnqueueOutcome<T>|
            enqueue_outcome_matches(v, t, r) <==> r == EnqueueOutcome::Full(t),
        accepts(after_dequeue(v)),
        after_enqueue(after_dequeue(v), t).submitted == v.submitted.push(t),
{
}

/// Tasks reach the workers in the order they were queued: the tasks taken so
/// far are exactly the first ones submitted, so of two tasks submitted one
/// after the other, the later one is never taken before the earlier one.
pub proof fn lemma_delivery_in_submission_order<T>(v: PoolView<T>, i: int, j: int)
    requires
        pool_invariant(v),
        0 <= i < j < v.submitted.len(),
        j < v.taken.len(),
    ensures
        v.taken.len() <= v.submitted.len(),
        v.taken =~= v.submitted.subrange(0, v.taken.len() as int),
        v.taken[i] == v.submitted[i],
        v.taken[j] == v.submitted[j],
{
    match v.pending {
        Some(q) => {
            assert((v.taken + q).subrange(0, v.taken.len() as int) =~= v.taken);
        },
        None => {},
    }
}

/// The workers are told to stop only once the queue has drained: at that
/// moment every task ever submitted has been handed to a worker.
pub proof fn lemma_stop_only_after_drain<T>(v: PoolView<T>)
    requires
        pool_invariant(v),
        join_step_of(v) == JoinStep::StopWorkers,
    ensures
        after_join_step(v).pending is None,
        after_join_step(v).taken == v.submitted,
        after_join_step(v).submitted == v.submitted,
{
    assert(v.taken + v.pending->0 =~= v.taken);
}

/// Teardown may run any number of times: once shut down, a join attempt finds
/// nothing to do and changes nothing, and the pool never accepts or hands out
/// work again.
pub proof fn lemma_join_idempotent<T>(v: PoolView<T>, t: T)
    requires
        pool_invariant(v),
    ensures
        join_step_of(v) == JoinStep::StopWorkers ==> join_step_of(after_join_step(v))
            == JoinStep::AlreadyJoined,
        after_join_step(after_join_step(v)) == after_join_step(v),
        v.pending is None ==> join_step_of(v) == JoinStep::AlreadyJoined && after_join_step(v)
            == v,
        v.pending is None ==> after_enqueue(v, t) == v && after_dequeue(v) == v,
{
}

} // verus!
