//! Every step of the pool keeps its state well-formed.

use crate::model::{stopped_count, PoolView};
use crate::worker::{WorkerState, WorkerView};
use vstd::prelude::*;

verus! {

/// Changing one worker changes the number of stopped workers by that
/// worker's own contribution, and by nothing else.
pub proof fn lemma_stopped_count_update<H>(
    workers: Seq<WorkerView<H>>,
    i: int,
    worker: WorkerView<H>,
)
    requires
        0 <= i < workers.len(),
    ensures
        stopped_count(workers.update(i, worker)) + (if workers[i].state == WorkerState::Stopped {
            1nat
        } else {
            0nat
        }) == stopped_count(workers) + (if worker.state == WorkerState::Stopped {
            1nat
        } else {
            0nat
        }),
    decreases workers.len(),
{
    let updated = workers.update(i, worker);
    if i == workers.len() - 1 {
        assert(updated.drop_last() =~= workers.drop_last());
    } else {
        lemma_stopped_count_update(workers.drop_last(), i, worker);
        assert(updated.drop_last() =~= workers.drop_last().update(i, worker));
    }
}

/// The number of stopped workers depends on the workers' states alone.
pub proof fn lemma_stopped_count_by_state<H>(a: Seq<WorkerView<H>>, b: Seq<WorkerView<H>>)
    requires
        a.len() == b.len(),
        forall|i: int| 0 <= i < a.len() ==> (#[trigger] a[i]).state == b[i].state,
    ensures
        stopped_count(a) == stopped_count(b),
    decreases a.len(),
{
    if a.len() > 0 {
        lemma_stopped_count_by_state(a.drop_last(), b.drop_last());
    }
}

/// No more workers have stopped than there are; if none has, every worker
/// is still at work, and if all have, every worker has stopped.
pub proof fn lemma_stopped_count_bounds<H>(workers: Seq<WorkerView<H>>)
    ensures
        stopped_count(workers) <= workers.len(),
        stopped_count(workers) == 0 <==> forall|i: int|
            0 <= i < workers.len() ==> (#[trigger] workers[i]).state != WorkerState::Stopped,
        stopped_count(workers) == workers.len() <==> forall|i: int|
            0 <= i < workers.len() ==> (#[trigger] workers[i]).state == WorkerState::Stopped,
    decreases workers.len(),
{
    if workers.len() > 0 {
        let front = workers.drop_last();
        lemma_stopped_count_bounds(front);
        if stopped_count(workers) == 0 {
            assert forall|i: int| 0 <= i < workers.len() implies (#[trigger] workers[i]).state
                != WorkerState::Stopped by {
                if i < front.len() {
                    assert(front[i] == workers[i]);
                }
            }
        }
        if stopped_count(workers) == workers.len() {
            assert forall|i: int| 0 <= i < workers.len() implies (#[trigger] workers[i]).state
                == WorkerState::Stopped by {
                if i < front.len() {
                    assert(front[i] == workers[i]);
                }
            }
        }
    }
}

/// A pool is well-formed right after construction.
pub proof fn lemma_init_wf<J, H>(threads: Seq<H>)
    requires
        1 <= threads.len() <= usize::MAX,
    ensures
        PoolView::<J, H>::init(threads).wf(),
{
    lemma_stopped_count_bounds(PoolView::<J, H>::init(threads).workers);
}

/// Submitting a job before shutdown keeps the pool well-formed.
pub proof fn lemma_execute_wf<J, H>(v: PoolView<J, H>, job: J)
    requires
        v.wf(),
        !v.draining,
    ensures
        v.execute(job).wf(),
{
}

/// An idle worker asking for the next message keeps the pool well-formed,
/// whatever it gets.
pub proof fn lemma_receive_wf<J, H>(v: PoolView<J, H>, worker: int)
    requires
        v.wf(),
        0 <= worker < v.size(),
        v.workers[worker].state == WorkerState::Idle,
    ensures
        v.receive(worker).wf(),
{
    if v.next_message() is Some {
        lemma_stopped_count_update(v.workers, worker, v.receive(worker).workers[worker]);
    }
}

/// A running worker finishing its job keeps the pool well-formed.
pub proof fn lemma_job_done_wf<J, H>(v: PoolView<J, H>, worker: int)
    requires
        v.wf(),
        0 <= worker < v.size(),
        v.workers[worker].state == WorkerState::Running,
    ensures
        v.job_done(worker).wf(),
{
    lemma_stopped_count_update(v.workers, worker, v.job_done(worker).workers[worker]);
}

/// Beginning shutdown keeps the pool well-formed.
pub proof fn lemma_shutdown_wf<J, H>(v: PoolView<J, H>)
    requires
        v.wf(),
        !v.draining,
    ensures
        v.shutdown().wf(),
{
    lemma_stopped_count_by_state(v.workers, v.shutdown().workers);
}

} // verus!
