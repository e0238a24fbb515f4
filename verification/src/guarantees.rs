//! What a pool guarantees, whatever its owner and its workers do and in
//! whatever order they do it.

use crate::message::Message;
use crate::model::{stopped_count, Event, JobStage, PoolView};
use crate::preservation::{
    lemma_execute_wf, lemma_init_wf, lemma_job_done_wf, lemma_receive_wf, lemma_shutdown_wf,
    lemma_stopped_count_bounds,
};
use crate::worker::WorkerState;
use vstd::prelude::*;
use vstd::set_lib::{lemma_int_range, lemma_len_subset, lemma_map_size, set_int_range};

verus! {

/// A step that can happen leads from a well-formed state to a well-formed
/// state.
pub proof fn step_keeps_pool_well_formed<J, H>(v: PoolView<J, H>, event: Event<J>)
    requires
        v.wf(),
        v.enabled(event),
    ensures
        v.step(event).wf(),
{
    match event {
        Event::Execute(job) => lemma_execute_wf(v, job),
        Event::Receive { worker } => lemma_receive_wf(v, worker),
        Event::JobDone { worker } => lemma_job_done_wf(v, worker),
        Event::Shutdown => lemma_shutdown_wf(v),
    }
}

/// Every state that a pool reaches from a well-formed one is well-formed.
pub proof fn run_keeps_pool_well_formed<J, H>(v: PoolView<J, H>, events: Seq<Event<J>>)
    requires
        v.wf(),
        v.admits(events),
    ensures
        v.run(events).wf(),
    decreases events.len(),
{
    if events.len() > 0 {
        run_keeps_pool_well_formed(v, events.drop_last());
        step_keeps_pool_well_formed(v.run(events.drop_last()), events.last());
    }
}

/// A pool made over `size` thread handles has exactly `size` workers,
/// numbered from 0 in the order of the handles, each idle and each with its
/// own handle; nothing is queued and nothing has been submitted.
pub proof fn new_pool_has_one_idle_worker_per_thread<J, H>(threads: Seq<H>)
    requires
        1 <= threads.len() <= usize::MAX,
    ensures
        ({
            let pool = PoolView::<J, H>::init(threads);
            &&& pool.wf()
            &&& pool.size() == threads.len()
            &&& forall|i: int|
                0 <= i < threads.len() ==> {
                    &&& (#[trigger] pool.workers[i]).id == i
                    &&& pool.workers[i].state == WorkerState::Idle
                    &&& pool.workers[i].thread == Some(threads[i])
                }
            &&& pool.queue.messages.len() == 0
            &&& pool.submitted.len() == 0
            &&& !pool.draining
        }),
{
    lemma_init_wf::<J, H>(threads);
}

/// The number of workers never changes.
pub proof fn size_never_changes<J, H>(v: PoolView<J, H>, events: Seq<Event<J>>)
    requires
        v.wf(),
        v.admits(events),
    ensures
        v.run(events).size() == v.size(),
        forall|i: int| 0 <= i < v.size() ==> (#[trigger] v.run(events).workers[i]).id == i,
    decreases events.len(),
{
    run_keeps_pool_well_formed(v, events);
    if events.len() > 0 {
        size_never_changes(v, events.drop_last());
    }
}

/// Jobs leave the queue in the order in which they were submitted: the
/// job that a worker receives is the oldest one not yet handed out.
pub proof fn jobs_start_in_submission_order<J, H>(v: PoolView<J, H>, job: J)
    requires
        v.wf(),
        v.next_message() == Some(Message::NewJob(job)),
    ensures
        v.dispatched < v.submitted.len(),
        job == v.submitted[v.dispatched as int],
{
}

/// A worker receives the order to terminate only when every submitted job
/// has been handed out.
pub proof fn terminate_comes_after_every_job<J, H>(v: PoolView<J, H>)
    requires
        v.wf(),
        v.next_message() == Some(Message::<J>::Terminate),
    ensures
        v.draining,
        v.dispatched == v.submitted.len(),
{
}

/// Once shutdown has begun, the orders to terminate still queued and the
/// workers already stopped add up to the number of workers: each worker
/// gets one order, and no order is left over.
pub proof fn one_terminate_per_worker<J, H>(v: PoolView<J, H>)
    requires
        v.wf(),
        v.draining,
    ensures
        v.signals() + stopped_count(v.workers) == v.size(),
        v.queue.messages.len() == v.pending() + v.signals(),
        forall|j: int|
            v.pending() <= j < v.queue.messages.len() ==> #[trigger] v.queue.messages[j]
                == Message::<J>::Terminate,
{
}

/// At every moment, no more jobs are running than there are workers, and
/// no two running jobs share a worker. What the workers cannot take waits
/// in the queue.
pub proof fn at_most_size_jobs_run_at_once<J, H>(v: PoolView<J, H>)
    requires
        v.wf(),
    ensures
        v.running_jobs().finite(),
        v.running_jobs().len() <= v.size(),
        forall|a: int, b: int|
            v.running_jobs().contains(a) && v.running_jobs().contains(b) && a != b ==> (
            #[trigger] v.stage[a])->worker != (#[trigger] v.stage[b])->worker,
{
    let running = v.running_jobs();
    let worker_of = |k: int| v.stage[k]->worker;
    lemma_int_range(0, v.stage.len() as int);
    lemma_len_subset(running, set_int_range(0, v.stage.len() as int));
    let busy = running.map(worker_of);
    lemma_map_size(running, busy, worker_of);
    lemma_int_range(0, v.size() as int);
    lemma_len_subset(busy, set_int_range(0, v.size() as int));
}

/// A job starts only when a worker is free for it: the job is the oldest
/// one waiting, the worker was idle, and from this step on it runs that job.
pub proof fn job_starts_on_an_idle_worker<J, H>(v: PoolView<J, H>, event: Event<J>, job: int)
    requires
        v.wf(),
        v.enabled(event),
        v.starts(event, job),
    ensures
        0 <= job < v.submitted.len(),
        v.stage[job] is Queued,
        v.next_message() == Some(Message::NewJob(v.submitted[job])),
        event matches Event::Receive { worker } && {
            &&& v.workers[worker].state == WorkerState::Idle
            &&& v.step(event).workers[worker].state == WorkerState::Running
            &&& v.step(event).stage[job] == JobStage::Running { worker }
        },
{
}

/// A worker that is running a job is left alone until it reports the job
/// done: nothing stops it, and nothing gives it a second job.
pub proof fn running_worker_is_left_alone<J, H>(v: PoolView<J, H>, event: Event<J>, worker: int)
    requires
        v.wf(),
        v.enabled(event),
        0 <= worker < v.size(),
        v.workers[worker].state == WorkerState::Running,
        event != (Event::<J>::JobDone { worker }),
    ensures
        v.step(event).workers[worker].state == WorkerState::Running,
        v.step(event).assigned[worker] == v.assigned[worker],
        v.step(event).stage[v.assigned[worker]] == v.stage[v.assigned[worker]],
{
}

/// A worker stops in one way only: idle, it asks for the next message and
/// gets the order to terminate. Shutdown is graceful, never preemptive.
pub proof fn worker_stops_only_on_terminate<J, H>(v: PoolView<J, H>, event: Event<J>, worker: int)
    requires
        v.wf(),
        v.enabled(event),
        0 <= worker < v.size(),
        v.workers[worker].state != WorkerState::Stopped,
        v.step(event).workers[worker].state == WorkerState::Stopped,
    ensures
        event == (Event::<J>::Receive { worker }),
        v.workers[worker].state == WorkerState::Idle,
        v.next_message() == Some(Message::<J>::Terminate),
        v.dispatched == v.submitted.len(),
{
}

/// A worker that has stopped stays stopped: it receives nothing any more.
pub proof fn stopped_worker_stays_stopped<J, H>(v: PoolView<J, H>, event: Event<J>, worker: int)
    requires
        v.wf(),
        v.enabled(event),
        0 <= worker < v.size(),
        v.workers[worker].state == WorkerState::Stopped,
    ensures
        v.step(event).workers[worker].state == WorkerState::Stopped,
        event != (Event::<J>::Receive { worker }),
{
}

/// Shutdown begins once. From then on no job is accepted, and every
/// thread handle has been handed out: none can be joined a second time.
pub proof fn shutdown_begins_once<J, H>(v: PoolView<J, H>, event: Event<J>)
    requires
        v.wf(),
        v.draining,
        v.enabled(event),
    ensures
        event !is Shutdown,
        event !is Execute,
        v.step(event).draining,
        forall|i: int| 0 <= i < v.size() ==> (#[trigger] v.step(event).workers[i]).thread is None,
{
    step_keeps_pool_well_formed(v, event);
}

/// When every worker has stopped, shutdown is over and nothing is left
/// behind: the queue is empty and every job that was ever submitted has run
/// to completion.
pub proof fn shutdown_leaves_no_job_behind<J, H>(v: PoolView<J, H>)
    requires
        v.wf(),
        v.all_stopped(),
    ensures
        v.draining,
        v.queue.messages.len() == 0,
        v.dispatched == v.submitted.len(),
        forall|k: int| 0 <= k < v.submitted.len() ==> #[trigger] v.stage[k] == JobStage::Done,
{
    lemma_stopped_count_bounds(v.workers);
}

/// In the course of any run of a pool, each job is handed to a worker at
/// most once and reported done at most once, and its stage says which of
/// the two has happened.
pub proof fn no_job_runs_twice<J, H>(threads: Seq<H>, events: Seq<Event<J>>, job: int)
    requires
        1 <= threads.len() <= usize::MAX,
        PoolView::<J, H>::init(threads).admits(events),
    ensures
        ({
            let start = PoolView::<J, H>::init(threads);
            let end = start.run(events);
            let started = start.times_started(events, job);
            let finished = start.times_finished(events, job);
            &&& end.wf()
            &&& if 0 <= job < end.submitted.len() {
                match end.stage[job] {
                    JobStage::Queued => started == 0 && finished == 0,
                    JobStage::Running { .. } => started == 1 && finished == 0,
                    JobStage::Done => started == 1 && finished == 1,
                }
            } else {
                started == 0 && finished == 0
            }
        }),
    decreases events.len(),
{
    let start = PoolView::<J, H>::init(threads);
    lemma_init_wf::<J, H>(threads);
    run_keeps_pool_well_formed(start, events);
    if events.len() > 0 {
        let before = start.run(events.drop_last());
        let event = events.last();
        no_job_runs_twice::<J, H>(threads, events.drop_last(), job);
        step_keeps_pool_well_formed(before, event);
    }
}

/// Every job runs exactly once: when a pool that ran through `events` has
/// shut down, each job submitted along the way was handed to a worker once
/// and ran to completion once.
pub proof fn every_job_runs_exactly_once<J, H>(threads: Seq<H>, events: Seq<Event<J>>, job: int)
    requires
        1 <= threads.len() <= usize::MAX,
        PoolView::<J, H>::init(threads).admits(events),
        PoolView::<J, H>::init(threads).run(events).all_stopped(),
        0 <= job < PoolView::<J, H>::init(threads).run(events).submitted.len(),
    ensures
        PoolView::<J, H>::init(threads).times_started(events, job) == 1,
        PoolView::<J, H>::init(threads).times_finished(events, job) == 1,
{
    no_job_runs_twice::<J, H>(threads, events, job);
    shutdown_leaves_no_job_behind(PoolView::<J, H>::init(threads).run(events));
}

/// The events that fill every worker: each job of `jobs` is submitted, then
/// the workers ask for a message one after the other, from number 0 up to
/// the number of jobs.
pub open spec fn fill_every_worker<J>(jobs: Seq<J>) -> Seq<Event<J>> {
    Seq::new(
        2 * jobs.len(),
        |i: int|
            if i < jobs.len() {
                Event::Execute(jobs[i])
            } else {
                Event::Receive { worker: i - jobs.len() }
            },
    )
}

/// Where a fresh pool stands after the first `k` of the events that fill
/// every worker.
proof fn lemma_fill_prefix<J, H>(threads: Seq<H>, jobs: Seq<J>, k: int)
    requires
        1 <= threads.len() <= usize::MAX,
        jobs.len() == threads.len(),
        0 <= k <= 2 * jobs.len(),
    ensures
        ({
            let start = PoolView::<J, H>::init(threads);
            let events = fill_every_worker(jobs).take(k);
            let now = start.run(events);
            let received = if k <= jobs.len() {
                0
            } else {
                k - jobs.len()
            };
            &&& start.admits(events)
            &&& now.wf()
            &&& !now.draining
            &&& now.size() == threads.len()
            &&& now.submitted.len() == k - received
            &&& now.dispatched == received
            &&& forall|i: int|
                0 <= i < received ==> (#[trigger] now.workers[i]).state == WorkerState::Running
                    && now.stage[i] == JobStage::Running { worker: i }
            &&& forall|i: int|
                received <= i < threads.len() ==> (#[trigger] now.workers[i]).state
                    == WorkerState::Idle
        }),
    decreases k,
{
    let start = PoolView::<J, H>::init(threads);
    lemma_init_wf::<J, H>(threads);
    if k > 0 {
        let events = fill_every_worker(jobs).take(k);
        assert(events.drop_last() =~= fill_every_worker(jobs).take(k - 1));
        lemma_fill_prefix(threads, jobs, k - 1);
        let before = start.run(events.drop_last());
        step_keeps_pool_well_formed(before, events.last());
        if k > jobs.len() {
            let worker = k - 1 - jobs.len();
            let now = before.step(events.last());
            assert forall|i: int| 0 <= i < worker + 1 implies (#[trigger] now.workers[i]).state
                == WorkerState::Running && now.stage[i] == JobStage::Running { worker: i } by {}
        }
    }
}

/// Every worker can run a job of its own at the same time: when as many
/// jobs as there are workers are submitted to a fresh pool and each worker
/// then asks for one, all of them are running together and none is left in
/// the queue.
pub proof fn all_workers_run_side_by_side<J, H>(threads: Seq<H>, jobs: Seq<J>)
    requires
        1 <= threads.len() <= usize::MAX,
        jobs.len() == threads.len(),
    ensures
        ({
            let start = PoolView::<J, H>::init(threads);
            let now = start.run(fill_every_worker(jobs));
            &&& start.admits(fill_every_worker(jobs))
            &&& now.queue.messages.len() == 0
            &&& now.running_jobs().len() == threads.len()
            &&& forall|i: int|
                0 <= i < threads.len() ==> (#[trigger] now.workers[i]).state
                    == WorkerState::Running && now.stage[i] == JobStage::Running { worker: i }
        }),
{
    let events = fill_every_worker(jobs);
    assert(events.take(events.len() as int) =~= events);
    lemma_fill_prefix(threads, jobs, events.len() as int);
    let now = PoolView::<J, H>::init(threads).run(events);
    lemma_int_range(0, threads.len() as int);
    assert(now.running_jobs() =~= set_int_range(0, threads.len() as int)) by {
        assert forall|k: int| 0 <= k < threads.len() implies now.running_jobs().contains(k) by {
            assert(now.workers[k].state == WorkerState::Running);
        }
    }
}

} // verus!
