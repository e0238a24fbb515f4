//! The pool itself: a fixed set of workers around one shared job queue.
//!
//! [`ThreadPool`] is the pool's whole bookkeeping as plain data. It spawns
//! no thread and never blocks: the caller spawns one thread per worker,
//! keeps the pool behind a lock, and lets every thread report what it does.
//! A worker thread calls [`ThreadPool::receive`] for its next message, waits
//! when there is none, runs the job it got and reports
//! [`ThreadPool::job_done`]; it ends when it receives the order to
//! terminate. The owner submits with [`ThreadPool::execute`] and ends the
//! pool with [`ThreadPool::shutdown`], joining the handles it gets back.
//!
//! The pool learns of a job's end only from `job_done`. A job that fails
//! takes its thread with it: its worker stays running for good, and the
//! pool's shutdown never comes to an end.

use crate::message::Message;
use crate::model::{JobStage, PoolView};
use crate::preservation::{
    lemma_execute_wf, lemma_init_wf, lemma_job_done_wf, lemma_receive_wf, lemma_shutdown_wf,
    lemma_stopped_count_bounds,
};
use crate::queue::JobQueue;
use crate::worker::{Worker, WorkerState};
use vstd::prelude::*;

verus! {

/// A fixed-size pool of workers that share one job queue.
///
/// `J` is the type of a job, `H` the type of a thread handle. The pool
/// looks into neither.
pub struct ThreadPool<J, H> {
    /// The workers, in the order of their numbers.
    workers: Vec<Worker<H>>,
    /// The queue that the owner sends into and the workers receive from.
    queue: JobQueue<J>,
    /// Whether shutdown has begun.
    draining: bool,
    /// Every job ever submitted, in the order of submission.
    submitted: Ghost<Seq<J>>,
    /// For each submitted job, how far it has come.
    stage: Ghost<Seq<JobStage>>,
    /// How many of the submitted jobs have been handed to a worker.
    dispatched: Ghost<nat>,
    /// For each worker, the position of the job it received last.
    assigned: Ghost<Seq<int>>,
}

impl<J, H> View for ThreadPool<J, H> {
    type V = PoolView<J, H>;

    closed spec fn view(&self) -> PoolView<J, H> {
        PoolView {
            workers: Seq::new(self.workers@.len(), |i: int| self.workers@[i]@),
            queue: self.queue@,
            draining: self.draining,
            submitted: self.submitted@,
            stage: self.stage@,
            dispatched: self.dispatched@,
            assigned: self.assigned@,
        }
    }
}

impl<J, H> ThreadPool<J, H> {
    /// Whether the pool is in a state it can reach. Every pool that `new`
    /// made is, and stays so whatever is called on it.
    pub open spec fn wf(&self) -> bool {
        self@.wf()
    }

    /// Makes a pool of as many workers as there are thread handles. The
    /// worker with number `i` is the one whose thread has handle
    /// `threads[i]`; all workers are idle and the queue is empty.
    ///
    /// A pool without workers could never run a job: at least one handle is
    /// required.
    pub fn new(threads: Vec<H>) -> (pool: Self)
        requires
            threads@.len() > 0,
        ensures
            pool.wf(),
            pool@ == PoolView::<J, H>::init(threads@),
    {
        let ghost handles = threads@;
        let size = threads.len();
        let mut workers: Vec<Worker<H>> = Vec::with_capacity(size);
        let mut id: usize = 0;
        for thread in it: threads
            invariant
                it.seq() == handles,
                handles.len() == size,
                id == it.index(),
                workers@.len() == id,
                forall|i: int|
                    0 <= i < id ==> (#[trigger] workers@[i])@ == PoolView::<J, H>::init(
                        handles,
                    ).workers[i],
        {
            workers.push(Worker::new(id, thread));
            id = id + 1;
        }
        let pool = ThreadPool {
            workers,
            queue: JobQueue::new(size),
            draining: false,
            submitted: Ghost(Seq::empty()),
            stage: Ghost(Seq::empty()),
            dispatched: Ghost(0),
            assigned: Ghost(Seq::new(size as nat, |i: int| 0int)),
        };
        proof {
            lemma_init_wf::<J, H>(handles);
            assert(pool@.workers =~= PoolView::<J, H>::init(handles).workers);
        }
        pool
    }

    /// The number of workers, fixed at construction.
    pub fn size(&self) -> (n: usize)
        ensures
            n == self@.size(),
    {
        self.workers.len()
    }

    /// Submits `job`: it is enqueued behind everything already waiting, and
    /// the call returns without waiting for the job to run.
    ///
    /// Submitting to a pool whose shutdown has begun is an error of the
    /// caller, and is not allowed here.
    pub fn execute(&mut self, job: J)
        requires
            old(self).wf(),
            !old(self)@.draining,
        ensures
            final(self).wf(),
            final(self)@ == old(self)@.execute(job),
    {
        proof {
            lemma_execute_wf(self@, job);
            self.submitted@ = self.submitted@.push(job);
            self.stage@ = self.stage@.push(JobStage::Queued);
        }
        let sent = self.queue.send(Message::NewJob(job));
        assert(sent is Ok);
    }

    /// The worker with number `worker`, which is idle, asks for the next
    /// message. It gets the oldest one in the queue, and nobody else gets
    /// that one. With a job the worker is then running; with the order to
    /// terminate it has stopped. `None` means the queue is empty: nothing
    /// has changed and the worker has to wait.
    pub fn receive(&mut self, worker: usize) -> (message: Option<Message<J>>)
        requires
            old(self).wf(),
            worker < old(self)@.size(),
            old(self)@.workers[worker as int].state == WorkerState::Idle,
        ensures
            final(self).wf(),
            message == old(self)@.next_message(),
            final(self)@ == old(self)@.receive(worker as int),
    {
        proof {
            lemma_receive_wf(self@, worker as int);
        }
        let message = self.queue.receive();
        match &message {
            None => {},
            Some(received) => {
                self.workers[worker].on_message(received);
                match received {
                    Message::NewJob(_) => {
                        proof {
                            let position = self.dispatched@ as int;
                            self.stage@ = self.stage@.update(
                                position,
                                JobStage::Running { worker: worker as int },
                            );
                            self.assigned@ = self.assigned@.update(worker as int, position);
                            self.dispatched@ = self.dispatched@ + 1;
                        }
                    },
                    Message::Terminate => {
                        self.queue.disconnect();
                    },
                }
                assert(self@.workers =~= old(self)@.receive(worker as int).workers);
            },
        }
        message
    }

    /// The worker with number `worker`, which is running, reports that its
    /// job has run to completion. The worker is idle again.
    pub fn job_done(&mut self, worker: usize)
        requires
            old(self).wf(),
            worker < old(self)@.size(),
            old(self)@.workers[worker as int].state == WorkerState::Running,
        ensures
            final(self).wf(),
            final(self)@ == old(self)@.job_done(worker as int),
    {
        proof {
            lemma_job_done_wf(self@, worker as int);
            self.stage@ = self.stage@.update(self.assigned@[worker as int], JobStage::Done);
        }
        self.workers[worker].job_done();
        assert(self@.workers =~= old(self)@.job_done(worker as int).workers);
    }

    /// Begins shutdown: enqueues one order to terminate per worker, behind
    /// every job already submitted, and takes every worker's thread handle.
    /// The handles come back in the order of the workers' numbers, for the
    /// caller to join one after the other.
    ///
    /// Nothing is interrupted: a worker gets its order only after the jobs
    /// before it in the queue have been handed out.
    pub fn shutdown(&mut self) -> (handles: Vec<H>)
        requires
            old(self).wf(),
            !old(self)@.draining,
        ensures
            final(self).wf(),
            final(self)@ == old(self)@.shutdown(),
            handles@ == old(self)@.handles(),
    {
        proof {
            lemma_shutdown_wf(self@);
        }
        let size = self.workers.len();
        let mut signalled: usize = 0;
        while signalled < size
            invariant
                signalled <= size,
                size == self.workers@.len(),
                size >= 1,
                self.workers == old(self).workers,
                self.draining == old(self).draining,
                self.submitted == old(self).submitted,
                self.stage == old(self).stage,
                self.dispatched == old(self).dispatched,
                self.assigned == old(self).assigned,
                self.queue@.receivers == size,
                old(self).queue@.receivers == size,
                self.queue@.messages == old(self).queue@.messages + Seq::new(
                    signalled as nat,
                    |i: int| Message::<J>::Terminate,
                ),
            decreases size - signalled,
        {
            let sent = self.queue.send(Message::Terminate);
            assert(sent is Ok);
            signalled = signalled + 1;
        }
        let mut handles: Vec<H> = Vec::with_capacity(size);
        let mut taken: usize = 0;
        while taken < size
            invariant
                taken <= size,
                size == self.workers@.len(),
                size == old(self).workers@.len(),
                old(self).wf(),
                !old(self).draining,
                self.draining == old(self).draining,
                self.submitted == old(self).submitted,
                self.stage == old(self).stage,
                self.dispatched == old(self).dispatched,
                self.assigned == old(self).assigned,
                self.queue@ == old(self)@.shutdown().queue,
                handles@.len() == taken,
                forall|i: int|
                    0 <= i < taken ==> (#[trigger] handles@[i]) == old(self)@.handles()[i],
                forall|i: int|
                    0 <= i < taken ==> (#[trigger] self.workers@[i])@
                        == old(self)@.shutdown().workers[i],
                forall|i: int|
                    taken <= i < size ==> (#[trigger] self.workers@[i]) == old(self).workers@[i],
            decreases size - taken,
        {
            assert(old(self)@.workers[taken as int].thread is Some);
            if let Some(thread) = self.workers[taken].take_thread() {
                handles.push(thread);
            }
            taken = taken + 1;
        }
        self.draining = true;
        assert(self@.workers =~= old(self)@.shutdown().workers);
        handles
    }

    /// Where the worker with number `worker` stands in its loop.
    pub fn worker_state(&self, worker: usize) -> (state: WorkerState)
        requires
            worker < self@.size(),
        ensures
            state == self@.workers[worker as int].state,
    {
        self.workers[worker].state()
    }

    /// The number of messages waiting in the queue.
    pub fn queued(&self) -> (n: usize)
        ensures
            n == self@.queue.messages.len(),
    {
        self.queue.len()
    }

    /// The number of workers that have not stopped.
    pub fn live_workers(&self) -> (n: usize)
        ensures
            n == self@.queue.receivers,
    {
        self.queue.receivers()
    }

    /// Whether shutdown has begun.
    pub fn is_draining(&self) -> (b: bool)
        ensures
            b == self@.draining,
    {
        self.draining
    }

    /// Whether shutdown is over: every worker has stopped, so joining its
    /// thread no longer blocks.
    pub fn is_shut_down(&self) -> (b: bool)
        requires
            self.wf(),
        ensures
            b == self@.all_stopped(),
    {
        proof {
            lemma_stopped_count_bounds(self@.workers);
        }
        self.queue.receivers() == 0
    }
}

} // verus!
