//! The pool as mathematics: its state, the steps it can take, and what holds
//! of every state it can reach.
//!
//! The executable pool refines this model step for step, so whatever is
//! proved here of the model holds of the pool at run time.

use crate::message::Message;
use crate::queue::QueueView;
use crate::worker::{state_after, WorkerState, WorkerView};
use vstd::prelude::*;

verus! {

/// How far a submitted job has come. A job only ever moves forward:
/// queued, then running on one worker, then done.
pub enum JobStage {
    /// Waiting in the queue.
    Queued,
    /// Handed to the worker with this number, which has not finished it yet.
    Running { worker: int },
    /// Run to completion.
    Done,
}

/// The whole state of a pool.
pub struct PoolView<J, H> {
    /// The workers, in the order of their numbers.
    pub workers: Seq<WorkerView<H>>,
    /// The shared queue.
    pub queue: QueueView<J>,
    /// Whether shutdown has begun.
    pub draining: bool,
    /// Every job ever submitted, in the order of submission.
    pub submitted: Seq<J>,
    /// For each submitted job, how far it has come.
    pub stage: Seq<JobStage>,
    /// How many of the submitted jobs have been handed to a worker.
    pub dispatched: nat,
    /// For each worker, the position in `submitted` of the job it received
    /// last; it says something only while the worker is running.
    pub assigned: Seq<int>,
}

/// How many of `workers` have stopped.
pub open spec fn stopped_count<H>(workers: Seq<WorkerView<H>>) -> nat
    decreases workers.len(),
{
    if workers.len() == 0 {
        0
    } else {
        stopped_count(workers.drop_last()) + if workers.last().state == WorkerState::Stopped {
            1nat
        } else {
            0nat
        }
    }
}

impl<J, H> PoolView<J, H> {
    /// The number of workers.
    pub open spec fn size(self) -> nat {
        self.workers.len()
    }

    /// The number of jobs still waiting in the queue.
    pub open spec fn pending(self) -> nat {
        (self.submitted.len() - self.dispatched) as nat
    }

    /// The number of orders to terminate still waiting in the queue.
    pub open spec fn signals(self) -> nat {
        if self.draining {
            self.queue.receivers
        } else {
            0
        }
    }

    /// Whether every worker has stopped, which is when shutdown is over.
    pub open spec fn all_stopped(self) -> bool {
        forall|i: int|
            0 <= i < self.workers.len() ==> (#[trigger] self.workers[i]).state
                == WorkerState::Stopped
    }

    /// The fixed shape of a pool: at least one worker, numbered in order,
    /// each with its thread's handle until shutdown takes it.
    pub open spec fn workers_wf(self) -> bool {
        &&& self.workers.len() >= 1
        &&& self.assigned.len() == self.workers.len()
        &&& forall|i: int| 0 <= i < self.workers.len() ==> (#[trigger] self.workers[i]).id == i
        &&& forall|i: int|
            0 <= i < self.workers.len() ==> ((#[trigger] self.workers[i]).thread is Some
                <==> !self.draining)
        &&& self.queue.receivers + stopped_count(self.workers) == self.workers.len()
        &&& !self.draining ==> self.queue.receivers == self.workers.len()
    }

    /// The queue holds the jobs not yet handed out, oldest first, and behind
    /// them one order to terminate for each worker that has not stopped.
    pub open spec fn queue_wf(self) -> bool {
        &&& self.dispatched <= self.submitted.len()
        &&& self.queue.messages.len() == self.pending() + self.signals()
        &&& forall|j: int|
            0 <= j < self.pending() ==> #[trigger] self.queue.messages[j] == Message::NewJob(
                self.submitted[self.dispatched + j],
            )
        &&& forall|j: int|
            self.pending() <= j < self.queue.messages.len() ==> #[trigger] self.queue.messages[j]
                == Message::<J>::Terminate
        &&& self.queue.receivers < self.workers.len() ==> self.pending() == 0
    }

    /// Every job that is running is held by a running worker, which knows
    /// that this is its job.
    pub open spec fn running_jobs_have_workers(self) -> bool {
        forall|k: int|
            0 <= k < self.stage.len() && (#[trigger] self.stage[k]) is Running ==> {
                let w = self.stage[k]->worker;
                &&& 0 <= w < self.workers.len()
                &&& self.workers[w].state == WorkerState::Running
                &&& self.assigned[w] == k
            }
    }

    /// Every worker that is running holds a job, which is running on this
    /// worker.
    pub open spec fn running_workers_have_jobs(self) -> bool {
        forall|i: int|
            0 <= i < self.workers.len() && (#[trigger] self.workers[i]).state
                == WorkerState::Running ==> {
                &&& 0 <= self.assigned[i] < self.stage.len()
                &&& self.stage[self.assigned[i]] == JobStage::Running { worker: i }
            }
    }

    /// Jobs are handed out in the order of submission, and a job is running
    /// exactly while one worker is running it.
    pub open spec fn stages_wf(self) -> bool {
        &&& self.stage.len() == self.submitted.len()
        &&& forall|k: int|
            0 <= k < self.stage.len() ==> ((#[trigger] self.stage[k]) is Queued <==> k
                >= self.dispatched)
        &&& self.running_jobs_have_workers()
        &&& self.running_workers_have_jobs()
    }

    /// What holds of every state a pool can reach.
    pub open spec fn wf(self) -> bool {
        &&& self.workers_wf()
        &&& self.queue_wf()
        &&& self.stages_wf()
    }

    /// The pool right after construction over the given thread handles:
    /// one idle worker per handle, nothing queued, nothing submitted.
    pub open spec fn init(threads: Seq<H>) -> Self {
        PoolView {
            workers: Seq::new(
                threads.len(),
                |i: int|
                    WorkerView {
                        id: i as usize,
                        state: WorkerState::Idle,
                        thread: Some(threads[i]),
                    },
            ),
            queue: QueueView { messages: Seq::empty(), receivers: threads.len() },
            draining: false,
            submitted: Seq::empty(),
            stage: Seq::empty(),
            dispatched: 0,
            assigned: Seq::new(threads.len(), |i: int| 0int),
        }
    }

    /// The pool after `job` was submitted: the job is last in the queue.
    pub open spec fn execute(self, job: J) -> Self {
        PoolView {
            queue: QueueView {
                messages: self.queue.messages.push(Message::NewJob(job)),
                ..self.queue
            },
            submitted: self.submitted.push(job),
            stage: self.stage.push(JobStage::Queued),
            ..self
        }
    }

    /// What a worker gets when it asks for the next message: the oldest one
    /// in the queue, or nothing while the queue is empty.
    pub open spec fn next_message(self) -> Option<Message<J>> {
        if self.queue.messages.len() == 0 {
            None
        } else {
            Some(self.queue.messages[0])
        }
    }

    /// The pool after the idle worker `worker` asked for the next message.
    /// On an empty queue nothing changes. A job leaves the queue and sets the
    /// worker running; an order to terminate leaves the queue and stops it.
    pub open spec fn receive(self, worker: int) -> Self {
        match self.next_message() {
            None => self,
            Some(message) => {
                let taken = PoolView {
                    workers: self.workers.update(
                        worker,
                        WorkerView { state: state_after(message), ..self.workers[worker] },
                    ),
                    queue: QueueView { messages: self.queue.messages.skip(1), ..self.queue },
                    ..self
                };
                match message {
                    Message::NewJob(_) => PoolView {
                        stage: self.stage.update(
                            self.dispatched as int,
                            JobStage::Running { worker },
                        ),
                        dispatched: self.dispatched + 1,
                        assigned: self.assigned.update(worker, self.dispatched as int),
                        ..taken
                    },
                    Message::Terminate => PoolView {
                        queue: QueueView {
                            receivers: (self.queue.receivers - 1) as nat,
                            ..taken.queue
                        },
                        ..taken
                    },
                }
            },
        }
    }

    /// The pool after the running worker `worker` finished its job.
    pub open spec fn job_done(self, worker: int) -> Self {
        PoolView {
            workers: self.workers.update(
                worker,
                WorkerView { state: WorkerState::Idle, ..self.workers[worker] },
            ),
            stage: self.stage.update(self.assigned[worker], JobStage::Done),
            ..self
        }
    }

    /// The thread handles that shutdown hands out for joining: one per
    /// worker, in the order of the workers' numbers.
    pub open spec fn handles(self) -> Seq<H> {
        Seq::new(self.workers.len(), |i: int| self.workers[i].thread->0)
    }

    /// The pool after shutdown began: one order to terminate per worker is
    /// queued behind every job, and every thread handle has been taken.
    pub open spec fn shutdown(self) -> Self {
        PoolView {
            workers: Seq::new(
                self.workers.len(),
                |i: int| WorkerView { thread: None, ..self.workers[i] },
            ),
            queue: QueueView {
                messages: self.queue.messages + Seq::new(
                    self.workers.len(),
                    |i: int| Message::<J>::Terminate,
                ),
                ..self.queue
            },
            draining: true,
            ..self
        }
    }
}

/// One step of a pool: something its owner or one of its workers does.
pub enum Event<J> {
    /// The owner submits a job.
    Execute(J),
    /// A worker asks for the next message.
    Receive { worker: int },
    /// A worker reports that its job has run to completion.
    JobDone { worker: int },
    /// The owner begins shutdown.
    Shutdown,
}

impl<J, H> PoolView<J, H> {
    /// Whether `event` can happen in this state. Jobs are submitted and
    /// shutdown begins only before shutdown has begun; only an idle worker
    /// asks for a message; only a running worker finishes a job.
    pub open spec fn enabled(self, event: Event<J>) -> bool {
        match event {
            Event::Execute(_) => !self.draining,
            Event::Receive { worker } => 0 <= worker < self.size() && self.workers[worker].state
                == WorkerState::Idle,
            Event::JobDone { worker } => 0 <= worker < self.size() && self.workers[worker].state
                == WorkerState::Running,
            Event::Shutdown => !self.draining,
        }
    }

    /// The state after `event`.
    pub open spec fn step(self, event: Event<J>) -> Self {
        match event {
            Event::Execute(job) => self.execute(job),
            Event::Receive { worker } => self.receive(worker),
            Event::JobDone { worker } => self.job_done(worker),
            Event::Shutdown => self.shutdown(),
        }
    }

    /// The state after all of `events`, in order.
    pub open spec fn run(self, events: Seq<Event<J>>) -> Self
        decreases events.len(),
    {
        if events.len() == 0 {
            self
        } else {
            self.run(events.drop_last()).step(events.last())
        }
    }

    /// Whether `events` can happen in order, starting from this state.
    pub open spec fn admits(self, events: Seq<Event<J>>) -> bool
        decreases events.len(),
    {
        events.len() == 0 || (self.admits(events.drop_last()) && self.run(
            events.drop_last(),
        ).enabled(events.last()))
    }

    /// Whether `event` hands the job at position `job` of `submitted` to a
    /// worker, which then runs it.
    pub open spec fn starts(self, event: Event<J>, job: int) -> bool {
        &&& event is Receive
        &&& self.next_message() matches Some(message)
        &&& message is NewJob
        &&& job == self.dispatched
    }

    /// Whether `event` is the completion of the job at position `job` of
    /// `submitted`.
    pub open spec fn finishes(self, event: Event<J>, job: int) -> bool {
        event matches Event::JobDone { worker } && job == self.assigned[worker]
    }

    /// How often the job at position `job` is handed to a worker in the
    /// course of `events`.
    pub open spec fn times_started(self, events: Seq<Event<J>>, job: int) -> nat
        decreases events.len(),
    {
        if events.len() == 0 {
            0
        } else {
            self.times_started(events.drop_last(), job) + if self.run(events.drop_last()).starts(
                events.last(),
                job,
            ) {
                1nat
            } else {
                0nat
            }
        }
    }

    /// How often the job at position `job` is reported done in the course
    /// of `events`.
    pub open spec fn times_finished(self, events: Seq<Event<J>>, job: int) -> nat
        decreases events.len(),
    {
        if events.len() == 0 {
            0
        } else {
            self.times_finished(events.drop_last(), job) + if self.run(
                events.drop_last(),
            ).finishes(events.last(), job) {
                1nat
            } else {
                0nat
            }
        }
    }

    /// The positions of the jobs that some worker is running right now.
    pub open spec fn running_jobs(self) -> Set<int> {
        Set::new(|k: int| 0 <= k < self.stage.len() && self.stage[k] is Running)
    }
}

} // verus!
