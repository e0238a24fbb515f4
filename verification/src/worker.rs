//! One worker of a pool: its identity, its place in the worker loop, and the
//! handle of the thread that runs it.

use crate::message::Message;
use vstd::prelude::*;

verus! {

/// Where a worker stands in its loop.
#[derive(Clone, Copy, Debug, PartialEq, Eq, Structural)]
pub enum WorkerState {
    /// Waiting for the next message.
    Idle,
    /// Executing a job it received.
    Running,
    /// Told to terminate; it receives nothing any more.
    Stopped,
}

/// A worker, as mathematics.
pub struct WorkerView<H> {
    /// The worker's number within its pool.
    pub id: usize,
    /// Where the worker stands in its loop.
    pub state: WorkerState,
    /// The handle of the worker's thread, until somebody takes it to join.
    pub thread: Option<H>,
}

/// Where an idle worker stands after it received `message`: a job sets it
/// running, the order to terminate stops it for good.
pub open spec fn state_after<J>(message: Message<J>) -> WorkerState {
    match message {
        Message::NewJob(_) => WorkerState::Running,
        Message::Terminate => WorkerState::Stopped,
    }
}

/// An identity paired with the handle of a running thread.
pub struct Worker<H> {
    id: usize,
    thread: Option<H>,
    state: WorkerState,
}

impl<H> View for Worker<H> {
    type V = WorkerView<H>;

    closed spec fn view(&self) -> WorkerView<H> {
        WorkerView { id: self.id, state: self.state, thread: self.thread }
    }
}

impl<H> Worker<H> {
    /// The record of a freshly spawned worker: idle, with its thread's handle.
    pub fn new(id: usize, thread: H) -> (worker: Self)
        ensures
            worker@ == (WorkerView { id, state: WorkerState::Idle, thread: Some(thread) }),
    {
        Worker { id, thread: Some(thread), state: WorkerState::Idle }
    }

    /// The worker's number within its pool.
    pub fn id(&self) -> (id: usize)
        ensures
            id == self@.id,
    {
        self.id
    }

    /// Where the worker stands in its loop.
    pub fn state(&self) -> (state: WorkerState)
        ensures
            state == self@.state,
    {
        self.state
    }

    /// Whether the thread's handle has been taken already.
    pub fn is_joined(&self) -> (b: bool)
        ensures
            b == (self@.thread is None),
    {
        self.thread.is_none()
    }

    /// The step an idle worker takes on receiving `message`.
    pub fn on_message<J>(&mut self, message: &Message<J>)
        requires
            old(self)@.state == WorkerState::Idle,
        ensures
            final(self)@ == (WorkerView { state: state_after(*message), ..old(self)@ }),
    {
        match message {
            Message::NewJob(_) => {
                self.state = WorkerState::Running;
            },
            Message::Terminate => {
                self.state = WorkerState::Stopped;
            },
        }
    }

    /// The step a running worker takes when its job has run to completion.
    pub fn job_done(&mut self)
        requires
            old(self)@.state == WorkerState::Running,
        ensures
            final(self)@ == (WorkerView { state: WorkerState::Idle, ..old(self)@ }),
    {
        self.state = WorkerState::Idle;
    }

    /// Takes the thread's handle for joining. It is there to take once.
    pub fn take_thread(&mut self) -> (thread: Option<H>)
        ensures
            thread == old(self)@.thread,
            final(self)@ == (WorkerView { thread: None, ..old(self)@ }),
    {
        self.thread.take()
    }
}

} // verus!
