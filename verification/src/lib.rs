//! A fixed-size worker pool whose bookkeeping is plain, verified data.
//!
//! A pool decouples the submission of jobs from their execution: an owner
//! hands jobs to a fixed set of workers through one shared first-in-first-out
//! queue, and ends the pool by queueing one order to terminate per worker and
//! waiting for every worker to stop.
//!
//! The library holds every decision of such a pool and none of its threads.
//! [`pool::ThreadPool`] is the shared state: the queue, the state of each
//! worker, and the handle of each worker's thread. A program keeps it behind
//! a lock, spawns one thread per worker, and lets each thread ask the pool
//! what to do next; the pool never blocks and never runs a job itself.
//!
//! * [`message`] and [`queue`]: what travels from the owner to the workers,
//!   and the channel it travels through.
//! * [`worker`]: one worker and the loop it goes through.
//! * [`pool`]: the pool, with construction, submission, the workers' steps
//!   and shutdown.
//! * [`model`]: the pool's state and steps as mathematics, which the
//!   contracts of [`pool`] are stated in.
//! * [`preservation`] and [`guarantees`]: what is proved of the model, and
//!   so of every pool.
//! * [`http`]: which page answers a request, for the small web server that
//!   keeps its connections on a pool.

pub mod guarantees;
pub mod http;
pub mod message;
pub mod model;
pub mod pool;
pub mod preservation;
pub mod queue;
pub mod worker;
