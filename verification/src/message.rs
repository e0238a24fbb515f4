//! What travels through the job queue.

use vstd::prelude::*;

verus! {

/// One item in transit through the job queue.
pub enum Message<J> {
    /// A unit of work for whichever worker receives it.
    NewJob(J),
    /// The order to stop, consumed by exactly one worker.
    Terminate,
}

impl<J> Message<J> {
    /// Whether this message is the order to stop.
    pub fn is_terminate(&self) -> (b: bool)
        ensures
            b == (*self is Terminate),
    {
        match self {
            Message::NewJob(_) => false,
            Message::Terminate => true,
        }
    }
}

} // verus!
