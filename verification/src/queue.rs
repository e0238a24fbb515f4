//! The job queue: an unbounded first-in-first-out channel of messages.
//!
//! The queue is plain data. Whoever shares it between threads supplies the
//! mutual exclusion and the waiting; the queue itself says which message
//! leaves next and when a send must fail.

use crate::message::Message;
use std::collections::VecDeque;
use vstd::prelude::*;

verus! {

/// The message that could not be sent because no receiver is left.
pub struct SendError<J>(pub Message<J>);

/// What a queue holds, as mathematics.
pub struct QueueView<J> {
    /// The messages in transit, oldest first.
    pub messages: Seq<Message<J>>,
    /// How many receivers still hold the receiving end.
    pub receivers: nat,
}

/// An unbounded FIFO channel of [`Message`]s with a counted receiving end.
pub struct JobQueue<J> {
    items: VecDeque<Message<J>>,
    receivers: usize,
}

impl<J> View for JobQueue<J> {
    type V = QueueView<J>;

    closed spec fn view(&self) -> QueueView<J> {
        QueueView { messages: self.items@, receivers: self.receivers as nat }
    }
}

impl<J> JobQueue<J> {
    /// An empty queue whose receiving end is held by `receivers` receivers.
    pub fn new(receivers: usize) -> (queue: Self)
        ensures
            queue@.messages == Seq::<Message<J>>::empty(),
            queue@.receivers == receivers,
    {
        JobQueue { items: VecDeque::new(), receivers }
    }

    /// Enqueues `message` behind everything already in transit.
    ///
    /// Never blocks. Fails, handing the message back and leaving the queue
    /// untouched, exactly when every receiver is gone.
    pub fn send(&mut self, message: Message<J>) -> (sent: Result<(), SendError<J>>)
        ensures
            old(self)@.receivers > 0 ==> sent is Ok && final(self)@ == (QueueView {
                messages: old(self)@.messages.push(message),
                ..old(self)@
            }),
            old(self)@.receivers == 0 ==> sent == Err::<(), SendError<J>>(SendError(message))
                && final(self)@ == old(self)@,
    {
        if self.receivers == 0 {
            Err(SendError(message))
        } else {
            self.items.push_back(message);
            Ok(())
        }
    }

    /// Takes the oldest message out of the queue, if there is one.
    ///
    /// `None` means the queue is empty and the caller has to wait; the queue
    /// is then unchanged. Each message is handed out once.
    pub fn receive(&mut self) -> (message: Option<Message<J>>)
        ensures
            old(self)@.messages.len() == 0 ==> message is None && final(self)@ == old(self)@,
            old(self)@.messages.len() > 0 ==> message == Some(old(self)@.messages[0])
                && final(self)@ == (QueueView {
                messages: old(self)@.messages.skip(1),
                ..old(self)@
            }),
    {
        self.items.pop_front()
    }

    /// Records that one receiver has let go of the receiving end.
    pub fn disconnect(&mut self)
        requires
            old(self)@.receivers > 0,
        ensures
            final(self)@ == (QueueView {
                receivers: (old(self)@.receivers - 1) as nat,
                ..old(self)@
            }),
    {
        self.receivers = self.receivers - 1;
    }

    /// The number of messages in transit.
    pub fn len(&self) -> (n: usize)
        ensures
            n == self@.messages.len(),
    {
        self.items.len()
    }

    /// Whether no message is in transit.
    pub fn is_empty(&self) -> (b: bool)
        ensures
            b == (self@.messages.len() == 0),
    {
        self.items.len() == 0
    }

    /// The number of receivers that still hold the receiving end.
    pub fn receivers(&self) -> (n: usize)
        ensures
            n == self@.receivers,
    {
        self.receivers
    }
}

} // verus!
