use vstd::prelude::*;

use crossbeam_channel::{Receiver, RecvError, Sender};

use crate::queue::{event_queue, queue_bound, Message, QUEUE_CAPACITY};

verus! {

/// The consumer's end of the event stream. It owns the one receive end of the
/// queue; the producers hold clones of the send end.
pub struct Events {
    rx: Receiver<Message>,
}

impl Events {
    /// The bound of the queue behind this handle.
    pub closed spec fn bound(&self) -> usize {
        queue_bound(self.rx)
    }

    /// Makes the queue and the handle that reads it, and hands back the send
    /// end for the producers to share.
    pub fn with_queue() -> (r: (Events, Sender<Message>))
        ensures
            r.0.bound() == QUEUE_CAPACITY,
    {
        let (tx, rx) = event_queue();
        (Events { rx }, tx)
    }

    /// Waits for the next message of either producer and takes it out of the
    /// queue. Fails once every producer has stopped and the queue is empty.
    pub fn next(&self) -> Result<Message, RecvError> {
        self.rx.recv()
    }
}

} // verus!
