use vstd::prelude::*;

use crossbeam_channel::{Receiver, Sender, TrySendError};
use termion::event::Event as TermEvent;

use crate::event::Event;

verus! {

/// What crosses the queue: a terminal input event or a tick.
pub type Message = Event<TermEvent>;

/// The queue holds at most one message that nobody has taken yet, so that a
/// burst of input cannot stack up behind a slow consumer.
pub const QUEUE_CAPACITY: usize = 1;

/// The largest bound this library asks of a channel.
pub const MAX_QUEUE_CAPACITY: usize = 1024;

/// How an attempt to put a message into the queue ended.
#[derive(Debug, Clone, Copy, PartialEq, Eq, Structural)]
pub enum SendOutcome {
    /// The message is in the queue.
    Delivered,
    /// The queue held a message already; the new one was dropped.
    Full,
    /// The receive end is gone; no send can succeed any more.
    Disconnected,
}

/// What a producer does after a send.
#[derive(Debug, Clone, Copy, PartialEq, Eq, Structural)]
pub enum ProducerAction {
    /// Go on producing.
    Continue,
    /// Leave the loop for good.
    Stop,
}

/// The bound a channel was made with, as `Receiver::capacity` reports it.
pub uninterp spec fn queue_bound(r: Receiver<Message>) -> usize;

/// Both producers stop once the receive end is gone, and only then: a full
/// queue means a dropped input event (or a tick that waits), never the end.
pub open spec fn producer_policy(o: SendOutcome) -> ProducerAction {
    if o is Disconnected {
        ProducerAction::Stop
    } else {
        ProducerAction::Continue
    }
}

/// Relies on `crossbeam_channel::bounded`: a channel that holds at most `cap`
/// messages, whose halves share one buffer. A positive bound gives the array
/// flavour, which allocates `cap` slots.
#[verifier::external_body]
fn bounded_channel(cap: usize) -> (r: (Sender<Message>, Receiver<Message>))
    requires
        0 < cap <= MAX_QUEUE_CAPACITY,
    ensures
        queue_bound(r.1) == cap,
{
    crossbeam_channel::bounded(cap)
}

/// Relies on `Sender::try_send`: it never blocks, and tells a full channel
/// apart from one whose receive end is gone. Which of the three comes back
/// depends on the other threads.
#[verifier::external_body]
fn try_send_message(tx: &Sender<Message>, msg: Message) -> (r: SendOutcome) {
    match tx.try_send(msg) {
        Ok(()) => SendOutcome::Delivered,
        Err(TrySendError::Full(_)) => SendOutcome::Full,
        Err(TrySendError::Disconnected(_)) => SendOutcome::Disconnected,
    }
}

/// Relies on `Sender::send`: it blocks while the channel is full and fails
/// only when the receive end is gone, so it never reports a full channel.
#[verifier::external_body]
fn send_message(tx: &Sender<Message>, msg: Message) -> (r: SendOutcome)
    ensures
        r != SendOutcome::Full,
{
    match tx.send(msg) {
        Ok(()) => SendOutcome::Delivered,
        Err(_) => SendOutcome::Disconnected,
    }
}

/// Makes the queue that joins both producers to the consumer.
pub fn event_queue() -> (r: (Sender<Message>, Receiver<Message>))
    ensures
        queue_bound(r.1) == QUEUE_CAPACITY,
{
    bounded_channel(QUEUE_CAPACITY)
}

/// Decides what a producer does after a send ended with `outcome`.
pub fn after_send(outcome: SendOutcome) -> (r: ProducerAction)
    ensures
        r == producer_policy(outcome),
        r == ProducerAction::Stop <==> outcome == SendOutcome::Disconnected,
{
    match outcome {
        SendOutcome::Disconnected => ProducerAction::Stop,
        _ => ProducerAction::Continue,
    }
}

/// One step of the input producer: offers `ev` to the queue without waiting.
/// On a full queue the event is dropped and the producer goes on; once the
/// receive end is gone it stops.
pub fn offer_input(tx: &Sender<Message>, ev: TermEvent) -> (r: (SendOutcome, ProducerAction))
    ensures
        r.1 == producer_policy(r.0),
{
    let outcome = try_send_message(tx, Event::Input(ev));
    (outcome, after_send(outcome))
}

/// One step of the tick producer: puts a tick into the queue, waiting while
/// it is full. A tick is never dropped: the send either delivers it or finds
/// the receive end gone, and then the producer stops.
pub fn push_tick(tx: &Sender<Message>) -> (r: (SendOutcome, ProducerAction))
    ensures
        r.0 != SendOutcome::Full,
        r.1 == producer_policy(r.0),
        r.1 == ProducerAction::Stop <==> r.0 == SendOutcome::Disconnected,
{
    let outcome = send_message(tx, Event::Tick);
    (outcome, after_send(outcome))
}

} // verus!
