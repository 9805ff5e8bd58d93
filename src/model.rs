use vstd::prelude::*;

use crate::event::Event;
use crate::queue::{producer_policy, SendOutcome};

verus! {

/// The aggregator between two steps: the message the queue buffers, if any,
/// and which of its three parties are still there. A queue of capacity one
/// buffers at most one message, so the buffer is an `Option`.
pub struct QueueModel<I> {
    pub slot: Option<Event<I>>,
    pub receiver_alive: bool,
    pub input_alive: bool,
    pub tick_alive: bool,
}

/// What a receive finds.
pub enum Delivery<I> {
    /// The buffered message, which the receive takes out.
    Message(Event<I>),
    /// Nothing is buffered and no producer is left: no message will ever come.
    Closed,
    /// Nothing is buffered yet; the receive waits.
    Waiting,
}

impl<I> QueueModel<I> {
    /// How many messages wait in the queue.
    pub open spec fn buffered(self) -> nat {
        if self.slot is Some {
            1
        } else {
            0
        }
    }

    /// How a send that does not wait ends in this state.
    pub open spec fn try_send_outcome(self) -> SendOutcome {
        if !self.receiver_alive {
            SendOutcome::Disconnected
        } else if self.slot is Some {
            SendOutcome::Full
        } else {
            SendOutcome::Delivered
        }
    }

    /// Whether a send that waits can end in this state: there is room, or
    /// nobody is left to receive.
    pub open spec fn send_ready(self) -> bool {
        !self.receiver_alive || self.slot is None
    }

    /// How a send that waits ends, once it can.
    pub open spec fn send_outcome(self) -> SendOutcome {
        if !self.receiver_alive {
            SendOutcome::Disconnected
        } else {
            SendOutcome::Delivered
        }
    }

    /// The queue after a send of `m` ended with `o`.
    pub open spec fn deliver(self, o: SendOutcome, m: Event<I>) -> Self {
        if o is Delivered {
            QueueModel { slot: Some(m), ..self }
        } else {
            self
        }
    }

    /// The input producer offers `e` and follows the producer policy.
    pub open spec fn after_input(self, e: I) -> Self {
        let o = self.try_send_outcome();
        QueueModel {
            input_alive: producer_policy(o) is Continue,
            ..self.deliver(o, Event::Input(e))
        }
    }

    /// The tick producer's send completes and the producer follows the policy.
    pub open spec fn after_tick(self) -> Self {
        let o = self.send_outcome();
        QueueModel { tick_alive: producer_policy(o) is Continue, ..self.deliver(o, Event::Tick) }
    }

    /// What the consumer's receive finds.
    pub open spec fn receive(self) -> Delivery<I> {
        match self.slot {
            Some(m) => Delivery::Message(m),
            None => if !self.input_alive && !self.tick_alive {
                Delivery::Closed
            } else {
                Delivery::Waiting
            },
        }
    }

    /// The queue after the consumer took the buffered message.
    pub open spec fn after_receive(self) -> Self {
        QueueModel { slot: None, ..self }
    }

    /// The queue after the consumer dropped its receive end.
    pub open spec fn after_receiver_dropped(self) -> Self {
        QueueModel { receiver_alive: false, ..self }
    }

    /// The input producer offers each of `inputs` in turn while nobody
    /// receives; it offers no more once it has stopped.
    pub open spec fn after_burst(self, inputs: Seq<I>) -> Self
        decreases inputs.len(),
    {
        if inputs.len() == 0 || !self.input_alive {
            self
        } else {
            self.after_input(inputs[0]).after_burst(inputs.drop_first())
        }
    }

    /// The messages the consumer gets when input and receive take strict
    /// turns: each event is offered, then the consumer takes what it finds.
    /// The run ends at the first receive that finds nothing.
    pub open spec fn alternate(self, inputs: Seq<I>) -> Seq<Event<I>>
        decreases inputs.len(),
    {
        if inputs.len() == 0 {
            Seq::empty()
        } else {
            let s = self.after_input(inputs[0]);
            match s.receive() {
                Delivery::Message(m) => seq![m] + s.after_receive().alternate(inputs.drop_first()),
                _ => Seq::empty(),
            }
        }
    }
}

/// While the receive end is there, input offered to a full queue changes
/// nothing: the buffered message stays, and the input producer goes on.
pub proof fn lemma_full_queue_unchanged<I>(q: QueueModel<I>, inputs: Seq<I>)
    requires
        q.slot is Some,
        q.receiver_alive,
    ensures
        q.after_burst(inputs) == q,
    decreases inputs.len(),
{
    if inputs.len() > 0 && q.input_alive {
        assert(q.after_input(inputs[0]) == q);
        lemma_full_queue_unchanged(q, inputs.drop_first());
    }
}

/// A burst of input that nobody receives leaves exactly one message in a
/// queue that was empty, the first event of the burst, and leaves a full
/// queue as it was: the rest are dropped, never queued, and the input
/// producer keeps running.
pub proof fn lemma_burst_buffers_one<I>(q: QueueModel<I>, inputs: Seq<I>)
    requires
        q.receiver_alive,
        q.input_alive,
    ensures
        q.after_burst(inputs).buffered() <= 1,
        q.after_burst(inputs).input_alive,
        q.after_burst(inputs).slot == if q.slot is Some {
            q.slot
        } else if inputs.len() > 0 {
            Some(Event::Input(inputs[0]))
        } else {
            None
        },
        inputs.len() > 0 ==> q.after_burst(inputs).buffered() == 1,
    decreases inputs.len(),
{
    if q.slot is Some {
        lemma_full_queue_unchanged(q, inputs);
    } else if inputs.len() > 0 {
        let s = q.after_input(inputs[0]);
        assert(s.slot == Some(Event::Input(inputs[0])));
        lemma_full_queue_unchanged(s, inputs.drop_first());
    }
}

/// When the producer and the consumer take strict turns, starting from an
/// empty queue, no input event is lost: the consumer gets every event, in
/// the order offered.
pub proof fn lemma_alternating_loses_nothing<I>(q: QueueModel<I>, inputs: Seq<I>)
    requires
        q.slot is None,
        q.receiver_alive,
        q.input_alive,
    ensures
        q.alternate(inputs) == inputs.map_values(|e: I| Event::Input(e)),
    decreases inputs.len(),
{
    if inputs.len() > 0 {
        let s = q.after_input(inputs[0]);
        assert(s.receive() == Delivery::Message(Event::Input(inputs[0])));
        lemma_alternating_loses_nothing(s.after_receive(), inputs.drop_first());
        assert(q.alternate(inputs) =~= inputs.map_values(|e: I| Event::Input(e)));
    } else {
        assert(q.alternate(inputs) =~= inputs.map_values(|e: I| Event::Input(e)));
    }
}

/// A tick is never dropped: a completed tick send while the receive end is
/// there buffers the tick and keeps the tick producer running, and no burst
/// of input can then displace it before the consumer takes it.
pub proof fn lemma_tick_never_dropped<I>(q: QueueModel<I>, inputs: Seq<I>)
    requires
        q.receiver_alive,
        q.send_ready(),
    ensures
        q.after_tick().slot == Some(Event::<I>::Tick),
        q.after_tick().tick_alive,
        q.after_tick().after_burst(inputs).slot == Some(Event::<I>::Tick),
{
    lemma_full_queue_unchanged(q.after_tick(), inputs);
}

/// Once the receive end is gone, no send succeeds and each producer stops at
/// its next send: the input producer at once, the tick producer without
/// waiting on a full queue.
pub proof fn lemma_dropped_receiver_stops_producers<I>(q: QueueModel<I>, e: I)
    ensures
        q.after_receiver_dropped().try_send_outcome() == SendOutcome::Disconnected,
        q.after_receiver_dropped().after_input(e).slot == q.slot,
        !q.after_receiver_dropped().after_input(e).input_alive,
        q.after_receiver_dropped().send_ready(),
        q.after_receiver_dropped().send_outcome() == SendOutcome::Disconnected,
        q.after_receiver_dropped().after_tick().slot == q.slot,
        !q.after_receiver_dropped().after_tick().tick_alive,
{
}

/// With no producer left and nothing buffered, a receive finds the terminal
/// condition, and it stays: taking from the queue changes nothing.
pub proof fn lemma_closed_is_terminal<I>(q: QueueModel<I>)
    requires
        q.slot is None,
        !q.input_alive,
        !q.tick_alive,
    ensures
        q.receive() == Delivery::<I>::Closed,
        q.after_receive().receive() == Delivery::<I>::Closed,
{
}

} // verus!
