//! The channel as a mathematical value.

use vstd::prelude::*;

verus! {

/// What the lock guards: the values in flight and the number of live senders.
pub struct SharedState<T> {
    /// Values that were sent and not yet taken by the receiver, oldest first.
    pub queue: Seq<T>,
    /// Number of sender handles that exist.
    pub senders: nat,
}

/// The whole channel: the guarded state and the receiver's private buffer.
pub struct ChannelState<T> {
    /// Values the receiver moved out of the queue and has not handed on yet,
    /// oldest first. Every one of them is older than everything in the queue.
    pub buffer: Seq<T>,
    /// The state shared with the senders.
    pub shared: SharedState<T>,
}

/// What one attempt to receive comes to.
pub enum Outcome<T> {
    /// The oldest pending value is handed over.
    Value(T),
    /// Nothing is pending and no sender is left: nothing will ever arrive.
    Closed,
    /// Nothing is pending but a sender is alive: the receiver has to wait.
    Blocks,
}

/// One step of a run of the channel. Each step happens as a whole: the queue
/// and the sender count are only touched while the lock is held.
pub enum Event<T> {
    /// A sender enqueues a value.
    Send(T),
    /// A sender is cloned.
    Clone,
    /// A sender is destroyed.
    Drop,
    /// The receiver looks for a value.
    Receive,
}

impl<T> Outcome<T> {
    /// The value that the receiver returns for this outcome, if it returns one.
    pub open spec fn value(self) -> Option<T> {
        match self {
            Outcome::Value(value) => Some(value),
            _ => None,
        }
    }
}

impl<T> SharedState<T> {
    /// The state a new channel starts in: nothing queued, one sender.
    pub open spec fn fresh() -> Self {
        SharedState { queue: Seq::empty(), senders: 1 }
    }

    /// The state after `value` was enqueued.
    pub open spec fn push(self, value: T) -> Self {
        SharedState { queue: self.queue.push(value), senders: self.senders }
    }

    /// The state after one more sender came to life.
    pub open spec fn add_sender(self) -> Self {
        SharedState { queue: self.queue, senders: self.senders + 1 }
    }

    /// The state after one sender was destroyed. The count never drops below zero.
    pub open spec fn drop_sender(self) -> Self {
        SharedState {
            queue: self.queue,
            senders: if self.senders > 0 {
                (self.senders - 1) as nat
            } else {
                0
            },
        }
    }

    /// Nothing is queued, yet a sender may still enqueue something.
    pub open spec fn is_idle(self) -> bool {
        self.queue.len() == 0 && self.senders > 0
    }

    /// The whole channel, when the receiver holds `buffer`.
    pub open spec fn with_buffer(self, buffer: Seq<T>) -> ChannelState<T> {
        ChannelState { buffer, shared: self }
    }

    /// The oldest queued value, if there is one.
    pub open spec fn front(self) -> Option<T> {
        if self.queue.len() > 0 {
            Some(self.queue[0])
        } else {
            None
        }
    }
}

impl<T> ChannelState<T> {
    /// A new channel: nothing buffered, nothing queued, one sender.
    pub open spec fn fresh() -> Self {
        ChannelState { buffer: Seq::empty(), shared: SharedState::fresh() }
    }

    /// Everything that was sent and not yet received, in the order in which
    /// the receiver will hand it out.
    pub open spec fn pending(self) -> Seq<T> {
        self.buffer + self.shared.queue
    }

    /// The channel after a sender enqueued `value`.
    pub open spec fn send(self, value: T) -> Self {
        ChannelState { buffer: self.buffer, shared: self.shared.push(value) }
    }

    /// The channel after a sender was cloned.
    pub open spec fn add_sender(self) -> Self {
        ChannelState { buffer: self.buffer, shared: self.shared.add_sender() }
    }

    /// The channel after a sender was destroyed.
    pub open spec fn drop_sender(self) -> Self {
        ChannelState { buffer: self.buffer, shared: self.shared.drop_sender() }
    }

    /// No sender is left and nothing is pending.
    pub open spec fn is_closed(self) -> bool {
        self.shared.senders == 0 && self.pending().len() == 0
    }

    /// What a receive attempt in this state comes to. The buffer is looked at
    /// first; the queue only when the buffer is empty.
    pub open spec fn outcome(self) -> Outcome<T> {
        if self.buffer.len() > 0 {
            Outcome::Value(self.buffer[0])
        } else if self.shared.queue.len() > 0 {
            Outcome::Value(self.shared.queue[0])
        } else if self.shared.senders == 0 {
            Outcome::Closed
        } else {
            Outcome::Blocks
        }
    }

    /// The channel after a receive attempt. A value from the buffer leaves the
    /// queue untouched. A value from the queue takes the rest of the queue
    /// along into the buffer. Without a pending value nothing changes.
    pub open spec fn after_receive(self) -> Self {
        if self.buffer.len() > 0 {
            ChannelState { buffer: self.buffer.skip(1), shared: self.shared }
        } else if self.shared.queue.len() > 0 {
            ChannelState {
                buffer: self.shared.queue.skip(1),
                shared: SharedState { queue: Seq::empty(), senders: self.shared.senders },
            }
        } else {
            self
        }
    }

    /// The channel after one step.
    pub open spec fn step(self, event: Event<T>) -> Self {
        match event {
            Event::Send(value) => self.send(value),
            Event::Clone => self.add_sender(),
            Event::Drop => self.drop_sender(),
            Event::Receive => self.after_receive(),
        }
    }

    /// The channel after the steps of `trace`, taken in order.
    pub open spec fn run(self, trace: Seq<Event<T>>) -> Self
        decreases trace.len(),
    {
        if trace.len() == 0 {
            self
        } else {
            self.step(trace[0]).run(trace.skip(1))
        }
    }

    /// The values that the receive steps of `trace` hand over, in order.
    pub open spec fn delivered(self, trace: Seq<Event<T>>) -> Seq<T>
        decreases trace.len(),
    {
        if trace.len() == 0 {
            Seq::empty()
        } else {
            let rest = self.step(trace[0]).delivered(trace.skip(1));
            match (trace[0], self.outcome()) {
                (Event::Receive, Outcome::Value(value)) => seq![value] + rest,
                _ => rest,
            }
        }
    }

    /// Whether `trace` can happen from this state: sending, cloning and
    /// destroying a sender take a sender that is alive.
    pub open spec fn admits(self, trace: Seq<Event<T>>) -> bool
        decreases trace.len(),
    {
        if trace.len() == 0 {
            true
        } else {
            &&& (trace[0] is Receive || self.shared.senders > 0)
            &&& self.step(trace[0]).admits(trace.skip(1))
        }
    }
}

/// The values that the send steps of `trace` enqueue, in order.
pub open spec fn sent<T>(trace: Seq<Event<T>>) -> Seq<T>
    decreases trace.len(),
{
    if trace.len() == 0 {
        Seq::empty()
    } else {
        match trace[0] {
            Event::Send(value) => seq![value] + sent(trace.skip(1)),
            _ => sent(trace.skip(1)),
        }
    }
}

/// One send step for each of `values`, in order.
pub open spec fn sends<T>(values: Seq<T>) -> Seq<Event<T>> {
    Seq::new(values.len(), |i: int| Event::Send(values[i]))
}

/// `count` receive steps.
pub open spec fn receives<T>(count: nat) -> Seq<Event<T>> {
    Seq::new(count, |i: int| Event::Receive)
}

} // verus!
