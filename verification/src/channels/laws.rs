//! What holds of every run of the channel.

use vstd::prelude::*;

use crate::channels::model::receives;
use crate::channels::model::sends;
use crate::channels::model::sent;
use crate::channels::model::ChannelState;
use crate::channels::model::Event;
use crate::channels::model::Outcome;
use crate::channels::model::SharedState;

verus! {

/// The steps of a run are the operations on the guarded state: sending is
/// [`SharedState::push`], cloning and destroying a sender are
/// [`SharedState::add_sender`] and [`SharedState::drop_sender`], none of which
/// touches the buffer, and a receive with an empty buffer hands out
/// [`SharedState::front`] and waits exactly on [`SharedState::is_idle`].
pub proof fn law_steps_are_operations<T>(shared: SharedState<T>, buffer: Seq<T>, value: T)
    ensures
        shared.with_buffer(buffer).step(Event::Send(value)) == shared.push(value).with_buffer(
            buffer,
        ),
        shared.with_buffer(buffer).step(Event::Clone) == shared.add_sender().with_buffer(buffer),
        shared.with_buffer(buffer).step(Event::Drop) == shared.drop_sender().with_buffer(buffer),
        shared.with_buffer(buffer).step(Event::Receive) == shared.with_buffer(
            buffer,
        ).after_receive(),
        buffer.len() == 0 ==> shared.with_buffer(buffer).outcome().value() == shared.front(),
        buffer.len() == 0 ==> (shared.with_buffer(buffer).outcome() is Blocks <==> shared.is_idle()),
        buffer.len() == 0 ==> (shared.with_buffer(buffer).outcome() is Closed
            <==> shared.with_buffer(buffer).is_closed()),
{
}

/// Running two traces one after the other is running their concatenation, and
/// what is delivered is what the first delivers followed by what the second
/// delivers from where the first ended.
pub proof fn lemma_run_concat<T>(s: ChannelState<T>, first: Seq<Event<T>>, second: Seq<Event<T>>)
    ensures
        s.run(first + second) == s.run(first).run(second),
        s.delivered(first + second) == s.delivered(first) + s.run(first).delivered(second),
        sent(first + second) == sent(first) + sent(second),
    decreases first.len(),
{
    if first.len() > 0 {
        assert((first + second).skip(1) =~= first.skip(1) + second);
        lemma_run_concat(s.step(first[0]), first.skip(1), second);
    }
}

/// Nothing is lost, nothing is made up and nothing overtakes: whatever the
/// steps and however they interleave, the values delivered so far, followed by
/// the values still pending, are the values that were pending at the start
/// followed by the values sent since, in the order of sending.
pub proof fn law_conservation<T>(s: ChannelState<T>, trace: Seq<Event<T>>)
    ensures
        s.delivered(trace) + s.run(trace).pending() == s.pending() + sent(trace),
    decreases trace.len(),
{
    if trace.len() > 0 {
        let next = s.step(trace[0]);
        law_conservation(next, trace.skip(1));
        if let (Event::Receive, Outcome::Value(value)) = (trace[0], s.outcome()) {
            assert(seq![value] + (next.pending() + sent(trace.skip(1))) =~= s.pending() + sent(
                trace,
            ));
        }
    }
}

/// Sending delivers nothing and appends to what is pending.
pub proof fn lemma_sends<T>(s: ChannelState<T>, values: Seq<T>)
    ensures
        sent(sends(values)) == values,
        s.delivered(sends(values)).len() == 0,
        s.run(sends(values)).pending() == s.pending() + values,
        s.run(sends(values)).shared.senders == s.shared.senders,
    decreases values.len(),
{
    let trace = sends(values);
    if values.len() > 0 {
        assert(trace.skip(1) =~= sends(values.skip(1)));
        lemma_sends(s.step(trace[0]), values.skip(1));
    }
}

/// Receiving as often as values are pending delivers all of them, oldest
/// first, and leaves nothing pending.
pub proof fn lemma_drain<T>(s: ChannelState<T>)
    ensures
        s.delivered(receives(s.pending().len())) == s.pending(),
        s.run(receives(s.pending().len())).pending().len() == 0,
        s.run(receives(s.pending().len())).shared.senders == s.shared.senders,
    decreases s.pending().len(),
{
    let count = s.pending().len();
    if count > 0 {
        let next = s.after_receive();
        assert(receives::<T>(count).skip(1) =~= receives::<T>(next.pending().len()));
        lemma_drain(next);
    }
}

/// The buffer comes first: while the receiver holds buffered values it hands
/// out the oldest of them and leaves the shared state alone, whatever the
/// queue holds. The buffered values are the oldest ones pending.
pub proof fn law_buffer_first<T>(s: ChannelState<T>)
    requires
        s.buffer.len() > 0,
    ensures
        s.outcome() == Outcome::Value(s.buffer[0]),
        s.after_receive().buffer == s.buffer.skip(1),
        s.after_receive().shared == s.shared,
        s.buffer[0] == s.pending()[0],
{
}

/// First in, first out: when a sender sends `values` one after the other with
/// nothing in between, the receives that follow hand over what was pending
/// before and then exactly these values, in the order in which they were sent.
pub proof fn law_fifo<T>(s: ChannelState<T>, values: Seq<T>)
    ensures
        s.delivered(sends(values) + receives(s.pending().len() + values.len())) == s.pending()
            + values,
        s.pending().len() == 0 ==> s.delivered(sends(values) + receives(values.len())) == values,
{
    let count = s.pending().len() + values.len();
    lemma_sends(s, values);
    lemma_drain(s.run(sends(values)));
    lemma_run_concat(s, sends(values), receives(count));
    if s.pending().len() == 0 {
        assert(s.pending() + values =~= values);
    }
}

/// No loss: let any number of senders send in any interleaving, with clones,
/// destroyed senders and receives in between. A receiver that then drains the
/// channel has received, over the whole run, every value that was pending or
/// sent, each as often as it was sent, and no other.
pub proof fn law_no_loss<T>(s: ChannelState<T>, trace: Seq<Event<T>>)
    ensures
        ({
            let drain = receives::<T>(s.run(trace).pending().len());
            let got = s.delivered(trace + drain);
            &&& got == s.pending() + sent(trace)
            &&& got.to_multiset() == s.pending().to_multiset().add(sent(trace).to_multiset())
            &&& got.len() == s.pending().len() + sent(trace).len()
        }),
{
    let end = s.run(trace);
    let drain = receives::<T>(end.pending().len());
    law_conservation(s, trace);
    lemma_drain(end);
    lemma_run_concat(s, trace, drain);
    vstd::seq_lib::lemma_multiset_commutative(s.pending(), sent(trace));
}

/// A sender count of zero is for good: from then on no step can send, clone
/// or destroy a sender, so nothing is enqueued any more and the count stays at
/// zero. What is still pending can be received.
pub proof fn law_no_sender_returns<T>(s: ChannelState<T>, trace: Seq<Event<T>>)
    requires
        s.shared.senders == 0,
        s.admits(trace),
    ensures
        s.run(trace).shared.senders == 0,
        sent(trace).len() == 0,
        s.delivered(trace) + s.run(trace).pending() == s.pending(),
    decreases trace.len(),
{
    law_conservation(s, trace);
    if trace.len() > 0 {
        law_no_sender_returns(s.step(trace[0]), trace.skip(1));
    }
}

/// Closing is for good: once no sender is left and nothing is pending, every
/// receive reports that the channel is closed, nothing is delivered any more,
/// and the channel stays as it is, whatever is tried.
pub proof fn law_closed_forever<T>(s: ChannelState<T>, trace: Seq<Event<T>>)
    requires
        s.is_closed(),
        s.admits(trace),
    ensures
        s.outcome() == Outcome::<T>::Closed,
        s.outcome().value() is None,
        s.run(trace) == s,
        s.delivered(trace).len() == 0,
    decreases trace.len(),
{
    if trace.len() > 0 {
        law_closed_forever(s, trace.skip(1));
    }
}

/// A clone keeps the channel open: with two senders alive and nothing pending,
/// destroying one of them leaves a receiver waiting, not told that the channel
/// is closed. It gets the next value that the other sender sends, and is told
/// that the channel is closed only once that sender is destroyed too.
pub proof fn law_clone_keeps_open<T>(s: ChannelState<T>, value: T)
    requires
        s.shared.senders == 2,
        s.pending().len() == 0,
    ensures
        !s.drop_sender().is_closed(),
        s.drop_sender().outcome() == Outcome::<T>::Blocks,
        s.drop_sender().shared.is_idle(),
        s.drop_sender().send(value).outcome() == Outcome::Value(value),
        s.drop_sender().drop_sender().outcome() == Outcome::<T>::Closed,
{
}

} // verus!
