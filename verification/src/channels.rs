//! An unbounded multi-producer, single-consumer channel.
//!
//! [`model`] describes the channel as a mathematical value, [`inner`] holds the
//! data that the lock guards and the operations performed while it is held,
//! [`laws`] proves what the model promises of every run, and [`sync`] holds the
//! lock itself.
//!
//! The handles below do nothing but take the lock, perform one operation of
//! [`inner`] and let the lock go. What another thread did in between is
//! unknown to the verifier, so their contracts speak of the receiver's own
//! buffer only; what happens to the queue and the sender count is stated, and
//! proved, for the operations of [`inner`].
//!
//! No function here panics. Should the lock ever report that a thread
//! panicked while holding it, the guarded state is left alone from then on.
//! [`Sender::try_send`] and [`Receiver::try_receive`] hand that failure to the
//! caller, the first together with the value; [`Sender::send`] drops the value
//! and [`Receiver::receive`] reports the channel as closed.

pub mod inner;
pub mod laws;
pub mod model;
pub mod sync;

use std::collections::VecDeque;
use std::sync::Arc;
use vstd::prelude::*;

use crate::channels::sync::held;
use crate::channels::sync::lock;
use crate::channels::sync::notify_one;
use crate::channels::sync::share;
use crate::channels::sync::wait_while_idle;
use crate::channels::sync::Shared;

verus! {

/// A producer handle. Any number of them may exist for one channel, on any
/// threads. Cloning a sender makes another one; the channel closes when the
/// last one is destroyed.
#[verifier::reject_recursive_types(T)]
pub struct Sender<T> {
    shared: Arc<Shared<T>>,
}

/// The consumer handle. Exactly one exists for a channel.
#[verifier::reject_recursive_types(T)]
pub struct Receiver<T> {
    shared: Arc<Shared<T>>,
    buffer: VecDeque<T>,
}

/// The lock reported that a thread panicked while holding it. The state
/// behind it is not touched any more.
#[derive(Clone, Copy, Debug, PartialEq, Eq)]
pub struct Poisoned;

/// A value that could not be enqueued, handed back to the caller.
#[derive(Debug)]
pub struct SendError<T>(pub T);

impl<T> Sender<T> {
    /// This sender and `rx` belong to one channel: what is sent here arrives
    /// there.
    pub closed spec fn feeds(&self, rx: &Receiver<T>) -> bool {
        self.shared == rx.shared
    }

    /// Enqueues `value`, then wakes the receiver if it waits. Takes the lock
    /// for [`Inner::push`](crate::channels::inner::Inner::push) and never waits
    /// for the receiver. Without a receiver the value stays in the queue until
    /// the last handle is gone.
    ///
    /// The sender stays bound to its channel. A value that
    /// [`try_send`](Self::try_send) would hand back is dropped here.
    pub fn send(&mut self, value: T)
        ensures
            *final(self) == *old(self),
    {
        let _ = self.try_send(value);
    }

    /// Enqueues `value` as [`send`](Self::send) does, unless the lock reports
    /// that a thread panicked while holding it: then the queue is left alone
    /// and `value` comes back in the error.
    pub fn try_send(&mut self, value: T) -> (sent: Result<(), SendError<T>>)
        ensures
            *final(self) == *old(self),
            sent matches Err(refused) ==> refused.0 == value,
    {
        let sent = match lock(&self.shared) {
            Ok(mut guard) => {
                held(&mut guard).push(value);
                Ok(())
            },
            Err(_) => Err(SendError(value)),
        };
        notify_one(&self.shared);
        sent
    }
}

impl<T> Clone for Sender<T> {
    /// Another sender for the same channel. Takes the lock for
    /// [`Inner::add_sender`](crate::channels::inner::Inner::add_sender).
    fn clone(&self) -> (other: Self)
        ensures
            other == *self,
    {
        match lock(&self.shared) {
            Ok(mut guard) => {
                held(&mut guard).add_sender();
            },
            Err(_) => {},
        }
        Sender { shared: share(&self.shared) }
    }
}

impl<T> Drop for Sender<T> {
    /// Takes the lock for
    /// [`Inner::remove_sender`](crate::channels::inner::Inner::remove_sender)
    /// and, when this was the last sender, wakes the receiver so that it learns
    /// that the channel is closed. The handle itself is left as it was.
    fn drop(&mut self)
        ensures
            *final(self) == *old(self),
        opens_invariants none
        no_unwind
    {
        let was_last = match lock(&self.shared) {
            Ok(mut guard) => held(&mut guard).remove_sender(),
            Err(_) => false,
        };
        if was_last {
            notify_one(&self.shared);
        }
    }
}

impl<T> Receiver<T> {
    /// The values that the receiver has taken out of the queue and not handed
    /// on yet, oldest first.
    pub closed spec fn buffered(&self) -> Seq<T> {
        self.buffer@
    }

    /// The oldest value that was sent and not yet received, or `None` once the
    /// channel is closed: no sender is left and nothing is pending.
    ///
    /// A buffered value is handed out without the lock. Otherwise the
    /// receiver takes the lock, sleeps while the state is idle, and then calls
    /// [`Inner::take`](crate::channels::inner::Inner::take), which also fills
    /// the buffer with whatever else was queued.
    ///
    /// The receiver stays bound to its channel. Where
    /// [`try_receive`](Self::try_receive) fails, this reports the channel as
    /// closed.
    pub fn receive(&mut self) -> (got: Option<T>)
        ensures
            old(self).buffered().len() > 0 ==> got == Some(old(self).buffered()[0])
                && final(self).buffered() == old(self).buffered().skip(1),
            got is None ==> old(self).buffered().len() == 0 && final(self).buffered().len() == 0,
            forall|tx: Sender<T>| #[trigger] tx.feeds(final(self)) == tx.feeds(old(self)),
    {
        match self.try_receive() {
            Ok(got) => got,
            Err(_) => None,
        }
    }

    /// Receives as [`receive`](Self::receive) does, unless the lock reports
    /// that a thread panicked while holding it: then the queue is left alone
    /// and the failure is returned. That can only happen with an empty buffer.
    pub fn try_receive(&mut self) -> (got: Result<Option<T>, Poisoned>)
        ensures
            old(self).buffered().len() > 0 ==> got == Ok::<Option<T>, Poisoned>(
                Some(old(self).buffered()[0]),
            ) && final(self).buffered() == old(self).buffered().skip(1),
            !(got matches Ok(Some(_))) ==> old(self).buffered().len() == 0
                && final(self).buffered().len() == 0,
            forall|tx: Sender<T>| #[trigger] tx.feeds(final(self)) == tx.feeds(old(self)),
    {
        if let Some(value) = self.buffer.pop_front() {
            return Ok(Some(value));
        }
        let guard = match lock(&self.shared) {
            Ok(guard) => guard,
            Err(_) => {
                return Err(Poisoned);
            },
        };
        let mut guard = match wait_while_idle(&self.shared, guard) {
            Ok(guard) => guard,
            Err(_) => {
                return Err(Poisoned);
            },
        };
        Ok(held(&mut guard).take(&mut self.buffer))
    }

    /// The receiver as a sequence that is read once: the same as
    /// [`receive`](Self::receive), under the name that iteration uses. After
    /// the first `None` every call returns `None`.
    pub fn next(&mut self) -> (got: Option<T>)
        ensures
            old(self).buffered().len() > 0 ==> got == Some(old(self).buffered()[0])
                && final(self).buffered() == old(self).buffered().skip(1),
            got is None ==> old(self).buffered().len() == 0 && final(self).buffered().len() == 0,
            forall|tx: Sender<T>| #[trigger] tx.feeds(final(self)) == tx.feeds(old(self)),
    {
        self.receive()
    }
}

/// A new channel: its one sender and its receiver, bound to one shared state.
pub fn channel<T>() -> (ends: (Sender<T>, Receiver<T>))
    ensures
        ends.0.feeds(&ends.1),
        ends.1.buffered().len() == 0,
{
    let shared = Arc::new(Shared::new());
    (Sender { shared: share(&shared) }, Receiver { shared, buffer: VecDeque::new() })
}

} // verus!
