//! The data behind the lock and what is done to it while the lock is held.

use std::collections::VecDeque;
use vstd::prelude::*;

use crate::channels::model::SharedState;

verus! {

/// The queue of pending values and the count of live senders.
pub struct Inner<T> {
    queue: VecDeque<T>,
    senders: usize,
}

impl<T> View for Inner<T> {
    type V = SharedState<T>;

    closed spec fn view(&self) -> SharedState<T> {
        SharedState { queue: self.queue@, senders: self.senders as nat }
    }
}

impl<T> Inner<T> {
    /// The state of a new channel: an empty queue and one sender.
    pub fn new() -> (inner: Self)
        ensures
            inner@ == SharedState::<T>::fresh(),
    {
        Inner { queue: VecDeque::new(), senders: 1 }
    }

    /// Number of values waiting in the queue.
    pub fn queued(&self) -> (n: usize)
        ensures
            n == self@.queue.len(),
    {
        self.queue.len()
    }

    /// Number of live senders.
    pub fn senders(&self) -> (n: usize)
        ensures
            n == self@.senders,
    {
        self.senders
    }

    /// Appends `value` to the queue.
    pub fn push(&mut self, value: T)
        ensures
            final(self)@ == old(self)@.push(value),
    {
        self.queue.push_back(value);
    }

    /// Counts one more sender. A count that already fills a `usize` stays as it
    /// is.
    pub fn add_sender(&mut self)
        ensures
            old(self)@.senders < usize::MAX ==> final(self)@ == old(self)@.add_sender(),
            old(self)@.senders == usize::MAX ==> final(self)@ == old(self)@,
    {
        if self.senders < usize::MAX {
            self.senders = self.senders + 1;
        }
    }

    /// Counts one sender less and tells whether none is left.
    pub fn remove_sender(&mut self) -> (was_last: bool)
        ensures
            final(self)@ == old(self)@.drop_sender(),
            was_last == (final(self)@.senders == 0),
        opens_invariants none
        no_unwind
    {
        if self.senders > 0 {
            self.senders = self.senders - 1;
        }
        self.senders == 0
    }

    /// Whether a receiver that finds this state has to wait: the queue is empty
    /// and a sender is alive.
    pub fn is_idle(&self) -> (idle: bool)
        ensures
            idle == self@.is_idle(),
    {
        self.queue.len() == 0 && self.senders > 0
    }

    /// What the receiver does once it holds the lock, which it takes only
    /// with an empty `buffer`: takes the oldest value out of the queue, if
    /// there is one. When more values are queued behind it, the whole rest
    /// moves into `buffer` in one exchange, so that the receiver can hand them
    /// out without the lock.
    pub fn take(&mut self, buffer: &mut VecDeque<T>) -> (got: Option<T>)
        requires
            old(buffer)@.len() == 0,
        ensures
            got == old(self)@.front(),
            got == old(self)@.with_buffer(old(buffer)@).outcome().value(),
            final(self)@.with_buffer(final(buffer)@) == old(self)@.with_buffer(
                old(buffer)@,
            ).after_receive(),
    {
        match self.queue.pop_front() {
            Some(value) => {
                if self.queue.len() > 0 {
                    std::mem::swap(buffer, &mut self.queue);
                }
                assert(buffer@ =~= old(self)@.queue.skip(1));
                assert(self.queue@ =~= Seq::<T>::empty());
                Some(value)
            },
            None => None,
        }
    }
}

} // verus!
