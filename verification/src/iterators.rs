//! Walking through a list of lists as through one list, from either end.

use std::collections::VecDeque;
use vstd::prelude::*;

verus! {

/// The elements of all `parts`, one part after the other.
pub open spec fn concat<T>(parts: Seq<Vec<T>>) -> Seq<T>
    decreases parts.len(),
{
    if parts.len() == 0 {
        Seq::empty()
    } else {
        parts[0]@ + concat(parts.skip(1))
    }
}

/// The concatenation can be taken apart at the last part as well as at the
/// first.
pub proof fn lemma_concat_last<T>(parts: Seq<Vec<T>>)
    requires
        parts.len() > 0,
    ensures
        concat(parts) == concat(parts.drop_last()) + parts.last()@,
    decreases parts.len(),
{
    if parts.len() == 1 {
        assert(parts.skip(1) =~= Seq::<Vec<T>>::empty());
        assert(parts.drop_last() =~= Seq::<Vec<T>>::empty());
    } else {
        let rest = parts.skip(1);
        lemma_concat_last(rest);
        assert(rest.drop_last() =~= parts.drop_last().skip(1));
    }
}

/// `VecDeque::from` turns a vector into a queue with the same elements in the
/// same order.
#[verifier::external_body]
fn into_deque<T>(list: Vec<T>) -> (queue: VecDeque<T>)
    ensures
        queue@ == list@,
{
    VecDeque::from(list)
}

/// The elements of a list of lists, handed out one at a time from the front or
/// from the back.
///
/// The lists may all be given at the start, to [`flatten`], or handed over
/// one by one while the walk goes on: [`Flatten::step`] and
/// [`Flatten::step_back`] say when the next list is wanted, and
/// [`Flatten::feed_front`] and [`Flatten::feed_back`] take it.
pub struct Flatten<T> {
    outer: VecDeque<Vec<T>>,
    front_iter: Option<VecDeque<T>>,
    back_iter: Option<VecDeque<T>>,
}

/// What one step of a walk comes to.
pub enum Step<T> {
    /// The next element.
    Item(T),
    /// Nothing is at hand on this side: the next list is wanted, if there is
    /// one.
    Refill,
}

/// What is left in an inner list that may not have been opened yet.
pub open spec fn opened<T>(inner: Option<VecDeque<T>>) -> Seq<T> {
    match inner {
        Some(queue) => queue@,
        None => Seq::empty(),
    }
}

/// Walks through the elements of the lists in `outer` as through one list.
pub fn flatten<T>(outer: Vec<Vec<T>>) -> (all: Flatten<T>)
    ensures
        all.remaining() == concat(outer@),
        all.ahead() == concat(outer@),
        all.behind().len() == 0,
{
    Flatten::new(into_deque(outer))
}

impl<T> Flatten<T> {
    /// The elements at hand from the front: what is left of the list that is
    /// open at the front, and the lists that wait behind it, whether given at
    /// the start or fed from the front.
    pub closed spec fn ahead(&self) -> Seq<T> {
        opened(self.front_iter) + concat(self.outer@)
    }

    /// The elements at hand from the back: what is left of the lists that
    /// were opened at the back or fed from the back.
    pub closed spec fn behind(&self) -> Seq<T> {
        opened(self.back_iter)
    }

    /// The elements that have not been handed out yet, in order. Lists that
    /// have not been fed yet would lie between the two parts.
    pub open spec fn remaining(&self) -> Seq<T> {
        self.ahead() + self.behind()
    }

    fn new(outer: VecDeque<Vec<T>>) -> (all: Self)
        ensures
            all.ahead() == concat(outer@),
            all.behind().len() == 0,
    {
        Flatten { outer, front_iter: None, back_iter: None }
    }

    /// Takes `list` as the next list from the front: its elements come after
    /// all that is at hand from the front.
    pub fn feed_front(&mut self, list: Vec<T>)
        ensures
            final(self).ahead() == old(self).ahead() + list@,
            final(self).behind() == old(self).behind(),
    {
        self.outer.push_back(list);
        proof {
            lemma_concat_last(self.outer@);
            assert(self.outer@.drop_last() =~= old(self).outer@);
        }
    }

    /// Takes `list` as the next list from the back: its elements come before
    /// all that is at hand from the back.
    pub fn feed_back(&mut self, list: Vec<T>)
        ensures
            final(self).behind() == list@ + old(self).behind(),
            final(self).ahead() == old(self).ahead(),
    {
        let mut fresh = into_deque(list);
        if let Some(inner) = &mut self.back_iter {
            fresh.append(inner);
        }
        self.back_iter = Some(fresh);
    }

    /// The first element at hand from the front, or the word that the next
    /// list is wanted there.
    pub fn step(&mut self) -> (got: Step<T>)
        ensures
            final(self).behind() == old(self).behind(),
            old(self).ahead().len() > 0 ==> got == Step::Item(old(self).ahead()[0])
                && final(self).ahead() == old(self).ahead().skip(1),
            old(self).ahead().len() == 0 ==> got is Refill && final(self).ahead().len() == 0,
    {
        loop
            invariant
                self.ahead() == old(self).ahead(),
                self.behind() == old(self).behind(),
            decreases self.outer@.len(),
        {
            if let Some(inner) = &mut self.front_iter {
                if let Some(item) = inner.pop_front() {
                    return Step::Item(item);
                }
                self.front_iter = None;
            }
            if let Some(next_inner) = self.outer.pop_front() {
                self.front_iter = Some(into_deque(next_inner));
            } else {
                return Step::Refill;
            }
        }
    }

    /// The last element at hand from the back, or the word that the next list
    /// is wanted there.
    pub fn step_back(&mut self) -> (got: Step<T>)
        ensures
            final(self).ahead() == old(self).ahead(),
            old(self).behind().len() > 0 ==> got == Step::Item(old(self).behind().last())
                && final(self).behind() == old(self).behind().drop_last(),
            old(self).behind().len() == 0 ==> got is Refill && final(self).behind().len() == 0,
    {
        if let Some(inner) = &mut self.back_iter {
            if let Some(item) = inner.pop_back() {
                return Step::Item(item);
            }
            self.back_iter = None;
        }
        Step::Refill
    }

    /// Hands out the first of the remaining elements, when no more lists are
    /// to come.
    pub fn next(&mut self) -> (item: Option<T>)
        ensures
            old(self).remaining().len() == 0 ==> item is None && final(self).remaining().len() == 0,
            old(self).remaining().len() > 0 ==> item == Some(old(self).remaining()[0])
                && final(self).remaining() == old(self).remaining().skip(1),
    {
        match self.step() {
            Step::Item(item) => {
                Some(item)
            },
            Step::Refill => {
                match &mut self.back_iter {
                    Some(inner) => inner.pop_front(),
                    None => None,
                }
            },
        }
    }

    /// Hands out the last of the remaining elements, when no more lists are
    /// to come.
    pub fn next_back(&mut self) -> (item: Option<T>)
        ensures
            old(self).remaining().len() == 0 ==> item is None && final(self).remaining().len() == 0,
            old(self).remaining().len() > 0 ==> item == Some(old(self).remaining().last())
                && final(self).remaining() == old(self).remaining().drop_last(),
    {
        loop
            invariant
                self.remaining() == old(self).remaining(),
            decreases self.outer@.len(),
        {
            if let Some(inner) = &mut self.back_iter {
                if let Some(item) = inner.pop_back() {
                    return Some(item);
                }
                self.back_iter = None;
            }
            let ghost parts = self.outer@;
            if let Some(next_inner) = self.outer.pop_back() {
                proof {
                    lemma_concat_last(parts);
                }
                self.back_iter = Some(into_deque(next_inner));
            } else {
                match &mut self.front_iter {
                    Some(inner) => {
                        return inner.pop_back();
                    },
                    None => {
                        return None;
                    },
                }
            }
        }
    }
}

} // verus!
