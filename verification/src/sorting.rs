//! Comparison sorts behind one interface.

pub mod bubble;
pub mod insertion;
pub mod order;
pub mod quick;
pub mod slices;
pub mod stable;

use vstd::prelude::*;

use crate::sorting::order::sorted;
use crate::sorting::order::total_order;
use crate::sorting::slices::sort_in_place;
use crate::sorting::stable::keeps_order_of_equals;
use crate::sorting::stable::lemma_stable_and_sorted_is_same;

verus! {

/// A way to sort a slice in place.
pub trait Sorter<T> {
    /// Puts the elements of `slice` in ascending order. The slice holds the
    /// same elements afterwards, each as often as before.
    fn sort(&self, slice: &mut [T]) where T: Ord
        requires
            total_order::<T>(),
        ensures
            sorted(final(slice)@),
            final(slice)@.to_multiset() == old(slice)@.to_multiset(),
            final(slice)@.len() == old(slice)@.len(),
    ;
}

/// Sorts with the standard library's own sort.
pub struct StdSorter;

impl<T> Sorter<T> for StdSorter {
    /// The standard library's sort is stable: elements that rank equal keep
    /// their order, and so a sorted slice stays as it is.
    fn sort(&self, slice: &mut [T]) where T: Ord
        ensures
            keeps_order_of_equals(old(slice)@, final(slice)@),
            sorted(old(slice)@) ==> final(slice)@ == old(slice)@,
    {
        sort_in_place(slice);
        proof {
            if sorted(old(slice)@) {
                lemma_stable_and_sorted_is_same(old(slice)@, slice@);
            }
        }
    }
}

} // verus!
