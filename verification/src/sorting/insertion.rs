//! Insertion sort.

use vstd::prelude::*;

use crate::sorting::order::le;
use crate::sorting::order::lemma_le_total;
use crate::sorting::order::lemma_le_transitive;
use crate::sorting::order::lemma_operators;
use crate::sorting::order::operators_agree;
use crate::sorting::order::sorted;
use crate::sorting::order::total_order;
use crate::sorting::slices::lemma_swapped_multiset;
use crate::sorting::slices::swap;
use crate::sorting::stable::keeps_order_of_equals;
use crate::sorting::stable::lemma_swap_keeps_peers;
use crate::sorting::stable::peers;
use crate::sorting::Sorter;

verus! {

/// Sorts by moving each element down into the sorted part before it.
pub struct InsertionSort;

/// The elements before `end` are in order, but for the one at `hole`, which is
/// known only to come before those between it and `end`.
pub open spec fn sorted_around<T: Ord>(s: Seq<T>, hole: int, end: int) -> bool {
    &&& forall|i: int, j: int| 0 <= i < j < end && i != hole && j != hole ==> le(s[i], s[j])
    &&& forall|j: int| hole < j < end ==> le(s[hole], s[j])
}

/// Sorts `slice` by insertion. Only neighbours of which the first comes
/// strictly after the second are exchanged, so elements that rank equal keep
/// their order and a sorted slice stays as it is.
pub fn insertion_sort<T: Ord>(slice: &mut [T])
    requires
        total_order::<T>(),
    ensures
        sorted(final(slice)@),
        final(slice)@.to_multiset() == old(slice)@.to_multiset(),
        final(slice)@.len() == old(slice)@.len(),
        keeps_order_of_equals(old(slice)@, final(slice)@),
        sorted(old(slice)@) ==> final(slice)@ == old(slice)@,
{
    proof {
        lemma_operators::<T>();
    }
    let len = slice.len();
    let mut unsorted: usize = 1;
    while unsorted < len
        invariant
            1 <= unsorted,
            len == slice@.len(),
            total_order::<T>(),
            operators_agree::<T>(),
            forall|i: int, j: int| 0 <= i < j < unsorted && j < len ==> le(slice@[i], slice@[j]),
            slice@.to_multiset() == old(slice)@.to_multiset(),
            keeps_order_of_equals(old(slice)@, slice@),
            sorted(old(slice)@) ==> slice@ == old(slice)@,
        decreases len - unsorted,
    {
        let mut i = unsorted;
        while i > 0 && slice[i - 1] > slice[i]
            invariant
                0 <= i <= unsorted < len,
                len == slice@.len(),
                total_order::<T>(),
                operators_agree::<T>(),
                sorted_around(slice@, i as int, unsorted + 1),
                slice@.to_multiset() == old(slice)@.to_multiset(),
                keeps_order_of_equals(old(slice)@, slice@),
                sorted(old(slice)@) ==> slice@ == old(slice)@,
            decreases i,
        {
            let ghost before = slice@;
            swap(slice, i - 1, i);
            proof {
                lemma_operators::<T>();
                lemma_swapped_multiset(before, i - 1, i as int);
                lemma_le_total(before[i - 1], before[i as int]);
                assert forall|v: T| #[trigger] peers(slice@, v) == peers(old(slice)@, v) by {
                    lemma_swap_keeps_peers(before, i - 1, v);
                }
                if sorted(old(slice)@) {
                    assert(le(before[i - 1], before[i as int]));
                }
            }
            i -= 1;
        }
        proof {
            let s = slice@;
            lemma_operators::<T>();
            assert forall|a: int, b: int| 0 <= a < b < unsorted + 1 implies le(s[a], s[b]) by {
                if b == i && a < i - 1 {
                    lemma_le_transitive(s[a], s[i - 1], s[i as int]);
                }
            }
        }
        unsorted += 1;
    }
}

impl<T> Sorter<T> for InsertionSort {
    /// Sorts as [`insertion_sort`] does.
    fn sort(&self, slice: &mut [T]) where T: Ord
        ensures
            keeps_order_of_equals(old(slice)@, final(slice)@),
            sorted(old(slice)@) ==> final(slice)@ == old(slice)@,
    {
        insertion_sort(slice);
    }
}

} // verus!
