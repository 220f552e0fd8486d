//! Bubble sort.

use vstd::prelude::*;

use crate::sorting::order::le;
use crate::sorting::order::lemma_le_total;
use crate::sorting::order::lemma_le_transitive;
use crate::sorting::order::lemma_operators;
use crate::sorting::order::operators_agree;
use crate::sorting::order::sorted;
use crate::sorting::order::total_order;
use crate::sorting::slices::lemma_swapped_multiset;
use crate::sorting::slices::swap;
use crate::sorting::stable::keeps_order_of_equals;
use crate::sorting::stable::lemma_swap_keeps_peers;
use crate::sorting::stable::peers;
use crate::sorting::Sorter;

verus! {

/// Sorts by exchanging neighbours that are out of order, pass after pass,
/// until a pass finds nothing to exchange.
pub struct BubbleSort;

/// Every element from position `from` on comes after all elements before it:
/// the elements from `from` on have reached their final places.
pub open spec fn settled<T: Ord>(s: Seq<T>, from: int) -> bool {
    forall|a: int, b: int| 0 <= a < b < s.len() && from <= b ==> le(s[a], s[b])
}

/// The element at `top` comes after all elements before it.
pub open spec fn tops<T: Ord>(s: Seq<T>, top: int) -> bool {
    forall|a: int| 0 <= a < top ==> le(#[trigger] s[a], s[top])
}

impl<T> Sorter<T> for BubbleSort {
    /// Only neighbours of which the first comes strictly after the second
    /// are exchanged, so elements that rank equal keep their order and a
    /// sorted slice stays as it is.
    fn sort(&self, slice: &mut [T]) where T: Ord
        ensures
            keeps_order_of_equals(old(slice)@, final(slice)@),
            sorted(old(slice)@) ==> final(slice)@ == old(slice)@,
    {
        let len = slice.len();
        if len == 0 {
            return ;
        }
        let mut swapped = true;
        let ghost mut done: int = 0;
        while swapped
            invariant
                len == slice@.len(),
                0 < len,
                0 <= done <= len,
                total_order::<T>(),
                settled(slice@, len - done),
                !swapped ==> sorted(slice@),
                slice@.to_multiset() == old(slice)@.to_multiset(),
                keeps_order_of_equals(old(slice)@, slice@),
                sorted(old(slice)@) ==> slice@ == old(slice)@,
            decreases len - done + if swapped { 1int } else { 0int },
        {
            swapped = false;
            proof {
                lemma_operators::<T>();
            }
            for i in 0..(len - 1)
                invariant
                    len == slice@.len(),
                    0 < len,
                    0 <= done <= len,
                    total_order::<T>(),
                    operators_agree::<T>(),
                    settled(slice@, len - done),
                    tops(slice@, i as int),
                    swapped ==> done < len,
                    !swapped ==> forall|a: int, b: int| 0 <= a < b <= i ==> le(slice@[a], slice@[b]),
                    done < len && len - done - 1 <= i ==> tops(slice@, len - done - 1),
                    slice@.to_multiset() == old(slice)@.to_multiset(),
                    keeps_order_of_equals(old(slice)@, slice@),
                    sorted(old(slice)@) ==> slice@ == old(slice)@,
            {
                let ghost before = slice@;
                proof {
                    lemma_operators::<T>();
                }
                if slice[i] > slice[i + 1] {
                    swap(slice, i, i + 1);
                    swapped = true;
                    proof {
                        assert forall|v: T| #[trigger] peers(slice@, v) == peers(old(slice)@, v) by {
                            lemma_swap_keeps_peers(before, i as int, v);
                        }
                        if sorted(old(slice)@) {
                            assert(le(before[i as int], before[i + 1]));
                        }
                        lemma_swapped_multiset(before, i as int, i + 1);
                        lemma_le_total(before[i as int], before[i + 1]);
                        assert(i + 1 < len - done) by {
                            if i + 1 >= len - done {
                                assert(le(before[i as int], before[i + 1]));
                            }
                        }
                    }
                } else {
                    proof {
                        assert(tops(before, i + 1)) by {
                            assert forall|a: int| 0 <= a < i + 1 implies le(
                                #[trigger] before[a],
                                before[i + 1],
                            ) by {
                                if a < i {
                                    lemma_le_transitive(before[a], before[i as int], before[i + 1]);
                                }
                            }
                        }
                    }
                }
            }
            proof {
                if done < len {
                    done = done + 1;
                }
            }
        }
    }
}

} // verus!
