//! Quicksort.

use vstd::prelude::*;

use crate::sorting::insertion::insertion_sort;
use crate::sorting::order::gt;
use crate::sorting::order::le;
use crate::sorting::order::lemma_le_total;
use crate::sorting::order::lemma_le_transitive;
use crate::sorting::order::lemma_operators;
use crate::sorting::order::operators_agree;
use crate::sorting::order::sorted;
use crate::sorting::order::total_order;
use crate::sorting::slices::lemma_swapped_multiset;
use crate::sorting::slices::swap;
use crate::sorting::Sorter;

verus! {

/// Sorts by splitting around a pivot and sorting both sides, then makes one
/// insertion pass over the result.
pub struct QuickSort;

/// No element of `s` comes after `pivot`.
pub open spec fn all_le<T: Ord>(s: Seq<T>, pivot: T) -> bool {
    forall|i: int| 0 <= i < s.len() ==> le(#[trigger] s[i], pivot)
}

/// Every element of `s` comes strictly after `pivot`.
pub open spec fn all_gt<T: Ord>(s: Seq<T>, pivot: T) -> bool {
    forall|i: int| 0 <= i < s.len() ==> gt(#[trigger] s[i], pivot)
}

/// Rearranging a sequence does not change on which side of a pivot its
/// elements lie.
pub proof fn lemma_sides_kept<T: Ord>(before: Seq<T>, after: Seq<T>, pivot: T)
    requires
        before.to_multiset() == after.to_multiset(),
    ensures
        all_le(before, pivot) ==> all_le(after, pivot),
        all_gt(before, pivot) ==> all_gt(after, pivot),
{
    assert forall|i: int| 0 <= i < after.len() implies before.contains(#[trigger] after[i]) by {
        vstd::seq_lib::to_multiset_contains(after, after[i]);
        vstd::seq_lib::to_multiset_contains(before, after[i]);
    }
}

/// A sorted run of elements up to a pivot, the pivot, and a sorted run of
/// elements after it make a sorted whole.
pub proof fn lemma_sorted_around_pivot<T: Ord>(low: Seq<T>, pivot: T, high: Seq<T>)
    requires
        total_order::<T>(),
        sorted(low),
        sorted(high),
        all_le(low, pivot),
        all_gt(high, pivot),
    ensures
        sorted(low + seq![pivot] + high),
{
    let whole = low + seq![pivot] + high;
    assert forall|i: int, j: int| 0 <= i < j < whole.len() implies le(whole[i], whole[j]) by {
        if j > low.len() {
            let above = high[j - low.len() - 1];
            lemma_le_total(above, pivot);
            if i < low.len() {
                lemma_le_transitive(whole[i], pivot, above);
            }
        }
    }
}

/// Sorts `slice`: elements up to the first one go before it, the others after
/// it, and both sides are sorted in the same way.
pub fn quicksort<T: Ord>(slice: &mut [T])
    requires
        total_order::<T>(),
    ensures
        sorted(final(slice)@),
        final(slice)@.to_multiset() == old(slice)@.to_multiset(),
        final(slice)@.len() == old(slice)@.len(),
    decreases old(slice)@.len(),
{
    proof {
        lemma_operators::<T>();
    }
    let len = slice.len();
    if len <= 1 {
        return ;
    }
    if len == 2 {
        if slice[0] > slice[1] {
            proof {
                lemma_le_total(slice@[0], slice@[1]);
                lemma_swapped_multiset(slice@, 0, 1);
            }
            swap(slice, 0, 1);
        }
        return ;
    }
    let (head, rest) = slice.split_at_mut(1);
    let pivot = &head[0];
    let ghost start = rest@;
    let mut left: usize = 0;
    let mut right: usize = rest.len();
    while left < right
        invariant
            0 <= left <= right <= rest@.len(),
            rest@.len() == len - 1,
            total_order::<T>(),
            operators_agree::<T>(),
            all_le(rest@.subrange(0, left as int), *pivot),
            all_gt(rest@.subrange(right as int, rest@.len() as int), *pivot),
            rest@.to_multiset() == start.to_multiset(),
        decreases right - left,
    {
        let ghost before = rest@;
        proof {
            lemma_operators::<T>();
        }
        if &rest[left] <= pivot {
            left += 1;
        } else if &rest[right - 1] > pivot {
            right -= 1;
            proof {
                assert forall|i: int| 0 <= i < before.len() - right implies gt(
                    #[trigger] before.subrange(right as int, before.len() as int)[i],
                    *pivot,
                ) by {
                    if i > 0 {
                        assert(before.subrange(right + 1, before.len() as int)[i - 1] == before[right
                            + i]);
                    }
                }
            }
        } else {
            proof {
                assert(le(before[left as int], *pivot) <==> !gt(before[left as int], *pivot));
            }
            swap(rest, left, right - 1);
            proof {
                let after = rest@;
                lemma_swapped_multiset(before, left as int, right - 1);
                assert forall|i: int| 0 <= i < left + 1 implies le(
                    #[trigger] after.subrange(0, left + 1)[i],
                    *pivot,
                ) by {
                    if i < left {
                        assert(before.subrange(0, left as int)[i] == before[i]);
                    }
                }
                assert forall|i: int| 0 <= i < after.len() - (right - 1) implies gt(
                    #[trigger] after.subrange(right - 1, after.len() as int)[i],
                    *pivot,
                ) by {
                    if i > 0 {
                        assert(before.subrange(right as int, before.len() as int)[i - 1] == before[right
                            - 1 + i]);
                    }
                }
            }
            left += 1;
            right -= 1;
        }
    }
    let ghost pivot_value = *pivot;
    let ghost parted = rest@;
    let ghost joined = slice@;
    proof {
        assert(joined =~= seq![pivot_value] + parted);
        assert(old(slice)@ =~= seq![pivot_value] + start);
        vstd::seq_lib::lemma_multiset_commutative(seq![pivot_value], parted);
        vstd::seq_lib::lemma_multiset_commutative(seq![pivot_value], start);
        lemma_swapped_multiset(joined, 0, left as int);
    }
    swap(slice, 0, left);
    let ghost placed = slice@;
    let (low, high) = slice.split_at_mut(left);
    let ghost low_before = low@;
    quicksort(low);
    let (_, tail) = high.split_at_mut(1);
    let ghost tail_before = tail@;
    quicksort(tail);
    proof {
        let whole = slice@;
        assert(all_le(low_before, pivot_value)) by {
            assert forall|i: int| 0 <= i < low_before.len() implies le(
                #[trigger] low_before[i],
                pivot_value,
            ) by {
                if i == 0 {
                    assert(parted.subrange(0, left as int)[left - 1] == parted[left - 1]);
                } else {
                    assert(parted.subrange(0, left as int)[i - 1] == parted[i - 1]);
                }
            }
        }
        assert(all_gt(tail_before, pivot_value)) by {
            assert forall|i: int| 0 <= i < tail_before.len() implies gt(
                #[trigger] tail_before[i],
                pivot_value,
            ) by {
                assert(parted.subrange(left as int, parted.len() as int)[i] == parted[left + i]);
            }
        }
        lemma_sides_kept(low_before, low@, pivot_value);
        lemma_sides_kept(tail_before, tail@, pivot_value);
        lemma_sorted_around_pivot(low@, pivot_value, tail@);
        assert(whole =~= low@ + seq![pivot_value] + tail@);
        assert(placed =~= low_before + seq![pivot_value] + tail_before);
        vstd::seq_lib::lemma_multiset_commutative(low@ + seq![pivot_value], tail@);
        vstd::seq_lib::lemma_multiset_commutative(low@, seq![pivot_value]);
        vstd::seq_lib::lemma_multiset_commutative(low_before + seq![pivot_value], tail_before);
        vstd::seq_lib::lemma_multiset_commutative(low_before, seq![pivot_value]);
    }
}

impl<T> Sorter<T> for QuickSort {
    fn sort(&self, slice: &mut [T]) where T: Ord {
        quicksort(slice);
        insertion_sort(slice);
    }
}

} // verus!
