//! What the sorters take from the standard library's slices.

use vstd::prelude::*;

use crate::sorting::order::sorted;
use crate::sorting::order::total_order;
use crate::sorting::stable::keeps_order_of_equals;

verus! {

/// The sequence `s` with the elements at `a` and `b` exchanged.
pub open spec fn swapped<T>(s: Seq<T>, a: int, b: int) -> Seq<T> {
    s.update(a, s[b]).update(b, s[a])
}

/// `<[T]>::swap` exchanges the elements at two positions and leaves the others
/// where they are. It panics when a position lies outside the slice.
#[verifier::external_body]
pub(crate) fn swap<T>(slice: &mut [T], a: usize, b: usize)
    requires
        a < old(slice)@.len(),
        b < old(slice)@.len(),
    ensures
        final(slice)@ == swapped(old(slice)@, a as int, b as int),
{
    slice.swap(a, b)
}

/// `<[T]>::sort` puts the slice in ascending order and keeps its elements,
/// each as often as before. The sort is stable: elements that rank equal keep
/// their order. It may panic when the comparisons of `T` are not a total
/// order.
#[verifier::external_body]
pub(crate) fn sort_in_place<T: Ord>(slice: &mut [T])
    requires
        total_order::<T>(),
    ensures
        sorted(final(slice)@),
        final(slice)@.to_multiset() == old(slice)@.to_multiset(),
        final(slice)@.len() == old(slice)@.len(),
        keeps_order_of_equals(old(slice)@, final(slice)@),
{
    slice.sort()
}

/// Exchanging two elements keeps the elements, each as often as before.
pub proof fn lemma_swapped_multiset<T>(s: Seq<T>, a: int, b: int)
    requires
        0 <= a < s.len(),
        0 <= b < s.len(),
    ensures
        swapped(s, a, b).to_multiset() == s.to_multiset(),
{
    broadcast use vstd::seq_lib::to_multiset_update;

    vstd::seq_lib::to_multiset_contains(s, s[a]);
}

} // verus!
