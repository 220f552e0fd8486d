//! What it means that a rearrangement keeps the order of elements that rank
//! equal.

use vstd::prelude::*;

use crate::sorting::order::gt;
use crate::sorting::order::le;
use crate::sorting::order::lemma_le_total;
use crate::sorting::order::lemma_le_transitive;
use crate::sorting::order::sorted;
use crate::sorting::order::total_order;
use crate::sorting::slices::swapped;

verus! {

/// Neither of `a` and `b` comes strictly after the other.
pub open spec fn same_rank<T: Ord>(a: T, b: T) -> bool {
    le(a, b) && le(b, a)
}

/// The elements of `s` that rank equal with `v`, in the order in which they
/// stand in `s`.
pub open spec fn peers<T: Ord>(s: Seq<T>, v: T) -> Seq<T> {
    s.filter(|x: T| same_rank(x, v))
}

/// `after` holds the elements that rank equal with each other in the same
/// order as `before` does.
pub open spec fn keeps_order_of_equals<T: Ord>(before: Seq<T>, after: Seq<T>) -> bool {
    forall|v: T| #[trigger] peers(after, v) == peers(before, v)
}

/// Exchanging two neighbours of which the first comes strictly after the
/// second moves no element past one that ranks equal with it.
pub proof fn lemma_swap_keeps_peers<T: Ord>(s: Seq<T>, at: int, v: T)
    requires
        total_order::<T>(),
        0 <= at,
        at + 1 < s.len(),
        gt(s[at], s[at + 1]),
    ensures
        peers(swapped(s, at, at + 1), v) == peers(s, v),
{
    let rank = |x: T| same_rank(x, v);
    let before = s.subrange(0, at);
    let behind = s.subrange(at + 2, s.len() as int);
    let first = s[at];
    let second = s[at + 1];
    if rank(first) && rank(second) {
        lemma_le_transitive(first, v, second);
    }
    assert(s =~= before + seq![first, second] + behind);
    assert(swapped(s, at, at + 1) =~= before + seq![second, first] + behind);
    Seq::filter_distributes_over_add(before + seq![first, second], behind, rank);
    Seq::filter_distributes_over_add(before, seq![first, second], rank);
    Seq::filter_distributes_over_add(before + seq![second, first], behind, rank);
    Seq::filter_distributes_over_add(before, seq![second, first], rank);
    assert(seq![first, second].filter(rank) =~= seq![second, first].filter(rank)) by {
        reveal_with_fuel(Seq::filter, 3);
    }
}

/// A sorted sequence has only one sorted rearrangement that keeps the order of
/// elements that rank equal: itself.
pub proof fn lemma_stable_and_sorted_is_same<T: Ord>(before: Seq<T>, after: Seq<T>)
    requires
        total_order::<T>(),
        sorted(before),
        sorted(after),
        before.len() == after.len(),
        keeps_order_of_equals(before, after),
    ensures
        after == before,
    decreases before.len(),
{
    if before.len() > 0 {
        let x = before.last();
        let y = after.last();
        lemma_last_ranks_with(before, after);
        lemma_last_ranks_with(after, before);
        let rank = |e: T| same_rank(e, x);
        assert(peers(after, x) == peers(before, x));
        assert(x == y) by {
            reveal_with_fuel(Seq::filter, 2);
            assert(rank(x) && rank(y)) by {
                lemma_le_total(x, x);
            }
            assert(after.filter(rank).last() == y);
        }
        let shorter = before.drop_last();
        let other = after.drop_last();
        assert forall|v: T| #[trigger] peers(other, v) == peers(shorter, v) by {
            reveal_with_fuel(Seq::filter, 2);
            let with = |e: T| same_rank(e, v);
            assert(peers(after, v) == peers(before, v));
            if with(x) {
                assert(after.filter(with).drop_last() =~= other.filter(with));
            }
        }
        lemma_stable_and_sorted_is_same(shorter, other);
        assert(before =~= shorter.push(x));
    }
}

/// The last element of a sorted sequence comes before or ranks equal with the
/// last element of any sorted sequence that holds the same elements of its
/// rank.
proof fn lemma_last_ranks_with<T: Ord>(a: Seq<T>, b: Seq<T>)
    requires
        total_order::<T>(),
        sorted(a),
        sorted(b),
        a.len() > 0,
        b.len() > 0,
        peers(b, a.last()) == peers(a, a.last()),
    ensures
        le(a.last(), b.last()),
{
    let x = a.last();
    let rank = |e: T| same_rank(e, x);
    lemma_le_total(x, x);
    a.lemma_filter_contains(rank, a.len() - 1);
    b.lemma_filter_contains_rev(rank, x);
}

} // verus!
