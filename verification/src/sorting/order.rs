//! The order by which the sorters sort, and what it means to be sorted.

use core::cmp::Ordering;
use vstd::laws_cmp::obeys_cmp;
use vstd::laws_cmp::obeys_cmp_ord;
use vstd::laws_cmp::obeys_cmp_partial_ord;
use vstd::laws_cmp::obeys_partial_cmp_spec_properties;
use vstd::prelude::*;
use vstd::std_specs::cmp::PartialOrdSpec;

verus! {

/// The comparisons of `T` do what their specification says and order all
/// values of `T` in one line.
pub open spec fn total_order<T: Ord>() -> bool {
    obeys_cmp::<T>()
}

/// The comparison operators on `T` return what [`gt`] and [`le`] say.
pub open spec fn operators_agree<T: Ord>() -> bool {
    T::obeys_partial_cmp_spec()
}

/// `a` comes strictly after `b`.
pub open spec fn gt<T: Ord>(a: T, b: T) -> bool {
    a.partial_cmp_spec(&b) == Some(Ordering::Greater)
}

/// `a` comes before `b` or ranks equal with it.
pub open spec fn le<T: Ord>(a: T, b: T) -> bool {
    a.partial_cmp_spec(&b) matches Some(Ordering::Less | Ordering::Equal)
}

/// No element comes strictly after a later one.
pub open spec fn sorted<T: Ord>(s: Seq<T>) -> bool {
    forall|i: int, j: int| 0 <= i < j < s.len() ==> le(s[i], s[j])
}

/// Under a total order the comparison operators of `T` compute [`gt`] and
/// [`le`], and of two values one comes after the other or not.
pub proof fn lemma_operators<T: Ord>()
    requires
        total_order::<T>(),
    ensures
        operators_agree::<T>(),
        forall|a: T, b: T| #[trigger] le(a, b) <==> !gt(a, b),
{
    reveal(obeys_cmp_partial_ord);
    reveal(obeys_cmp_ord);
}

/// Of two values, one comes before the other or they rank equal.
pub proof fn lemma_le_total<T: Ord>(a: T, b: T)
    requires
        total_order::<T>(),
    ensures
        le(a, b) || le(b, a),
        gt(a, b) ==> le(b, a),
{
    reveal(obeys_cmp_ord);
    reveal(obeys_partial_cmp_spec_properties);
}

/// The order is transitive.
pub proof fn lemma_le_transitive<T: Ord>(a: T, b: T, c: T)
    requires
        total_order::<T>(),
        le(a, b),
        le(b, c),
    ensures
        le(a, c),
{
    reveal(obeys_cmp_ord);
    reveal(obeys_partial_cmp_spec_properties);
    reveal(vstd::laws_eq::obeys_eq_spec_properties);
}

} // verus!
