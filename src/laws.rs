//! Laws of the membership and overlap tests.

use crate::bound::{after_start, before_end, bounds_meet};
use crate::range_bounds::{range_contains, ranges_overlap, RangeBounds};
use core::cmp::Ordering;
use core::ops::Bound::{self, Excluded, Included, Unbounded};
use core::ops::{Range, RangeInclusive};
use vstd::prelude::*;
use vstd::std_specs::cmp::{PartialOrdIs, PartialOrdSpec};

verus! {

/// `<=` and `<` on `T` chain as they do on numbers.
pub open spec fn transitive_order<T: PartialOrd>() -> bool {
    &&& forall|x: T, y: T, z: T|
        #![trigger x.partial_cmp_spec(&y), y.partial_cmp_spec(&z)]
        x.is_le(&y) && y.is_le(&z) ==> x.is_le(&z)
    &&& forall|x: T, y: T, z: T|
        #![trigger x.partial_cmp_spec(&y), y.partial_cmp_spec(&z)]
        x.is_le(&y) && y.is_lt(&z) ==> x.is_lt(&z)
    &&& forall|x: T, y: T, z: T|
        #![trigger x.partial_cmp_spec(&y), y.partial_cmp_spec(&z)]
        x.is_lt(&y) && y.is_le(&z) ==> x.is_lt(&z)
}

/// The comparisons of `T` form a total order: every value equals itself,
/// any two values are comparable, and the comparisons chain.
pub open spec fn total_order<T: PartialOrd>() -> bool {
    &&& forall|x: T| #[trigger] x.partial_cmp_spec(&x) == Some(Ordering::Equal)
    &&& forall|x: T, y: T| #[trigger] x.partial_cmp_spec(&y) is Some
    &&& forall|x: T, y: T|
        #![trigger x.partial_cmp_spec(&y)]
        #![trigger y.partial_cmp_spec(&x)]
        x.is_le(&y) || y.is_le(&x)
    &&& transitive_order::<T>()
}

/// The start bound `start` holds an endpoint with which `x` does not compare.
pub open spec fn start_incomparable<T: ?Sized + PartialOrd<U>, U: ?Sized>(
    start: Bound<&T>,
    x: &U,
) -> bool {
    match start {
        Included(s) => s.partial_cmp_spec(x) is None,
        Excluded(s) => s.partial_cmp_spec(x) is None,
        Unbounded => false,
    }
}

/// The end bound `end` holds an endpoint with which `x` does not compare.
pub open spec fn end_incomparable<U: ?Sized + PartialOrd<T>, T: ?Sized>(
    x: &U,
    end: Bound<&T>,
) -> bool {
    match end {
        Included(e) => x.partial_cmp_spec(e) is None,
        Excluded(e) => x.partial_cmp_spec(e) is None,
        Unbounded => false,
    }
}

/// Overlap does not depend on the order of the two ranges.
pub proof fn lemma_overlap_symmetric<
    A: RangeBounds<T>,
    B: RangeBounds<E>,
    T: ?Sized + PartialOrd<E>,
    E: ?Sized + PartialOrd<T>,
>(a: &A, b: &B)
    ensures
        ranges_overlap(a, b) == ranges_overlap(b, a),
{
}

/// A range that contains some value overlaps itself.
pub proof fn lemma_nonempty_overlaps_itself<R: RangeBounds<T>, T: PartialOrd>(r: &R, x: &T)
    requires
        transitive_order::<T>(),
        range_contains(r, x),
    ensures
        ranges_overlap(r, r),
{
    let s = r.spec_start_bound();
    let e = r.spec_end_bound();
    match (s, e) {
        (Included(a), Included(b)) => assert(a.is_le(b)),
        (Included(a), Excluded(b)) => assert(a.is_lt(b)),
        (Excluded(a), Included(b)) => assert(a.is_lt(b)),
        (Excluded(a), Excluded(b)) => {
            assert(a.is_lt(x) && x.is_le(b));
            assert(a.is_lt(b));
        },
        _ => {},
    }
}

/// A range unbounded on both sides overlaps every range, in either order.
pub proof fn lemma_unbounded_overlaps_all<
    A: RangeBounds<T>,
    B: RangeBounds<E>,
    T: ?Sized + PartialOrd<E>,
    E: ?Sized + PartialOrd<T>,
>(a: &A, b: &B)
    requires
        a.spec_start_bound() is Unbounded,
        a.spec_end_bound() is Unbounded,
    ensures
        ranges_overlap(a, b),
        ranges_overlap(b, a),
{
}

/// A start bound admits every value past a value it admits.
proof fn lemma_after_start_grows<T: PartialOrd>(s: Bound<&T>, x: &T, y: &T)
    requires
        transitive_order::<T>(),
        after_start(s, x),
        x.is_le(y),
    ensures
        after_start(s, y),
{
    match s {
        Included(a) => assert(a.is_le(x) && x.is_le(y)),
        Excluded(a) => assert(a.is_lt(x) && x.is_le(y)),
        Unbounded => {},
    }
}

/// An end bound admits every value before a value it admits.
proof fn lemma_before_end_shrinks<T: PartialOrd>(e: Bound<&T>, x: &T, y: &T)
    requires
        transitive_order::<T>(),
        before_end(y, e),
        x.is_le(y),
    ensures
        before_end(x, e),
{
    match e {
        Included(b) => assert(x.is_le(y) && y.is_le(b)),
        Excluded(b) => assert(x.is_le(y) && y.is_lt(b)),
        Unbounded => {},
    }
}

/// Where both ranges include their start values, `x` and `y`, and neither is
/// inverted, they overlap exactly when one contains the other's start value.
pub proof fn lemma_included_starts_decide<A: RangeBounds<T>, B: RangeBounds<T>, T: PartialOrd>(
    a: &A,
    b: &B,
    x: &T,
    y: &T,
)
    requires
        total_order::<T>(),
        ranges_overlap(a, a),
        ranges_overlap(b, b),
        a.spec_start_bound() == Included(x),
        b.spec_start_bound() == Included(y),
    ensures
        ranges_overlap(a, b) == (range_contains(b, x) || range_contains(a, y)),
{
    assert(bounds_meet(Included(x), a.spec_end_bound()) ==> before_end(x, a.spec_end_bound()));
    assert(bounds_meet(Included(y), b.spec_end_bound()) ==> before_end(y, b.spec_end_bound()));
    assert(x.is_le(y) || y.is_le(x));
    if y.is_le(x) {
        lemma_before_end_shrinks(a.spec_end_bound(), y, x);
    }
    if x.is_le(y) {
        lemma_before_end_shrinks(b.spec_end_bound(), x, y);
    }
}

/// Where both ranges include their end values, `x` and `y`, and neither is
/// inverted, they overlap exactly when one contains the other's end value.
pub proof fn lemma_included_ends_decide<A: RangeBounds<T>, B: RangeBounds<T>, T: PartialOrd>(
    a: &A,
    b: &B,
    x: &T,
    y: &T,
)
    requires
        total_order::<T>(),
        ranges_overlap(a, a),
        ranges_overlap(b, b),
        a.spec_end_bound() == Included(x),
        b.spec_end_bound() == Included(y),
    ensures
        ranges_overlap(a, b) == (range_contains(b, x) || range_contains(a, y)),
{
    assert(bounds_meet(a.spec_start_bound(), Included(x)) ==> after_start(a.spec_start_bound(), x));
    assert(bounds_meet(b.spec_start_bound(), Included(y)) ==> after_start(b.spec_start_bound(), y));
    assert(x.is_le(y) || y.is_le(x));
    if x.is_le(y) {
        lemma_after_start_grows(a.spec_start_bound(), x, y);
    }
    if y.is_le(x) {
        lemma_after_start_grows(b.spec_start_bound(), y, x);
    }
}

/// A half-open range `start..end` never contains `end`, and contains `start`
/// whenever `start < end`.
pub proof fn lemma_half_open_membership<T: PartialOrd>(r: &Range<T>)
    requires
        total_order::<T>(),
    ensures
        !range_contains(r, &r.end),
        r.start.is_lt(&r.end) ==> range_contains(r, &r.start),
{
    assert(r.end.partial_cmp_spec(&r.end) == Some(Ordering::Equal));
    assert(r.start.partial_cmp_spec(&r.start) == Some(Ordering::Equal));
}

/// A closed range `start..=end` with `start <= end` contains both `start` and
/// `end`.
pub proof fn lemma_closed_membership<T: PartialOrd>(r: &RangeInclusive<T>)
    requires
        total_order::<T>(),
        r@.start.is_le(&r@.end),
    ensures
        range_contains(r, &r@.start),
        range_contains(r, &r@.end),
{
    assert(r@.end.partial_cmp_spec(&r@.end) == Some(Ordering::Equal));
    assert(r@.start.partial_cmp_spec(&r@.start) == Some(Ordering::Equal));
}

/// A value that does not compare with an endpoint of a range is not
/// contained in it, whichever side that endpoint bounds.
pub proof fn lemma_incomparable_not_contained<
    R: RangeBounds<T>,
    T: ?Sized + PartialOrd<U>,
    U: ?Sized + PartialOrd<T>,
>(r: &R, x: &U)
    requires
        start_incomparable(r.spec_start_bound(), x) || end_incomparable(x, r.spec_end_bound()),
    ensures
        !range_contains(r, x),
{
}

/// The comparisons of `i64` form a total order.
pub proof fn lemma_i64_total_order()
    ensures
        total_order::<i64>(),
{
}

/// The comparisons of `u64` form a total order.
pub proof fn lemma_u64_total_order()
    ensures
        total_order::<u64>(),
{
}

} // verus!
