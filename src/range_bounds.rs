//! The range abstraction: a start bound and an end bound, with membership
//! and overlap decided from them.

use crate::bound::{admits_after_start, admits_before_end, after_start, before_end, bounds_meet, meets};
use core::ops::Bound;
use vstd::prelude::*;
use vstd::std_specs::cmp::PartialOrdSpec;

verus! {

/// A range over values of `T`, described by its two bounds.
pub trait RangeBounds<T: ?Sized> {
    /// The start bound that `start_bound` returns.
    spec fn spec_start_bound(&self) -> Bound<&T>;

    /// The end bound that `end_bound` returns.
    spec fn spec_end_bound(&self) -> Bound<&T>;

    /// Start bound of the range.
    fn start_bound(&self) -> (r: Bound<&T>)
        ensures
            r == self.spec_start_bound(),
    ;

    /// End bound of the range.
    fn end_bound(&self) -> (r: Bound<&T>)
        ensures
            r == self.spec_end_bound(),
    ;

    /// Whether `item` lies in the range: on the inner side of both bounds. A
    /// comparison that does not hold (as with incomparable values) leaves the
    /// item out.
    fn contains<U: ?Sized>(&self, item: &U) -> (r: bool)
        where
            T: PartialOrd<U>,
            U: PartialOrd<T>,
        requires
            <T as PartialOrdSpec<U>>::obeys_partial_cmp_spec(),
            <U as PartialOrdSpec<T>>::obeys_partial_cmp_spec(),
        ensures
            r == (after_start(self.spec_start_bound(), item) && before_end(
                item,
                self.spec_end_bound(),
            )),
    {
        admits_after_start(self.start_bound(), item) && admits_before_end(item, self.end_bound())
    }
}

/// The overlap test, for every range of `RangeBounds`. It stands apart from
/// `RangeBounds` because its method is generic over a second `RangeBounds`
/// type, which Verus does not accept inside that trait itself.
pub trait Overlaps<T: ?Sized>: RangeBounds<T> {
    /// Whether this range and `other` overlap: each range's start bound meets
    /// the other's end bound.
    fn overlaps<O: RangeBounds<E>, E: ?Sized>(&self, other: &O) -> (r: bool)
        where
            T: PartialOrd<E>,
            E: PartialOrd<T>,
        requires
            <T as PartialOrdSpec<E>>::obeys_partial_cmp_spec(),
            <E as PartialOrdSpec<T>>::obeys_partial_cmp_spec(),
        ensures
            r == ranges_overlap(self, other),
    ;
}

impl<T: ?Sized, R: RangeBounds<T> + ?Sized> Overlaps<T> for R {
    fn overlaps<O: RangeBounds<E>, E: ?Sized>(&self, other: &O) -> (r: bool)
        where
            T: PartialOrd<E>,
            E: PartialOrd<T>,
    {
        meets(self.start_bound(), other.end_bound()) && meets(other.start_bound(), self.end_bound())
    }
}

/// `x` lies in the range `r`.
pub open spec fn range_contains<R: RangeBounds<T> + ?Sized, T: ?Sized + PartialOrd<U>, U: ?Sized + PartialOrd<T>>(
    r: &R,
    x: &U,
) -> bool {
    after_start(r.spec_start_bound(), x) && before_end(x, r.spec_end_bound())
}

/// The ranges `a` and `b` overlap: the start of each meets the end of the
/// other. Neither range is checked for being inverted on its own.
pub open spec fn ranges_overlap<
    A: RangeBounds<T> + ?Sized,
    B: RangeBounds<E> + ?Sized,
    T: ?Sized + PartialOrd<E>,
    E: ?Sized + PartialOrd<T>,
>(a: &A, b: &B) -> bool {
    bounds_meet(a.spec_start_bound(), b.spec_end_bound()) && bounds_meet(
        b.spec_start_bound(),
        a.spec_end_bound(),
    )
}

/// Whether `a` and `b` overlap in both orders of the call, each time as
/// `expected` says.
pub fn check<A: RangeBounds<K>, B: RangeBounds<K>, K: ?Sized + PartialEq<K> + PartialOrd<K>>(
    a: A,
    b: B,
    expected: bool,
) -> (r: bool)
    requires
        K::obeys_partial_cmp_spec(),
    ensures
        r == (ranges_overlap(&a, &b) == expected && ranges_overlap(&b, &a) == expected),
{
    let ab = a.overlaps(&b);
    let ba = b.overlaps(&a);
    ab == expected && ba == expected
}

} // verus!
