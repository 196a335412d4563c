//! One side of a range, as `core::ops::Bound` describes it, and the
//! comparisons that decide membership and overlap on one side.

use core::ops::Bound::{self, Excluded, Included, Unbounded};
use vstd::prelude::*;
use vstd::std_specs::cmp::{PartialOrdIs, PartialOrdSpec};

verus! {

/// `core::ops::Bound`, with its three variants visible to proofs.
#[verifier::external_type_specification]
#[verifier::reject_recursive_types(T)]
pub struct ExBound<T>(Bound<T>);

/// `x` lies on the inner side of the start bound `start`.
pub open spec fn after_start<T: ?Sized + PartialOrd<U>, U: ?Sized>(start: Bound<&T>, x: &U) -> bool {
    match start {
        Included(s) => s.is_le(x),
        Excluded(s) => s.is_lt(x),
        Unbounded => true,
    }
}

/// `x` lies on the inner side of the end bound `end`.
pub open spec fn before_end<U: ?Sized + PartialOrd<T>, T: ?Sized>(x: &U, end: Bound<&T>) -> bool {
    match end {
        Included(e) => x.is_le(e),
        Excluded(e) => x.is_lt(e),
        Unbounded => true,
    }
}

/// The start bound `start` does not shut out the end bound `end`: the
/// interval they enclose, read over a dense order, is not empty. An unbounded
/// side sets no constraint.
pub open spec fn bounds_meet<S: ?Sized + PartialOrd<E>, E: ?Sized>(start: Bound<&S>, end: Bound<&E>) -> bool {
    match (start, end) {
        (Unbounded, _) => true,
        (_, Unbounded) => true,
        (Included(s), Included(e)) => s.is_le(e),
        (Included(s), Excluded(e)) => s.is_lt(e),
        (Excluded(s), Included(e)) => s.is_lt(e),
        (Excluded(s), Excluded(e)) => s.is_lt(e),
    }
}

/// Decides `after_start(start, x)`.
pub fn admits_after_start<T: ?Sized + PartialOrd<U>, U: ?Sized>(start: Bound<&T>, x: &U) -> (r: bool)
    requires
        <T as PartialOrdSpec<U>>::obeys_partial_cmp_spec(),
    ensures
        r == after_start(start, x),
{
    match start {
        Included(s) => s <= x,
        Excluded(s) => s < x,
        Unbounded => true,
    }
}

/// Decides `before_end(x, end)`.
pub fn admits_before_end<U: ?Sized + PartialOrd<T>, T: ?Sized>(x: &U, end: Bound<&T>) -> (r: bool)
    requires
        <U as PartialOrdSpec<T>>::obeys_partial_cmp_spec(),
    ensures
        r == before_end(x, end),
{
    match end {
        Included(e) => x <= e,
        Excluded(e) => x < e,
        Unbounded => true,
    }
}

/// Decides `bounds_meet(start, end)`. Where either bound is included, its
/// endpoint is a point of its own range, and the question is whether the
/// other bound admits that point; two excluded endpoints are compared
/// directly.
pub fn meets<S: ?Sized + PartialOrd<E>, E: ?Sized>(start: Bound<&S>, end: Bound<&E>) -> (r: bool)
    requires
        <S as PartialOrdSpec<E>>::obeys_partial_cmp_spec(),
    ensures
        r == bounds_meet(start, end),
{
    match (start, end) {
        (Unbounded, _) => true,
        (_, Unbounded) => true,
        (Included(s), _) => admits_before_end(s, end),
        (_, Included(e)) => admits_after_start(start, e),
        (Excluded(s), Excluded(e)) => s < e,
    }
}

} // verus!
