//! The range shapes of `core::ops` and pairs of explicit bounds, each read as
//! a start bound and an end bound.

use crate::range_bounds::RangeBounds;
use core::ops::Bound::{self, Excluded, Included, Unbounded};
use core::ops::{Range, RangeFrom, RangeFull, RangeInclusive, RangeTo, RangeToInclusive};
use vstd::prelude::*;

verus! {

/// `core::ops::RangeFull`, the range `..`.
#[verifier::external_type_specification]
pub struct ExRangeFull(RangeFull);

/// `core::ops::RangeFrom`, with its public `start` field visible to proofs.
#[verifier::external_type_specification]
#[verifier::reject_recursive_types(Idx)]
pub struct ExRangeFrom<Idx>(RangeFrom<Idx>);

/// `core::ops::RangeTo`, with its public `end` field visible to proofs.
#[verifier::external_type_specification]
#[verifier::reject_recursive_types(Idx)]
pub struct ExRangeTo<Idx>(RangeTo<Idx>);

/// `core::ops::RangeToInclusive`, with its public `end` field visible to proofs.
#[verifier::external_type_specification]
#[verifier::reject_recursive_types(Idx)]
pub struct ExRangeToInclusive<Idx>(RangeToInclusive<Idx>);

/// Relies on `RangeInclusive::start`: a reference to the lower bound that
/// the range was built with.
pub assume_specification<Idx>[ RangeInclusive::<Idx>::start ](r: &RangeInclusive<Idx>) -> (s: &Idx)
    ensures
        *s == r@.start,
;

/// Relies on `RangeInclusive::end`: a reference to the upper bound that the
/// range was built with. The documentation leaves the value open only once
/// the range has been iterated to exhaustion; nothing in this crate iterates
/// a range.
pub assume_specification<Idx>[ RangeInclusive::<Idx>::end ](r: &RangeInclusive<Idx>) -> (e: &Idx)
    ensures
        *e == r@.end,
;

/// The start or end bound `b`, borrowed.
pub open spec fn bound_ref<T>(b: &Bound<T>) -> Bound<&T> {
    match b {
        Included(x) => Included(x),
        Excluded(x) => Excluded(x),
        Unbounded => Unbounded,
    }
}

/// Borrows the start or end bound `b`.
fn borrow_bound<T>(b: &Bound<T>) -> (r: Bound<&T>)
    ensures
        r == bound_ref(b),
{
    match b {
        Included(x) => Included(x),
        Excluded(x) => Excluded(x),
        Unbounded => Unbounded,
    }
}

impl<T: ?Sized> RangeBounds<T> for RangeFull {
    open spec fn spec_start_bound(&self) -> Bound<&T> {
        Unbounded
    }

    open spec fn spec_end_bound(&self) -> Bound<&T> {
        Unbounded
    }

    fn start_bound(&self) -> (r: Bound<&T>) {
        Unbounded
    }

    fn end_bound(&self) -> (r: Bound<&T>) {
        Unbounded
    }
}

impl<T> RangeBounds<T> for RangeFrom<T> {
    open spec fn spec_start_bound(&self) -> Bound<&T> {
        Included(&self.start)
    }

    open spec fn spec_end_bound(&self) -> Bound<&T> {
        Unbounded
    }

    fn start_bound(&self) -> (r: Bound<&T>) {
        Included(&self.start)
    }

    fn end_bound(&self) -> (r: Bound<&T>) {
        Unbounded
    }
}

impl<T> RangeBounds<T> for RangeTo<T> {
    open spec fn spec_start_bound(&self) -> Bound<&T> {
        Unbounded
    }

    open spec fn spec_end_bound(&self) -> Bound<&T> {
        Excluded(&self.end)
    }

    fn start_bound(&self) -> (r: Bound<&T>) {
        Unbounded
    }

    fn end_bound(&self) -> (r: Bound<&T>) {
        Excluded(&self.end)
    }
}

impl<T> RangeBounds<T> for Range<T> {
    open spec fn spec_start_bound(&self) -> Bound<&T> {
        Included(&self.start)
    }

    open spec fn spec_end_bound(&self) -> Bound<&T> {
        Excluded(&self.end)
    }

    fn start_bound(&self) -> (r: Bound<&T>) {
        Included(&self.start)
    }

    fn end_bound(&self) -> (r: Bound<&T>) {
        Excluded(&self.end)
    }
}

/// `start..=end` includes both of its endpoints.
impl<T> RangeBounds<T> for RangeInclusive<T> {
    open spec fn spec_start_bound(&self) -> Bound<&T> {
        Included(&self@.start)
    }

    open spec fn spec_end_bound(&self) -> Bound<&T> {
        Included(&self@.end)
    }

    fn start_bound(&self) -> (r: Bound<&T>) {
        Included(self.start())
    }

    fn end_bound(&self) -> (r: Bound<&T>) {
        Included(self.end())
    }
}

impl<T> RangeBounds<T> for RangeToInclusive<T> {
    open spec fn spec_start_bound(&self) -> Bound<&T> {
        Unbounded
    }

    open spec fn spec_end_bound(&self) -> Bound<&T> {
        Included(&self.end)
    }

    fn start_bound(&self) -> (r: Bound<&T>) {
        Unbounded
    }

    fn end_bound(&self) -> (r: Bound<&T>) {
        Included(&self.end)
    }
}

impl<T> RangeBounds<T> for (Bound<T>, Bound<T>) {
    open spec fn spec_start_bound(&self) -> Bound<&T> {
        bound_ref(&self.0)
    }

    open spec fn spec_end_bound(&self) -> Bound<&T> {
        bound_ref(&self.1)
    }

    fn start_bound(&self) -> (r: Bound<&T>) {
        borrow_bound(&self.0)
    }

    fn end_bound(&self) -> (r: Bound<&T>) {
        borrow_bound(&self.1)
    }
}

impl<'a, T: ?Sized + 'a> RangeBounds<T> for (Bound<&'a T>, Bound<&'a T>) {
    open spec fn spec_start_bound(&self) -> Bound<&T> {
        self.0
    }

    open spec fn spec_end_bound(&self) -> Bound<&T> {
        self.1
    }

    fn start_bound(&self) -> (r: Bound<&T>) {
        self.0
    }

    fn end_bound(&self) -> (r: Bound<&T>) {
        self.1
    }
}

impl<T> RangeBounds<T> for RangeFrom<&T> {
    open spec fn spec_start_bound(&self) -> Bound<&T> {
        Included(self.start)
    }

    open spec fn spec_end_bound(&self) -> Bound<&T> {
        Unbounded
    }

    fn start_bound(&self) -> (r: Bound<&T>) {
        Included(self.start)
    }

    fn end_bound(&self) -> (r: Bound<&T>) {
        Unbounded
    }
}

impl<T> RangeBounds<T> for RangeTo<&T> {
    open spec fn spec_start_bound(&self) -> Bound<&T> {
        Unbounded
    }

    open spec fn spec_end_bound(&self) -> Bound<&T> {
        Excluded(self.end)
    }

    fn start_bound(&self) -> (r: Bound<&T>) {
        Unbounded
    }

    fn end_bound(&self) -> (r: Bound<&T>) {
        Excluded(self.end)
    }
}

impl<T> RangeBounds<T> for Range<&T> {
    open spec fn spec_start_bound(&self) -> Bound<&T> {
        Included(self.start)
    }

    open spec fn spec_end_bound(&self) -> Bound<&T> {
        Excluded(self.end)
    }

    fn start_bound(&self) -> (r: Bound<&T>) {
        Included(self.start)
    }

    fn end_bound(&self) -> (r: Bound<&T>) {
        Excluded(self.end)
    }
}

impl<T> RangeBounds<T> for RangeToInclusive<&T> {
    open spec fn spec_start_bound(&self) -> Bound<&T> {
        Unbounded
    }

    open spec fn spec_end_bound(&self) -> Bound<&T> {
        Included(self.end)
    }

    fn start_bound(&self) -> (r: Bound<&T>) {
        Unbounded
    }

    fn end_bound(&self) -> (r: Bound<&T>) {
        Included(self.end)
    }
}

} // verus!
