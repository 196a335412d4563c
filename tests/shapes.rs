use range_overlap::RangeBounds;
use std::ops::Bound::{self, Excluded, Included, Unbounded};

#[test]
fn full_range_is_unbounded_both_sides() {
    assert_eq!(RangeBounds::<i32>::start_bound(&(..)), Unbounded);
    assert_eq!(RangeBounds::<i32>::end_bound(&(..)), Unbounded);
}

#[test]
fn from_range_bounds() {
    let r = 3..;
    assert_eq!(RangeBounds::start_bound(&r), Included(&3));
    assert_eq!(RangeBounds::end_bound(&r), Unbounded);
}

#[test]
fn to_range_bounds() {
    let r = ..10;
    assert_eq!(RangeBounds::start_bound(&r), Unbounded);
    assert_eq!(RangeBounds::end_bound(&r), Excluded(&10));
}

#[test]
fn half_open_range_bounds() {
    let r = 3..10;
    assert_eq!(RangeBounds::start_bound(&r), Included(&3));
    assert_eq!(RangeBounds::end_bound(&r), Excluded(&10));
}

#[test]
fn closed_range_bounds() {
    let r = 3..=10;
    assert_eq!(RangeBounds::start_bound(&r), Included(&3));
    assert_eq!(RangeBounds::end_bound(&r), Included(&10));
}

#[test]
fn to_inclusive_range_bounds() {
    let r = ..=10;
    assert_eq!(RangeBounds::start_bound(&r), Unbounded);
    assert_eq!(RangeBounds::end_bound(&r), Included(&10));
}

#[test]
fn explicit_pair_bounds() {
    let r: (Bound<i32>, Bound<i32>) = (Excluded(2), Included(7));
    assert_eq!(r.start_bound(), Excluded(&2));
    assert_eq!(r.end_bound(), Included(&7));
    let u: (Bound<i32>, Bound<i32>) = (Unbounded, Excluded(4));
    assert_eq!(u.start_bound(), Unbounded);
    assert_eq!(u.end_bound(), Excluded(&4));
}

#[test]
fn explicit_borrowed_pair_bounds() {
    let (a, b) = (1, 9);
    let r: (Bound<&i32>, Bound<&i32>) = (Included(&a), Excluded(&b));
    assert_eq!(RangeBounds::<i32>::start_bound(&r), Included(&1));
    assert_eq!(RangeBounds::<i32>::end_bound(&r), Excluded(&9));
}

#[test]
fn borrowed_endpoint_shapes() {
    let (a, b) = (4, 8);
    assert_eq!(RangeBounds::<i32>::start_bound(&(&a..)), Included(&4));
    assert_eq!(RangeBounds::<i32>::end_bound(&(&a..)), Unbounded);
    assert_eq!(RangeBounds::<i32>::start_bound(&(..&b)), Unbounded);
    assert_eq!(RangeBounds::<i32>::end_bound(&(..&b)), Excluded(&8));
    assert_eq!(RangeBounds::<i32>::start_bound(&(&a..&b)), Included(&4));
    assert_eq!(RangeBounds::<i32>::end_bound(&(&a..&b)), Excluded(&8));
    assert_eq!(RangeBounds::<i32>::start_bound(&(..=&b)), Unbounded);
    assert_eq!(RangeBounds::<i32>::end_bound(&(..=&b)), Included(&8));
}

#[test]
fn bounds_are_stable_across_calls() {
    let r = 2..=6;
    assert_eq!(RangeBounds::start_bound(&r), RangeBounds::start_bound(&r));
    assert_eq!(RangeBounds::end_bound(&r), RangeBounds::end_bound(&r));
}
