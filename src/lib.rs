//! One-dimensional ranges over ordered values: membership and overlap tests
//! decided from the two bounds of each range, by comparisons alone.

pub mod bound;
pub mod laws;
pub mod range_bounds;
pub mod shapes;

pub use range_bounds::{check, Overlaps, RangeBounds};
