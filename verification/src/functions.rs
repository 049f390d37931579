//! Comparisons of bounds.

pub mod finite_bound_value;
pub mod is_ordered;
pub mod low_before_high;
