//! Traits that intervals implement.

pub mod contains;
pub mod length;
pub mod overlaps;
