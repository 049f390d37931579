//! The interval types.

pub mod interval_dynamic_relaxed;
pub mod interval_dynamic_strict;
pub mod interval_relaxed;
pub mod interval_strict_finite;
pub mod interval_strict_finite_exc_exc;
