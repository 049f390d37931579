//! Intervals over totally ordered values, with bounds that may be included,
//! excluded or absent.
//!
//! - [`IntervalDynamicRelaxed`]: two bounds in any order.
//! - [`IntervalDynamicStrict`]: two ordered bounds.
//! - [`IntervalStrictFinite`]: two ordered values, with the inclusion of each
//!   one fixed by the type.
//!
//! The values are [`Endpoint`]s: the primitive integer types.

pub mod bound;
pub mod endpoint;
pub mod functions;
pub mod traits;
pub mod types;

pub use bound::Bound;
pub use endpoint::{fits, Endpoint};
pub use functions::finite_bound_value::finite_bound_value;
pub use functions::is_ordered::{is_ordered, is_ordered_spec};
pub use functions::low_before_high::{low_before_high, low_before_high_spec};
pub use traits::contains::Contains;
pub use traits::length::{is_checked_length, Length};
pub use traits::overlaps::Overlaps;
pub use types::interval_dynamic_relaxed::{IntervalDynamicRelaxed, TryFromIntervalDynamicRelaxedForRangeError};
pub use types::interval_dynamic_strict::{
    IntervalDynamicStrict, IntervalDynamicStrictMapError, TryFromIntervalDynamicRelaxedForIntervalDynamicStrictError,
    TryFromTupleForIntervalDynamicStrictError,
};
pub use types::interval_strict_finite::{
    IntervalStrictFinite, IntervalStrictFiniteExcExc, IntervalStrictFiniteExcInc, IntervalStrictFiniteIncExc,
    IntervalStrictFiniteIncInc, IntervalStrictFiniteMapError, TryFromTupleForIntervalStrictFiniteError, EXCLUDED,
    INCLUDED,
};
