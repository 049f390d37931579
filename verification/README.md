# intervals

Intervals over integer values, with bounds that may be included, excluded or
absent, verified with Verus.

- `src/bound.rs`: the `Bound` of one side of an interval.
- `src/endpoint.rs`: the `Endpoint` trait (ordering and checked subtraction)
  and its implementations for the primitive integer types, whose subtraction
  is `num_traits::CheckedSub`.
- `src/functions/`: comparisons of bounds.
- `src/traits/`: the `Contains`, `Length` and `Overlaps` traits.
- `src/types/`: the relaxed, strict and strict finite interval types, with
  the laws that relate their operations.
- `app/`: error types with `std::error::Error` (through `thiserror`), serde
  forms of the dynamic intervals, and conversions to and from
  `core::ops::Bound`.
