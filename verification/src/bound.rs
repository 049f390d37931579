//! The bound of an interval on one side.

use vstd::prelude::*;

verus! {

/// An endpoint of an interval: a value that belongs to the interval, a value
/// that does not, or no bound at all.
#[derive(Clone, Copy, Debug, PartialEq, Eq, Hash)]
pub enum Bound<T> {
    /// The interval reaches this value and holds it.
    Included(T),
    /// The interval reaches this value and does not hold it.
    Excluded(T),
    /// The interval is not bounded on this side.
    Unbounded,
}

impl<T> Bound<T> {
    /// The value of a finite bound, `None` for `Unbounded`.
    pub open spec fn finite(self) -> Option<T> {
        match self {
            Bound::Included(v) => Some(v),
            Bound::Excluded(v) => Some(v),
            Bound::Unbounded => None,
        }
    }

    /// The same bound over a reference to its value.
    pub fn as_ref(&self) -> (r: Bound<&T>)
        ensures
            r == match *self {
                Bound::Included(v) => Bound::Included(&v),
                Bound::Excluded(v) => Bound::Excluded(&v),
                Bound::Unbounded => Bound::Unbounded,
            },
    {
        match self {
            Bound::Included(v) => Bound::Included(v),
            Bound::Excluded(v) => Bound::Excluded(v),
            Bound::Unbounded => Bound::Unbounded,
        }
    }
}

/// A finite bound holds its value whether it is included or excluded; an
/// unbounded side holds none.
pub proof fn lemma_finite<T>(v: T)
    ensures
        Bound::Included(v).finite() == Some(v),
        Bound::Excluded(v).finite() == Some(v),
        Bound::<T>::Unbounded.finite() is None,
{
}

#[verifier::external_type_specification]
#[verifier::external_body]
#[verifier::reject_recursive_types(T)]
pub struct ExStdBound<T>(core::ops::Bound<T>);

/// Converts a `Bound` into a `core::ops::Bound`, variant by variant. Its
/// contract states nothing: Verus does not see inside `core::ops::Bound`.
#[verifier::external_body]
pub(crate) fn bound_into_std<T>(bound: Bound<T>) -> core::ops::Bound<T> {
    match bound {
        Bound::Included(v) => core::ops::Bound::Included(v),
        Bound::Excluded(v) => core::ops::Bound::Excluded(v),
        Bound::Unbounded => core::ops::Bound::Unbounded,
    }
}

} // verus!
