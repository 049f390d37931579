//! A strict finite interval that excludes both endpoints, as a type of its
//! own rather than an instance of `IntervalStrictFinite`.

use vstd::prelude::*;
use vstd::std_specs::convert::FromSpecImpl;

verus! {

/// An interval between two values that excludes both of them.
#[derive(Clone, Copy, Debug, PartialEq, Eq, Hash)]
pub struct IntervalStrictFiniteExcExc<T> {
    a: T,
    b: T,
}

impl<T> View for IntervalStrictFiniteExcExc<T> {
    /// The two endpoints.
    type V = (T, T);

    closed spec fn view(&self) -> (T, T) {
        (self.a, self.b)
    }
}

impl<T> IntervalStrictFiniteExcExc<T> {
    /// The first endpoint.
    pub fn a(&self) -> (r: &T)
        ensures
            *r == self@.0,
    {
        &self.a
    }

    /// The second endpoint.
    pub fn b(&self) -> (r: &T)
        ensures
            *r == self@.1,
    {
        &self.b
    }
}

impl<T> From<IntervalStrictFiniteExcExc<T>> for (T, T) {
    fn from(value: IntervalStrictFiniteExcExc<T>) -> (r: Self) {
        (value.a, value.b)
    }
}

impl<T> FromSpecImpl<IntervalStrictFiniteExcExc<T>> for (T, T) {
    open spec fn obeys_from_spec() -> bool {
        true
    }

    open spec fn from_spec(v: IntervalStrictFiniteExcExc<T>) -> Self {
        v@
    }
}

} // verus!
