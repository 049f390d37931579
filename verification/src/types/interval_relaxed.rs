//! An earlier form of the relaxed interval, kept under its own module: its
//! overlap test only compares each interval's start with the other's end.

use crate::bound::Bound;
use crate::endpoint::Endpoint;
use crate::functions::low_before_high::{
    above, below, lemma_common_point, lemma_low_before_high_iff_point, low_before_high_spec,
};
use core::ops::Range;
use vstd::prelude::*;
use vstd::std_specs::convert::FromSpecImpl;

verus! {

/// A relaxed interval with runtime bounds, in either order.
#[derive(Clone, Debug, PartialEq, Eq, Hash)]
pub struct IntervalDynamicRelaxed<T> {
    pub a: Bound<T>,
    pub b: Bound<T>,
}

impl<T> IntervalDynamicRelaxed<T> {
    /// The interval with bounds `a` and `b`.
    pub fn new(a: Bound<T>, b: Bound<T>) -> (r: Self)
        ensures
            r == (Self { a, b }),
    {
        Self { a, b }
    }

    /// The first bound.
    pub fn a(&self) -> (r: &Bound<T>)
        ensures
            *r == self.a,
    {
        &self.a
    }

    /// The second bound.
    pub fn b(&self) -> (r: &Bound<T>)
        ensures
            *r == self.b,
    {
        &self.b
    }

    /// The two bounds, first and second.
    pub fn dissolve(self) -> (r: (Bound<T>, Bound<T>))
        ensures
            r == (self.a, self.b),
    {
        (self.a, self.b)
    }

    /// The interval from `a` included to `b` excluded.
    pub fn new_inclusive_exclusive(a: T, b: T) -> (r: Self)
        ensures
            r == (Self { a: Bound::Included(a), b: Bound::Excluded(b) }),
    {
        Self::new(Bound::Included(a), Bound::Excluded(b))
    }

    /// The range from the included first bound to the excluded second bound.
    pub fn into_range(self) -> (r: Range<T>)
        requires
            self.a is Included,
            self.b is Excluded,
        ensures
            r == (Range { start: self.a->Included_0, end: self.b->Excluded_0 }),
    {
        match (self.a, self.b) {
            (Bound::Included(start), Bound::Excluded(end)) => Range { start, end },
            _ => vstd::pervasive::unreached(),
        }
    }
}

impl<T: Endpoint> IntervalDynamicRelaxed<T> {
    /// Whether each interval starts before the other ends.
    pub open spec fn overlaps_spec(self, other: Self) -> bool {
        &&& low_before_high_spec(self.a, other.b)
        &&& low_before_high_spec(other.a, self.b)
    }

    /// Whether each interval starts before the other ends.
    pub fn overlaps(&self, other: &IntervalDynamicRelaxed<T>) -> (r: bool)
        ensures
            r == self.overlaps_spec(*other),
    {
        lower_before_upper(&self.a, &other.b) && lower_before_upper(&other.a, &self.b)
    }
}

/// Whether a lower bound precedes an upper bound; equal values precede each
/// other only when both are included.
fn lower_before_upper<T: Endpoint>(lower: &Bound<T>, upper: &Bound<T>) -> (r: bool)
    ensures
        r == low_before_high_spec(*lower, *upper),
{
    match (lower, upper) {
        (Bound::Unbounded, _) | (_, Bound::Unbounded) => true,
        (Bound::Included(lower), Bound::Included(upper)) => lower.value_le(upper),
        (Bound::Included(lower), Bound::Excluded(upper))
        | (Bound::Excluded(lower), Bound::Included(upper))
        | (Bound::Excluded(lower), Bound::Excluded(upper)) => lower.value_lt(upper),
    }
}

/// Overlapping is symmetric.
pub proof fn lemma_overlaps_symmetric<T: Endpoint>(x: IntervalDynamicRelaxed<T>, y: IntervalDynamicRelaxed<T>)
    ensures
        x.overlaps_spec(y) == y.overlaps_spec(x),
{
}

/// Two intervals that each hold some point overlap exactly when some point
/// lies in both, taking each interval's first bound as its lower bound
/// (points are counted in half steps, see `above`).
pub proof fn lemma_overlaps_iff_common_point<T: Endpoint>(x: IntervalDynamicRelaxed<T>, y: IntervalDynamicRelaxed<T>)
    requires
        exists|p: int| #[trigger] above(x.a, p) && below(x.b, p),
        exists|p: int| #[trigger] above(y.a, p) && below(y.b, p),
    ensures
        x.overlaps_spec(y) <==> exists|p: int|
            #[trigger] above(x.a, p) && below(x.b, p) && above(y.a, p) && below(y.b, p),
{
    lemma_low_before_high_iff_point(x.a, x.b);
    lemma_low_before_high_iff_point(y.a, y.b);
    lemma_common_point(x.a, x.b, y.a, y.b);
}

impl<T> From<Range<T>> for IntervalDynamicRelaxed<T> {
    fn from(value: Range<T>) -> (r: Self) {
        Self::new(Bound::Included(value.start), Bound::Excluded(value.end))
    }
}

impl<T> FromSpecImpl<Range<T>> for IntervalDynamicRelaxed<T> {
    open spec fn obeys_from_spec() -> bool {
        true
    }

    open spec fn from_spec(v: Range<T>) -> Self {
        Self { a: Bound::Included(v.start), b: Bound::Excluded(v.end) }
    }
}

impl<T> From<(Bound<T>, Bound<T>)> for IntervalDynamicRelaxed<T> {
    fn from(value: (Bound<T>, Bound<T>)) -> (r: Self) {
        Self::new(value.0, value.1)
    }
}

impl<T> FromSpecImpl<(Bound<T>, Bound<T>)> for IntervalDynamicRelaxed<T> {
    open spec fn obeys_from_spec() -> bool {
        true
    }

    open spec fn from_spec(v: (Bound<T>, Bound<T>)) -> Self {
        Self { a: v.0, b: v.1 }
    }
}

} // verus!
