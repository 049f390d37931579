use crate::bound::{bound_into_std, Bound};
use crate::endpoint::Endpoint;
use crate::functions::finite_bound_value::finite_bound_value;
use crate::functions::is_ordered::{is_ordered, is_ordered_spec};
use crate::functions::low_before_high::{above, below, lemma_common_point, low_before_high, low_before_high_spec};
use crate::traits::length::{is_checked_length, Length};
use crate::traits::overlaps::Overlaps;
use crate::types::interval_dynamic_strict::IntervalDynamicStrict;
use core::ops::Range;
use vstd::prelude::*;
use vstd::std_specs::convert::{FromSpec, FromSpecImpl, TryFromSpecImpl};

verus! {

/// A relaxed interval with runtime bounds.
///
/// Its bounds may come in either order; prefer `IntervalDynamicStrict`,
/// which checks that they are ordered.
///
/// This type intentionally doesn't implement `Ord` or `PartialOrd`, because a
/// single interval has multiple values that can be compared (for example:
/// field values, length value). Users should compare the values directly.
#[derive(Clone, Copy, Debug, PartialEq, Eq, Hash)]
pub struct IntervalDynamicRelaxed<T> {
    pub a: Bound<T>,
    pub b: Bound<T>,
}

impl<T> IntervalDynamicRelaxed<T> {
    /// The interval with bounds `a` and `b`.
    pub fn new(a: Bound<T>, b: Bound<T>) -> (r: Self)
        ensures
            r == (Self { a, b }),
    {
        Self { a, b }
    }

    /// The first bound.
    pub fn a(&self) -> (r: &Bound<T>)
        ensures
            *r == self.a,
    {
        &self.a
    }

    /// The second bound.
    pub fn b(&self) -> (r: &Bound<T>)
        ensures
            *r == self.b,
    {
        &self.b
    }

    /// The two bounds, first and second.
    pub fn dissolve(self) -> (r: (Bound<T>, Bound<T>))
        ensures
            r == (self.a, self.b),
    {
        (self.a, self.b)
    }

    /// The interval from `a` included to `b` excluded.
    pub fn new_inclusive_exclusive(a: T, b: T) -> (r: Self)
        ensures
            r == (Self { a: Bound::Included(a), b: Bound::Excluded(b) }),
    {
        Self::new(Bound::Included(a), Bound::Excluded(b))
    }
}

impl<T: Endpoint> IntervalDynamicRelaxed<T> {
    /// The bounds in order: unchanged when they are ordered, swapped when
    /// they are not.
    pub open spec fn normalized(self) -> Self {
        if is_ordered_spec(self.a, self.b) {
            self
        } else {
            Self { a: self.b, b: self.a }
        }
    }

    /// Whether the two intervals share a part: both are non-empty and each
    /// starts before the other ends.
    pub open spec fn overlaps_spec(self, other: Self) -> bool {
        &&& low_before_high_spec(self.a, self.b)
        &&& low_before_high_spec(other.a, other.b)
        &&& low_before_high_spec(self.a, other.b)
        &&& low_before_high_spec(other.a, self.b)
    }

    /// The distance between the two bounds when both are finite.
    pub open spec fn size(self) -> Option<int> {
        match (self.a.finite(), self.b.finite()) {
            (Some(a), Some(b)) => Some(
                if b.as_int() < a.as_int() {
                    a.as_int() - b.as_int()
                } else {
                    b.as_int() - a.as_int()
                },
            ),
            _ => None,
        }
    }

    /// The interval with bounds `a` and `b`, put in order.
    pub fn new_ordered(a: Bound<T>, b: Bound<T>) -> (r: Self)
        ensures
            r == (Self { a, b }).normalized(),
            is_ordered_spec(r.a, r.b),
    {
        let mut interval = Self::new(a, b);
        interval.normalize();
        interval
    }

    /// Swaps the bounds when they are not ordered.
    pub fn normalize(&mut self)
        ensures
            *final(self) == old(self).normalized(),
            is_ordered_spec(final(self).a, final(self).b),
    {
        if !is_ordered(&self.a, &self.b) {
            core::mem::swap(&mut self.a, &mut self.b);
        }
    }

    /// Whether the two intervals share a part.
    pub fn overlaps(&self, other: &Self) -> (r: bool)
        ensures
            r == self.overlaps_spec(*other),
    {
        Overlaps::overlaps(self, other)
    }
}

impl<T> From<Range<T>> for IntervalDynamicRelaxed<T> {
    fn from(value: Range<T>) -> (r: Self) {
        Self::new(Bound::Included(value.start), Bound::Excluded(value.end))
    }
}

impl<T> FromSpecImpl<Range<T>> for IntervalDynamicRelaxed<T> {
    open spec fn obeys_from_spec() -> bool {
        true
    }

    open spec fn from_spec(v: Range<T>) -> Self {
        Self { a: Bound::Included(v.start), b: Bound::Excluded(v.end) }
    }
}

impl<T> From<(Bound<T>, Bound<T>)> for IntervalDynamicRelaxed<T> {
    fn from(value: (Bound<T>, Bound<T>)) -> (r: Self) {
        Self::new(value.0, value.1)
    }
}

impl<T> FromSpecImpl<(Bound<T>, Bound<T>)> for IntervalDynamicRelaxed<T> {
    open spec fn obeys_from_spec() -> bool {
        true
    }

    open spec fn from_spec(v: (Bound<T>, Bound<T>)) -> Self {
        Self { a: v.0, b: v.1 }
    }
}

impl<T: Endpoint> From<IntervalDynamicStrict<T>> for IntervalDynamicRelaxed<T> {
    fn from(value: IntervalDynamicStrict<T>) -> (r: Self) {
        let (a, b): (Bound<T>, Bound<T>) = value.into();
        Self::new(a, b)
    }
}

impl<T: Endpoint> FromSpecImpl<IntervalDynamicStrict<T>> for IntervalDynamicRelaxed<T> {
    open spec fn obeys_from_spec() -> bool {
        true
    }

    open spec fn from_spec(v: IntervalDynamicStrict<T>) -> Self {
        Self { a: v@.0, b: v@.1 }
    }
}

/// The error of converting a relaxed interval into a range: its bounds are
/// not an included start and an excluded end.
#[derive(Clone, Copy, Debug)]
pub enum TryFromIntervalDynamicRelaxedForRangeError<T> {
    ConversionFailed { a: Bound<T>, b: Bound<T> },
}

/// The range from an included first bound to an excluded second bound, or
/// the error that holds the bounds.
pub open spec fn range_of<T>(value: IntervalDynamicRelaxed<T>) -> Result<
    Range<T>,
    TryFromIntervalDynamicRelaxedForRangeError<T>,
> {
    match (value.a, value.b) {
        (Bound::Included(start), Bound::Excluded(end)) => Ok(Range { start, end }),
        (a, b) => Err(TryFromIntervalDynamicRelaxedForRangeError::ConversionFailed { a, b }),
    }
}

impl<T> TryFrom<IntervalDynamicRelaxed<T>> for Range<T> {
    type Error = TryFromIntervalDynamicRelaxedForRangeError<T>;

    fn try_from(value: IntervalDynamicRelaxed<T>) -> (r: Result<Self, Self::Error>) {
        let IntervalDynamicRelaxed { a, b } = value;
        match (a, b) {
            (Bound::Included(start), Bound::Excluded(end)) => Ok(Range { start, end }),
            (a, b) => Err(TryFromIntervalDynamicRelaxedForRangeError::ConversionFailed { a, b }),
        }
    }
}

impl<T> TryFromSpecImpl<IntervalDynamicRelaxed<T>> for Range<T> {
    open spec fn obeys_try_from_spec() -> bool {
        true
    }

    open spec fn try_from_spec(v: IntervalDynamicRelaxed<T>) -> Result<Self, Self::Error> {
        range_of(v)
    }
}

impl<T: Endpoint> Overlaps<Self> for IntervalDynamicRelaxed<T> {
    fn overlaps(&self, other: &Self) -> (r: bool)
        ensures
            r == self.overlaps_spec(*other),
    {
        low_before_high(&self.a, &self.b) && low_before_high(&other.a, &other.b)
            && low_before_high(&self.a, &other.b) && low_before_high(&other.a, &self.b)
    }
}

impl<T> core::ops::RangeBounds<T> for IntervalDynamicRelaxed<T> {
    fn start_bound(&self) -> core::ops::Bound<&T> {
        bound_into_std(self.a.as_ref())
    }

    fn end_bound(&self) -> core::ops::Bound<&T> {
        bound_into_std(self.b.as_ref())
    }
}

impl<T: Endpoint> Length for IntervalDynamicRelaxed<T> {
    type Output = Option<T>;

    fn length(&self) -> (r: Option<T>)
        ensures
            is_checked_length(r, self.size()),
    {
        match (finite_bound_value(&self.a), finite_bound_value(&self.b)) {
            (Some(a), Some(b)) => {
                if b.value_lt(a) {
                    a.checked_difference(b)
                } else {
                    b.checked_difference(a)
                }
            },
            _ => None,
        }
    }
}

/// Normalizing twice is normalizing once.
pub proof fn lemma_normalized_idempotent<T: Endpoint>(x: IntervalDynamicRelaxed<T>)
    ensures
        x.normalized().normalized() == x.normalized(),
{
}

/// Normalizing keeps the length.
pub proof fn lemma_normalized_size<T: Endpoint>(x: IntervalDynamicRelaxed<T>)
    ensures
        x.normalized().size() == x.size(),
{
}

/// The length does not depend on the order of the bounds.
pub proof fn lemma_size_symmetric<T: Endpoint>(a: Bound<T>, b: Bound<T>)
    ensures
        (IntervalDynamicRelaxed { a, b }).size() == (IntervalDynamicRelaxed { a: b, b: a }).size(),
{
}

/// Overlapping is symmetric.
pub proof fn lemma_overlaps_symmetric<T: Endpoint>(x: IntervalDynamicRelaxed<T>, y: IntervalDynamicRelaxed<T>)
    ensures
        x.overlaps_spec(y) == y.overlaps_spec(x),
{
}

/// Overlapping intervals have ordered bounds, so normalizing leaves them
/// unchanged.
pub proof fn lemma_overlaps_normalized<T: Endpoint>(x: IntervalDynamicRelaxed<T>, y: IntervalDynamicRelaxed<T>)
    requires
        x.overlaps_spec(y),
    ensures
        x.normalized() == x,
        y.normalized() == y,
{
}

/// Two relaxed intervals overlap exactly when some point lies in both, taking
/// each interval's first bound as its lower bound and its second bound as
/// its upper bound (points are counted in half steps, see `above`).
pub proof fn lemma_overlaps_iff_common_point<T: Endpoint>(x: IntervalDynamicRelaxed<T>, y: IntervalDynamicRelaxed<T>)
    ensures
        x.overlaps_spec(y) <==> exists|p: int|
            #[trigger] above(x.a, p) && below(x.b, p) && above(y.a, p) && below(y.b, p),
{
    lemma_common_point(x.a, x.b, y.a, y.b);
}

/// The length of a relaxed interval with two finite bounds is the distance
/// between their values, whether each bound is included or excluded; with an
/// unbounded side there is no length.
pub proof fn lemma_size_values<T: Endpoint>(x: IntervalDynamicRelaxed<T>)
    ensures
        forall|a: T, b: T|
            (x.a == Bound::Included(a) || x.a == Bound::Excluded(a)) && (x.b == Bound::Included(b)
                || x.b == Bound::Excluded(b)) ==> x.size() == Some(
                if a.as_int() <= b.as_int() {
                    b.as_int() - a.as_int()
                } else {
                    a.as_int() - b.as_int()
                },
            ),
        x.a is Unbounded ==> x.size() is None,
        x.b is Unbounded ==> x.size() is None,
{
}

/// A relaxed interval converts into a range exactly when its first bound is
/// included and its second bound excluded; the range then runs between
/// their values, and otherwise the error holds both bounds.
pub proof fn lemma_range_of_cases<T>(x: IntervalDynamicRelaxed<T>)
    ensures
        range_of(x) is Ok <==> (x.a is Included && x.b is Excluded),
        forall|start: T, end: T|
            x == (IntervalDynamicRelaxed { a: Bound::Included(start), b: Bound::Excluded(end) }) ==> range_of(x)
                == Ok::<Range<T>, TryFromIntervalDynamicRelaxedForRangeError<T>>(Range { start, end }),
        !(x.a is Included && x.b is Excluded) ==> range_of(x) == Err::<
            Range<T>,
            TryFromIntervalDynamicRelaxedForRangeError<T>,
        >(TryFromIntervalDynamicRelaxedForRangeError::ConversionFailed { a: x.a, b: x.b }),
{
}

/// A relaxed interval that converts into a range is the interval of that
/// range: the conversion loses nothing.
pub proof fn lemma_range_back<T>(x: IntervalDynamicRelaxed<T>)
    ensures
        range_of(x) matches Ok(r) ==> <IntervalDynamicRelaxed<T> as FromSpec<Range<T>>>::from_spec(r) == x,
{
}

/// A range turned into a relaxed interval turns back into the same range.
pub proof fn lemma_range_round_trip<T>(range: Range<T>)
    ensures
        range_of(<IntervalDynamicRelaxed<T> as FromSpec<Range<T>>>::from_spec(range)) == Ok::<
            Range<T>,
            TryFromIntervalDynamicRelaxedForRangeError<T>,
        >(range),
{
}

} // verus!
