use crate::bound::{bound_into_std, Bound};
use crate::endpoint::Endpoint;
use crate::functions::finite_bound_value::finite_bound_value;
use crate::functions::is_ordered::{is_ordered, is_ordered_spec};
use crate::functions::low_before_high::{above, below, lemma_common_point, low_before_high, low_before_high_spec};
use crate::traits::length::{is_checked_length, Length};
use crate::traits::overlaps::Overlaps;
use crate::types::interval_dynamic_relaxed::IntervalDynamicRelaxed;
use vstd::prelude::*;
use vstd::std_specs::convert::{FromSpec, FromSpecImpl, TryFromSpecImpl};

verus! {

/// A strict interval with runtime bounds.
///
/// When both bounds are finite, the lower endpoint is guaranteed to be less
/// than or equal to the upper endpoint. An unbounded lower endpoint
/// represents negative infinity, while an unbounded upper endpoint
/// represents positive infinity.
///
/// This type intentionally doesn't implement `Ord` or `PartialOrd`, because a
/// single interval has multiple values that can be compared (for example:
/// field values, length value). Users should compare the values directly.
#[derive(Debug, PartialEq, Eq, Hash)]
pub struct IntervalDynamicStrict<T: Endpoint> {
    lo: Bound<T>,
    hi: Bound<T>,
}

impl<T: Endpoint> View for IntervalDynamicStrict<T> {
    /// The lower and the upper bound.
    type V = (Bound<T>, Bound<T>);

    closed spec fn view(&self) -> (Bound<T>, Bound<T>) {
        (self.lo, self.hi)
    }
}

impl<T: Endpoint> IntervalDynamicStrict<T> {
    /// The bounds are ordered.
    #[verifier::type_invariant]
    closed spec fn inv(self) -> bool {
        is_ordered_spec(self.lo, self.hi)
    }

    /// The interval with the given ordered bounds.
    pub closed spec fn from_bounds(lo: Bound<T>, hi: Bound<T>) -> Self {
        Self { lo, hi }
    }

    /// The view of an interval built from its bounds is those bounds.
    pub broadcast proof fn lemma_from_bounds_view(lo: Bound<T>, hi: Bound<T>)
        ensures
            (#[trigger] Self::from_bounds(lo, hi))@ == (lo, hi),
    {
    }

    /// An interval is the one built from its bounds.
    pub proof fn lemma_from_bounds_of_view(s: Self)
        ensures
            Self::from_bounds(s@.0, s@.1) == s,
    {
    }

    /// The lower bound.
    pub fn lo(&self) -> (r: &Bound<T>)
        ensures
            *r == self@.0,
            is_ordered_spec(self@.0, self@.1),
    {
        proof {
            use_type_invariant(self);
        }
        &self.lo
    }

    /// The upper bound.
    pub fn hi(&self) -> (r: &Bound<T>)
        ensures
            *r == self@.1,
            is_ordered_spec(self@.0, self@.1),
    {
        proof {
            use_type_invariant(self);
        }
        &self.hi
    }

    /// The distance from the lower to the upper bound when both are finite.
    pub open spec fn size(self) -> Option<int> {
        match (self@.0.finite(), self@.1.finite()) {
            (Some(lo), Some(hi)) => Some(hi.as_int() - lo.as_int()),
            _ => None,
        }
    }

    /// Whether the two intervals share a part: both are non-empty and each
    /// starts before the other ends.
    pub open spec fn overlaps_spec(self, other: Self) -> bool {
        &&& low_before_high_spec(self@.0, self@.1)
        &&& low_before_high_spec(other@.0, other@.1)
        &&& low_before_high_spec(self@.0, other@.1)
        &&& low_before_high_spec(other@.0, self@.1)
    }

    /// The interval with bounds `lo` and `hi`, swapped when they are not
    /// ordered.
    pub fn new_ordered(lo: Bound<T>, hi: Bound<T>) -> (r: Self)
        ensures
            r@ == if is_ordered_spec(lo, hi) { (lo, hi) } else { (hi, lo) },
            is_ordered_spec(r@.0, r@.1),
            forall|l: T, h: T|
                (r@.0 == Bound::Included(l) || r@.0 == Bound::Excluded(l)) && (r@.1 == Bound::Included(h)
                    || r@.1 == Bound::Excluded(h)) ==> l.as_int() <= h.as_int(),
    {
        let order_check = is_ordered(&lo, &hi);
        if order_check {
            Self { lo, hi }
        } else {
            Self { lo: hi, hi: lo }
        }
    }
}

impl<T: Endpoint> Clone for IntervalDynamicStrict<T> {
    fn clone(&self) -> (r: Self)
        ensures
            r == *self,
    {
        *self
    }
}

impl<T: Endpoint> Copy for IntervalDynamicStrict<T> {
}

/// The error of building a strict interval from a pair of bounds that are
/// not ordered; it holds the bounds.
#[derive(Clone, Copy, Debug)]
pub enum TryFromTupleForIntervalDynamicStrictError<T> {
    OrderCheckFailed { lo: Bound<T>, hi: Bound<T> },
}

/// The error of building a strict interval from a relaxed interval whose
/// bounds are not ordered; it holds the bounds.
#[derive(Clone, Copy, Debug)]
pub enum TryFromIntervalDynamicRelaxedForIntervalDynamicStrictError<T> {
    OrderCheckFailed { a: Bound<T>, b: Bound<T> },
}

/// The error of mapping the bounds of a strict interval to bounds that are
/// not ordered.
#[derive(Clone, Copy, Debug)]
pub enum IntervalDynamicStrictMapError<T> {
    TryFromFailed { source: TryFromTupleForIntervalDynamicStrictError<T> },
}

impl<T: Endpoint> TryFrom<(Bound<T>, Bound<T>)> for IntervalDynamicStrict<T> {
    type Error = TryFromTupleForIntervalDynamicStrictError<T>;

    fn try_from(value: (Bound<T>, Bound<T>)) -> (r: Result<Self, Self::Error>) {
        let (lo, hi) = value;
        let order_check = is_ordered(&lo, &hi);
        if order_check {
            Ok(Self { lo, hi })
        } else {
            Err(TryFromTupleForIntervalDynamicStrictError::OrderCheckFailed { lo, hi })
        }
    }
}

impl<T: Endpoint> TryFromSpecImpl<(Bound<T>, Bound<T>)> for IntervalDynamicStrict<T> {
    open spec fn obeys_try_from_spec() -> bool {
        true
    }

    open spec fn try_from_spec(v: (Bound<T>, Bound<T>)) -> Result<Self, Self::Error> {
        Self::checked(v.0, v.1)
    }
}

impl<T: Endpoint> IntervalDynamicStrict<T> {
    /// The strict interval with bounds `lo` and `hi` when they are ordered,
    /// or else the error that holds them.
    pub open spec fn checked(lo: Bound<T>, hi: Bound<T>) -> Result<Self, TryFromTupleForIntervalDynamicStrictError<T>> {
        if is_ordered_spec(lo, hi) {
            Ok(Self::from_bounds(lo, hi))
        } else {
            Err(TryFromTupleForIntervalDynamicStrictError::OrderCheckFailed { lo, hi })
        }
    }

    /// Maps both bounds with `f` and checks that the results are ordered.
    pub fn map<U: Endpoint>(self, mut f: impl FnMut(Bound<T>) -> Bound<U>) -> (r: Result<
        IntervalDynamicStrict<U>,
        IntervalDynamicStrictMapError<U>,
    >)
        requires
            call_requires(f, (self@.0,)),
            call_requires(f, (self@.1,)),
        ensures
            exists|lo: Bound<U>, hi: Bound<U>|
                #![trigger call_ensures(f, (self@.0,), lo), call_ensures(f, (self@.1,), hi)]
                {
                    &&& call_ensures(f, (self@.0,), lo)
                    &&& call_ensures(f, (self@.1,), hi)
                    &&& r is Ok <==> is_ordered_spec(lo, hi)
                    &&& r matches Ok(m) ==> m@ == (lo, hi)
                    &&& r matches Err(e) ==> e == IntervalDynamicStrictMapError::TryFromFailed {
                        source: TryFromTupleForIntervalDynamicStrictError::OrderCheckFailed { lo, hi },
                    }
                },
    {
        let lo = f(self.lo);
        let hi = f(self.hi);
        proof {
            IntervalDynamicStrict::<U>::lemma_from_bounds_view(lo, hi);
        }
        match IntervalDynamicStrict::try_from((lo, hi)) {
            Ok(m) => Ok(m),
            Err(e) => Err(IntervalDynamicStrictMapError::TryFromFailed { source: e }),
        }
    }
}

impl<T: Endpoint> IntervalDynamicStrict<T> {
    /// Maps both bounds with `f` without checking the order of the results;
    /// `f` must keep the bounds ordered.
    pub fn map_unchecked<U: Endpoint>(self, mut f: impl FnMut(Bound<T>) -> Bound<U>) -> (r: IntervalDynamicStrict<U>)
        requires
            call_requires(f, (self@.0,)),
            call_requires(f, (self@.1,)),
            forall|lo: Bound<U>, hi: Bound<U>|
                #![trigger call_ensures(f, (self@.0,), lo), call_ensures(f, (self@.1,), hi)]
                call_ensures(f, (self@.0,), lo) && call_ensures(f, (self@.1,), hi) ==> is_ordered_spec(lo, hi),
        ensures
            exists|lo: Bound<U>, hi: Bound<U>|
                #![trigger call_ensures(f, (self@.0,), lo), call_ensures(f, (self@.1,), hi)]
                {
                    &&& call_ensures(f, (self@.0,), lo)
                    &&& call_ensures(f, (self@.1,), hi)
                    &&& r@ == (lo, hi)
                },
    {
        let lo = f(self.lo);
        let hi = f(self.hi);
        IntervalDynamicStrict { lo, hi }
    }
}

/// The relaxed interval's bounds as a strict interval's lower and upper bound
/// when they are ordered, or else the error that holds them.
pub open spec fn strict_of_relaxed<T: Endpoint>(value: IntervalDynamicRelaxed<T>) -> Result<
    IntervalDynamicStrict<T>,
    TryFromIntervalDynamicRelaxedForIntervalDynamicStrictError<T>,
> {
    if is_ordered_spec(value.a, value.b) {
        Ok(IntervalDynamicStrict::from_bounds(value.a, value.b))
    } else {
        Err(TryFromIntervalDynamicRelaxedForIntervalDynamicStrictError::OrderCheckFailed { a: value.a, b: value.b })
    }
}

impl<T: Endpoint> TryFrom<IntervalDynamicRelaxed<T>> for IntervalDynamicStrict<T> {
    type Error = TryFromIntervalDynamicRelaxedForIntervalDynamicStrictError<T>;

    fn try_from(value: IntervalDynamicRelaxed<T>) -> (r: Result<Self, Self::Error>) {
        let IntervalDynamicRelaxed { a: lo, b: hi } = value;
        let order_check = is_ordered(&lo, &hi);
        if order_check {
            Ok(Self { lo, hi })
        } else {
            Err(TryFromIntervalDynamicRelaxedForIntervalDynamicStrictError::OrderCheckFailed { a: lo, b: hi })
        }
    }
}

impl<T: Endpoint> TryFromSpecImpl<IntervalDynamicRelaxed<T>> for IntervalDynamicStrict<T> {
    open spec fn obeys_try_from_spec() -> bool {
        true
    }

    open spec fn try_from_spec(v: IntervalDynamicRelaxed<T>) -> Result<Self, Self::Error> {
        strict_of_relaxed(v)
    }
}

impl<T: Endpoint> From<IntervalDynamicStrict<T>> for (Bound<T>, Bound<T>) {
    fn from(value: IntervalDynamicStrict<T>) -> (r: Self) {
        (value.lo, value.hi)
    }
}

impl<T: Endpoint> FromSpecImpl<IntervalDynamicStrict<T>> for (Bound<T>, Bound<T>) {
    open spec fn obeys_from_spec() -> bool {
        true
    }

    open spec fn from_spec(v: IntervalDynamicStrict<T>) -> Self {
        v@
    }
}

impl<T: Endpoint> Length for IntervalDynamicStrict<T> {
    type Output = Option<T>;

    fn length(&self) -> (r: Option<T>)
        ensures
            is_checked_length(r, self.size()),
    {
        match (finite_bound_value(&self.lo), finite_bound_value(&self.hi)) {
            (Some(lo), Some(hi)) => hi.checked_difference(lo),
            _ => None,
        }
    }
}

impl<T: Endpoint> core::ops::RangeBounds<T> for IntervalDynamicStrict<T> {
    fn start_bound(&self) -> core::ops::Bound<&T> {
        bound_into_std(self.lo.as_ref())
    }

    fn end_bound(&self) -> core::ops::Bound<&T> {
        bound_into_std(self.hi.as_ref())
    }
}

impl<T: Endpoint> Overlaps<Self> for IntervalDynamicStrict<T> {
    fn overlaps(&self, other: &Self) -> (r: bool)
        ensures
            r == self.overlaps_spec(*other),
    {
        low_before_high(&self.lo, &self.hi) && low_before_high(&other.lo, &other.hi)
            && low_before_high(&self.lo, &other.hi) && low_before_high(&other.lo, &self.hi)
    }
}

/// Checking a pair of bounds succeeds exactly when they are ordered, and
/// the interval it gives has those bounds.
pub proof fn lemma_checked<T: Endpoint>(lo: Bound<T>, hi: Bound<T>)
    ensures
        IntervalDynamicStrict::<T>::checked(lo, hi) is Ok <==> is_ordered_spec(lo, hi),
        IntervalDynamicStrict::<T>::checked(lo, hi) matches Ok(s) ==> s@ == (lo, hi),
{
    IntervalDynamicStrict::<T>::lemma_from_bounds_view(lo, hi);
}

/// Checking a pair of bounds succeeds exactly when the lower value is at most
/// the upper value, whichever bounds are included, or when a side is
/// unbounded.
pub proof fn lemma_checked_values<T: Endpoint>(lo: Bound<T>, hi: Bound<T>)
    ensures
        lo is Unbounded ==> IntervalDynamicStrict::<T>::checked(lo, hi) is Ok,
        hi is Unbounded ==> IntervalDynamicStrict::<T>::checked(lo, hi) is Ok,
        forall|l: T, h: T|
            (lo == Bound::Included(l) || lo == Bound::Excluded(l)) && (hi == Bound::Included(h) || hi
                == Bound::Excluded(h)) ==> (IntervalDynamicStrict::<T>::checked(lo, hi) is Ok <==> l.as_int()
                <= h.as_int()),
{
}

/// Two strict intervals overlap exactly when some point lies in both
/// (points are counted in half steps, see `above`); an unbounded side
/// reaches every point on its side.
pub proof fn lemma_overlaps_iff_common_point<T: Endpoint>(x: IntervalDynamicStrict<T>, y: IntervalDynamicStrict<T>)
    ensures
        x.overlaps_spec(y) <==> exists|p: int|
            #[trigger] above(x@.0, p) && below(x@.1, p) && above(y@.0, p) && below(y@.1, p),
{
    lemma_common_point(x@.0, x@.1, y@.0, y@.1);
}

/// The length of a strict interval with two finite bounds is the upper value
/// minus the lower value, whether each bound is included or excluded, and it
/// is not negative; with an unbounded side there is no length.
pub proof fn lemma_size_values<T: Endpoint>(x: IntervalDynamicStrict<T>)
    requires
        is_ordered_spec(x@.0, x@.1),
    ensures
        forall|l: T, h: T|
            (x@.0 == Bound::Included(l) || x@.0 == Bound::Excluded(l)) && (x@.1 == Bound::Included(h)
                || x@.1 == Bound::Excluded(h)) ==> x.size() == Some(h.as_int() - l.as_int()) && 0 <= h.as_int()
                - l.as_int(),
        x@.0 is Unbounded ==> x.size() is None,
        x@.1 is Unbounded ==> x.size() is None,
{
}

/// A strict interval turned into its pair of bounds turns back into the same
/// interval.
pub proof fn lemma_tuple_round_trip<T: Endpoint>(s: IntervalDynamicStrict<T>)
    requires
        is_ordered_spec(s@.0, s@.1),
    ensures
        IntervalDynamicStrict::<T>::checked(s@.0, s@.1) == Ok::<
            IntervalDynamicStrict<T>,
            TryFromTupleForIntervalDynamicStrictError<T>,
        >(s),
{
    IntervalDynamicStrict::<T>::lemma_from_bounds_of_view(s);
}

/// A strict interval turned into a relaxed interval turns back into the same
/// strict interval.
pub proof fn lemma_relaxed_round_trip<T: Endpoint>(s: IntervalDynamicStrict<T>)
    requires
        is_ordered_spec(s@.0, s@.1),
    ensures
        strict_of_relaxed(<IntervalDynamicRelaxed<T> as FromSpec<IntervalDynamicStrict<T>>>::from_spec(s))
            == Ok::<IntervalDynamicStrict<T>, TryFromIntervalDynamicRelaxedForIntervalDynamicStrictError<T>>(s),
{
    IntervalDynamicStrict::<T>::lemma_from_bounds_of_view(s);
}

/// A relaxed interval and the strict interval made from it have the same
/// length.
pub proof fn lemma_relaxed_size<T: Endpoint>(x: IntervalDynamicRelaxed<T>)
    ensures
        strict_of_relaxed(x) matches Ok(s) ==> s.size() == x.size(),
{
    IntervalDynamicStrict::<T>::lemma_from_bounds_view(x.a, x.b);
}

/// Overlapping is symmetric.
pub proof fn lemma_overlaps_symmetric<T: Endpoint>(x: IntervalDynamicStrict<T>, y: IntervalDynamicStrict<T>)
    ensures
        x.overlaps_spec(y) == y.overlaps_spec(x),
{
}

} // verus!
