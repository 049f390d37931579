use crate::bound::{bound_into_std, Bound};
use crate::endpoint::{fits, Endpoint};
use crate::types::interval_dynamic_strict::IntervalDynamicStrict;
use crate::functions::low_before_high::{
    above, below, lemma_common_point, lemma_low_before_high_iff_point, low_before_high_spec,
};
use crate::traits::length::{is_checked_length, Length};
use crate::traits::overlaps::Overlaps;
use vstd::prelude::*;
use vstd::std_specs::convert::{FromSpecImpl, TryFromSpecImpl};

verus! {

/// The value of the const parameters for an excluded endpoint.
pub const EXCLUDED: bool = false;

/// The value of the const parameters for an included endpoint.
pub const INCLUDED: bool = true;

/// A strict finite interval.
///
/// The lower endpoint is guaranteed to be less than or equal to the upper
/// endpoint. `LO_INC` and `HI_INC` say whether each endpoint belongs to the
/// interval.
///
/// This type intentionally doesn't implement `Ord` or `PartialOrd`, because a
/// single interval has multiple values that can be compared (for example:
/// field values, length value). Users should compare the values directly.
#[derive(Debug, PartialEq, Eq, Hash)]
pub struct IntervalStrictFinite<T: Endpoint, const LO_INC: bool, const HI_INC: bool> {
    lo: T,
    hi: T,
}

pub type IntervalStrictFiniteExcExc<T> = IntervalStrictFinite<T, EXCLUDED, EXCLUDED>;

pub type IntervalStrictFiniteExcInc<T> = IntervalStrictFinite<T, EXCLUDED, INCLUDED>;

pub type IntervalStrictFiniteIncExc<T> = IntervalStrictFinite<T, INCLUDED, EXCLUDED>;

pub type IntervalStrictFiniteIncInc<T> = IntervalStrictFinite<T, INCLUDED, INCLUDED>;

impl<T: Endpoint, const LO_INC: bool, const HI_INC: bool> View for IntervalStrictFinite<T, LO_INC, HI_INC> {
    /// The lower and the upper endpoint.
    type V = (T, T);

    closed spec fn view(&self) -> (T, T) {
        (self.lo, self.hi)
    }
}

impl<T: Endpoint, const LO_INC: bool, const HI_INC: bool> Clone for IntervalStrictFinite<T, LO_INC, HI_INC> {
    fn clone(&self) -> (r: Self)
        ensures
            r == *self,
    {
        *self
    }
}

impl<T: Endpoint, const LO_INC: bool, const HI_INC: bool> Copy for IntervalStrictFinite<T, LO_INC, HI_INC> {
}

impl<T: Endpoint, const LO_INC: bool, const HI_INC: bool> IntervalStrictFinite<T, LO_INC, HI_INC> {
    /// The endpoints are ordered.
    #[verifier::type_invariant]
    closed spec fn inv(self) -> bool {
        self.lo.as_int() <= self.hi.as_int()
    }

    /// The interval with the given ordered endpoints.
    pub closed spec fn from_endpoints(lo: T, hi: T) -> Self {
        Self { lo, hi }
    }

    /// The view of an interval built from its endpoints is those endpoints.
    pub broadcast proof fn lemma_from_endpoints_view(lo: T, hi: T)
        ensures
            (#[trigger] Self::from_endpoints(lo, hi))@ == (lo, hi),
    {
    }

    /// The lower endpoint as a bound.
    pub open spec fn start_bound_spec(self) -> Bound<T> {
        if LO_INC {
            Bound::Included(self@.0)
        } else {
            Bound::Excluded(self@.0)
        }
    }

    /// The upper endpoint as a bound.
    pub open spec fn end_bound_spec(self) -> Bound<T> {
        if HI_INC {
            Bound::Included(self@.1)
        } else {
            Bound::Excluded(self@.1)
        }
    }

    /// The distance from the lower to the upper endpoint.
    pub open spec fn size(self) -> int {
        self@.1.as_int() - self@.0.as_int()
    }

    /// Whether the point `p`, counted in half steps (the value `v` sits at
    /// `2 * v`, see `above`), lies in the interval.
    pub open spec fn holds_point(self, p: int) -> bool {
        &&& if LO_INC {
            2 * self@.0.as_int() <= p
        } else {
            2 * self@.0.as_int() < p
        }
        &&& if HI_INC {
            p <= 2 * self@.1.as_int()
        } else {
            p < 2 * self@.1.as_int()
        }
    }

    /// Whether the two intervals share a part: each starts before the other
    /// ends.
    pub open spec fn overlaps_spec<const OTHER_LO_INC: bool, const OTHER_HI_INC: bool>(
        self,
        other: IntervalStrictFinite<T, OTHER_LO_INC, OTHER_HI_INC>,
    ) -> bool {
        &&& low_before_high_spec(self.start_bound_spec(), other.end_bound_spec())
        &&& low_before_high_spec(other.start_bound_spec(), self.end_bound_spec())
    }

    /// The strict interval with endpoints `lo` and `hi` when they are
    /// ordered, or else the error that holds them.
    pub open spec fn checked(lo: T, hi: T) -> Result<Self, TryFromTupleForIntervalStrictFiniteError<T>> {
        if lo.as_int() <= hi.as_int() {
            Ok(Self::from_endpoints(lo, hi))
        } else {
            Err(TryFromTupleForIntervalStrictFiniteError::OrderCheckFailed { lo, hi })
        }
    }

    /// An interval is the one built from its endpoints.
    pub proof fn lemma_from_endpoints_of_view(s: Self)
        ensures
            Self::from_endpoints(s@.0, s@.1) == s,
    {
    }

    /// The endpoints `lo` and `hi` in order.
    pub open spec fn ordered_endpoints(lo: T, hi: T) -> (T, T) {
        if hi.as_int() < lo.as_int() {
            (hi, lo)
        } else {
            (lo, hi)
        }
    }

    /// The lower endpoint.
    pub fn lo(&self) -> (r: &T)
        ensures
            *r == self@.0,
            self@.0.as_int() <= self@.1.as_int(),
    {
        proof {
            use_type_invariant(self);
        }
        &self.lo
    }

    /// The upper endpoint.
    pub fn hi(&self) -> (r: &T)
        ensures
            *r == self@.1,
            self@.0.as_int() <= self@.1.as_int(),
    {
        proof {
            use_type_invariant(self);
        }
        &self.hi
    }

    /// The interval with endpoints `lo` and `hi`, swapped when `lo` is
    /// greater than `hi`.
    pub fn new_ordered(lo: T, hi: T) -> (r: Self)
        ensures
            r@ == Self::ordered_endpoints(lo, hi),
            r@.0.as_int() <= r@.1.as_int(),
    {
        if hi.value_lt(&lo) {
            Self { lo: hi, hi: lo }
        } else {
            Self { lo, hi }
        }
    }

    /// Maps both endpoints with `f` and checks that the results are ordered.
    pub fn map<U: Endpoint>(self, mut f: impl FnMut(T) -> U) -> (r: Result<
        IntervalStrictFinite<U, LO_INC, HI_INC>,
        IntervalStrictFiniteMapError<U>,
    >)
        requires
            call_requires(f, (self@.0,)),
            call_requires(f, (self@.1,)),
        ensures
            exists|lo: U, hi: U|
                #![trigger call_ensures(f, (self@.0,), lo), call_ensures(f, (self@.1,), hi)]
                {
                    &&& call_ensures(f, (self@.0,), lo)
                    &&& call_ensures(f, (self@.1,), hi)
                    &&& r is Ok <==> lo.as_int() <= hi.as_int()
                    &&& r matches Ok(m) ==> m@ == (lo, hi)
                    &&& r matches Err(e) ==> e == IntervalStrictFiniteMapError::TryFromFailed {
                        source: TryFromTupleForIntervalStrictFiniteError::OrderCheckFailed { lo, hi },
                    }
                },
    {
        let lo = f(self.lo);
        let hi = f(self.hi);
        proof {
            IntervalStrictFinite::<U, LO_INC, HI_INC>::lemma_from_endpoints_view(lo, hi);
        }
        match IntervalStrictFinite::try_from((lo, hi)) {
            Ok(m) => Ok(m),
            Err(e) => Err(IntervalStrictFiniteMapError::TryFromFailed { source: e }),
        }
    }

    /// Maps both endpoints with `f` without checking the order of the
    /// results; `f` must keep the endpoints ordered.
    pub fn map_unchecked<U: Endpoint>(self, mut f: impl FnMut(T) -> U) -> (r: IntervalStrictFinite<U, LO_INC, HI_INC>)
        requires
            call_requires(f, (self@.0,)),
            call_requires(f, (self@.1,)),
            forall|lo: U, hi: U|
                #![trigger call_ensures(f, (self@.0,), lo), call_ensures(f, (self@.1,), hi)]
                call_ensures(f, (self@.0,), lo) && call_ensures(f, (self@.1,), hi) ==> lo.as_int() <= hi.as_int(),
        ensures
            exists|lo: U, hi: U|
                #![trigger call_ensures(f, (self@.0,), lo), call_ensures(f, (self@.1,), hi)]
                {
                    &&& call_ensures(f, (self@.0,), lo)
                    &&& call_ensures(f, (self@.1,), hi)
                    &&& r@ == (lo, hi)
                },
    {
        let lo = f(self.lo);
        let hi = f(self.hi);
        IntervalStrictFinite { lo, hi }
    }
}

impl<T: Endpoint, const LO_INC: bool, const HI_INC: bool> TryFrom<(T, T)> for IntervalStrictFinite<T, LO_INC, HI_INC> {
    type Error = TryFromTupleForIntervalStrictFiniteError<T>;

    fn try_from(value: (T, T)) -> (r: Result<Self, Self::Error>) {
        let (lo, hi) = value;
        if hi.value_lt(&lo) {
            Err(TryFromTupleForIntervalStrictFiniteError::OrderCheckFailed { lo, hi })
        } else {
            Ok(Self { lo, hi })
        }
    }
}

impl<T: Endpoint, const LO_INC: bool, const HI_INC: bool> TryFromSpecImpl<(T, T)> for IntervalStrictFinite<T, LO_INC, HI_INC> {
    open spec fn obeys_try_from_spec() -> bool {
        true
    }

    open spec fn try_from_spec(v: (T, T)) -> Result<Self, Self::Error> {
        Self::checked(v.0, v.1)
    }
}

impl<T: Endpoint, const LO_INC: bool, const HI_INC: bool> From<IntervalStrictFinite<T, LO_INC, HI_INC>> for (T, T) {
    fn from(value: IntervalStrictFinite<T, LO_INC, HI_INC>) -> (r: Self) {
        (value.lo, value.hi)
    }
}

impl<T: Endpoint, const LO_INC: bool, const HI_INC: bool> FromSpecImpl<IntervalStrictFinite<T, LO_INC, HI_INC>> for (T, T) {
    open spec fn obeys_from_spec() -> bool {
        true
    }

    open spec fn from_spec(v: IntervalStrictFinite<T, LO_INC, HI_INC>) -> Self {
        v@
    }
}

impl<T: Endpoint, const LO_INC: bool, const HI_INC: bool> Length for IntervalStrictFinite<T, LO_INC, HI_INC> {
    type Output = Option<T>;

    fn length(&self) -> (r: Option<T>)
        ensures
            is_checked_length(r, Some(self.size())),
    {
        self.hi.checked_difference(&self.lo)
    }
}

impl<T: Endpoint, const LO_INC: bool, const HI_INC: bool> core::ops::RangeBounds<T> for IntervalStrictFinite<T, LO_INC, HI_INC> {
    fn start_bound(&self) -> core::ops::Bound<&T> {
        if LO_INC {
            bound_into_std(Bound::Included(&self.lo))
        } else {
            bound_into_std(Bound::Excluded(&self.lo))
        }
    }

    fn end_bound(&self) -> core::ops::Bound<&T> {
        if HI_INC {
            bound_into_std(Bound::Included(&self.hi))
        } else {
            bound_into_std(Bound::Excluded(&self.hi))
        }
    }
}

impl<
    T: Endpoint,
    const LO_INC: bool,
    const HI_INC: bool,
    const OTHER_LO_INC: bool,
    const OTHER_HI_INC: bool,
> Overlaps<IntervalStrictFinite<T, OTHER_LO_INC, OTHER_HI_INC>> for IntervalStrictFinite<T, LO_INC, HI_INC> {
    fn overlaps(&self, other: &IntervalStrictFinite<T, OTHER_LO_INC, OTHER_HI_INC>) -> (r: bool)
        ensures
            r == self.overlaps_spec(*other),
    {
        let left = if LO_INC && OTHER_HI_INC {
            self.lo.value_le(&other.hi)
        } else {
            self.lo.value_lt(&other.hi)
        };
        let right = if OTHER_LO_INC && HI_INC {
            other.lo.value_le(&self.hi)
        } else {
            other.lo.value_lt(&self.hi)
        };
        left && right
    }
}

/// Putting two endpoints in order does not depend on the order they come in.
pub proof fn lemma_ordered_endpoints_symmetric<T: Endpoint, const LO_INC: bool, const HI_INC: bool>(a: T, b: T)
    ensures
        IntervalStrictFinite::<T, LO_INC, HI_INC>::ordered_endpoints(a, b)
            == IntervalStrictFinite::<T, LO_INC, HI_INC>::ordered_endpoints(b, a),
{
    T::lemma_injective(a, b);
}

/// Checking a pair of endpoints succeeds exactly when they are ordered, and
/// the interval it gives has those endpoints.
pub proof fn lemma_checked<T: Endpoint, const LO_INC: bool, const HI_INC: bool>(lo: T, hi: T)
    ensures
        IntervalStrictFinite::<T, LO_INC, HI_INC>::checked(lo, hi) is Ok <==> lo.as_int() <= hi.as_int(),
        IntervalStrictFinite::<T, LO_INC, HI_INC>::checked(lo, hi) matches Ok(s) ==> s@ == (lo, hi),
{
    IntervalStrictFinite::<T, LO_INC, HI_INC>::lemma_from_endpoints_view(lo, hi);
}

/// A strict finite interval turned into its pair of endpoints turns back
/// into the same interval.
pub proof fn lemma_tuple_round_trip<T: Endpoint, const LO_INC: bool, const HI_INC: bool>(
    s: IntervalStrictFinite<T, LO_INC, HI_INC>,
)
    requires
        s@.0.as_int() <= s@.1.as_int(),
    ensures
        IntervalStrictFinite::<T, LO_INC, HI_INC>::checked(s@.0, s@.1) == Ok::<
            IntervalStrictFinite<T, LO_INC, HI_INC>,
            TryFromTupleForIntervalStrictFiniteError<T>,
        >(s),
{
    IntervalStrictFinite::<T, LO_INC, HI_INC>::lemma_from_endpoints_of_view(s);
}

/// Overlapping is symmetric, whichever endpoints each interval includes.
pub proof fn lemma_overlaps_symmetric<
    T: Endpoint,
    const LO_INC: bool,
    const HI_INC: bool,
    const OTHER_LO_INC: bool,
    const OTHER_HI_INC: bool,
>(x: IntervalStrictFinite<T, LO_INC, HI_INC>, y: IntervalStrictFinite<T, OTHER_LO_INC, OTHER_HI_INC>)
    ensures
        x.overlaps_spec(y) == y.overlaps_spec(x),
{
}

/// Two strict finite intervals overlap exactly when the lower endpoint of
/// each is below the upper endpoint of the other, where the two may be equal
/// only when both are included.
pub proof fn lemma_overlaps_inclusion<
    T: Endpoint,
    const LO_INC: bool,
    const HI_INC: bool,
    const OTHER_LO_INC: bool,
    const OTHER_HI_INC: bool,
>(x: IntervalStrictFinite<T, LO_INC, HI_INC>, y: IntervalStrictFinite<T, OTHER_LO_INC, OTHER_HI_INC>)
    ensures
        x.overlaps_spec(y) == ((if LO_INC && OTHER_HI_INC {
            x@.0.as_int() <= y@.1.as_int()
        } else {
            x@.0.as_int() < y@.1.as_int()
        }) && (if OTHER_LO_INC && HI_INC {
            y@.0.as_int() <= x@.1.as_int()
        } else {
            y@.0.as_int() < x@.1.as_int()
        })),
{
}

/// Two strict finite intervals that each hold some point overlap exactly
/// when some point lies in both.
pub proof fn lemma_overlaps_iff_common_point<
    T: Endpoint,
    const LO_INC: bool,
    const HI_INC: bool,
    const OTHER_LO_INC: bool,
    const OTHER_HI_INC: bool,
>(x: IntervalStrictFinite<T, LO_INC, HI_INC>, y: IntervalStrictFinite<T, OTHER_LO_INC, OTHER_HI_INC>)
    requires
        exists|p: int| #[trigger] x.holds_point(p),
        exists|p: int| #[trigger] y.holds_point(p),
    ensures
        x.overlaps_spec(y) <==> exists|p: int| #[trigger] x.holds_point(p) && y.holds_point(p),
{
    let (xs, xe, ys, ye) = (x.start_bound_spec(), x.end_bound_spec(), y.start_bound_spec(), y.end_bound_spec());
    assert forall|p: int| #[trigger] x.holds_point(p) == (above(xs, p) && below(xe, p)) by {}
    assert forall|p: int| #[trigger] y.holds_point(p) == (above(ys, p) && below(ye, p)) by {}
    let px = choose|p: int| #[trigger] x.holds_point(p);
    let py = choose|p: int| #[trigger] y.holds_point(p);
    assert(above(xs, px) && below(xe, px));
    assert(above(ys, py) && below(ye, py));
    lemma_low_before_high_iff_point(xs, xe);
    lemma_low_before_high_iff_point(ys, ye);
    lemma_common_point(xs, xe, ys, ye);
    if exists|p: int| #[trigger] above(xs, p) && below(xe, p) && above(ys, p) && below(ye, p) {
        let p = choose|p: int| #[trigger] above(xs, p) && below(xe, p) && above(ys, p) && below(ye, p);
        assert(x.holds_point(p) && y.holds_point(p));
    }
    if exists|p: int| #[trigger] x.holds_point(p) && y.holds_point(p) {
        let p = choose|p: int| #[trigger] x.holds_point(p) && y.holds_point(p);
        assert(above(xs, p) && below(xe, p) && above(ys, p) && below(ye, p));
    }
}

/// The length of a strict finite interval over a type without negative
/// values always fits in the type.
pub proof fn lemma_unsigned_length_fits<T: Endpoint, const LO_INC: bool, const HI_INC: bool>(
    x: IntervalStrictFinite<T, LO_INC, HI_INC>,
)
    requires
        T::lowest() == 0,
        x@.0.as_int() <= x@.1.as_int(),
    ensures
        fits::<T>(x.size()),
{
    T::lemma_range(x@.0);
    T::lemma_range(x@.1);
}

/// For intervals that are not empty, the overlap test of strict finite
/// intervals agrees with the one of strict intervals with the same bounds.
pub proof fn lemma_overlaps_agrees_with_dynamic<
    T: Endpoint,
    const LO_INC: bool,
    const HI_INC: bool,
    const OTHER_LO_INC: bool,
    const OTHER_HI_INC: bool,
>(x: IntervalStrictFinite<T, LO_INC, HI_INC>, y: IntervalStrictFinite<T, OTHER_LO_INC, OTHER_HI_INC>)
    requires
        low_before_high_spec(x.start_bound_spec(), x.end_bound_spec()),
        low_before_high_spec(y.start_bound_spec(), y.end_bound_spec()),
    ensures
        x.overlaps_spec(y) == IntervalDynamicStrict::<T>::from_bounds(x.start_bound_spec(), x.end_bound_spec()).overlaps_spec(
            IntervalDynamicStrict::<T>::from_bounds(y.start_bound_spec(), y.end_bound_spec()),
        ),
{
    IntervalDynamicStrict::<T>::lemma_from_bounds_view(x.start_bound_spec(), x.end_bound_spec());
    IntervalDynamicStrict::<T>::lemma_from_bounds_view(y.start_bound_spec(), y.end_bound_spec());
}

/// The error of building a strict finite interval from endpoints that are
/// not ordered; it holds the endpoints.
#[derive(Clone, Copy, Debug)]
pub enum TryFromTupleForIntervalStrictFiniteError<T> {
    OrderCheckFailed { lo: T, hi: T },
}

/// The error of mapping the endpoints of a strict finite interval to
/// endpoints that are not ordered.
#[derive(Clone, Copy, Debug)]
pub enum IntervalStrictFiniteMapError<T> {
    TryFromFailed { source: TryFromTupleForIntervalStrictFiniteError<T> },
}

} // verus!
