use crate::bound::Bound;
use crate::endpoint::Endpoint;
use crate::functions::is_ordered::is_ordered_spec;
use vstd::prelude::*;

verus! {

/// Whether a lower bound precedes an upper bound: an unbounded side precedes
/// anything; two included values may be equal; otherwise the lower value
/// must be strictly less than the upper value.
pub open spec fn low_before_high_spec<T: Endpoint>(low: Bound<T>, high: Bound<T>) -> bool {
    match (low, high) {
        (Bound::Unbounded, _) => true,
        (_, Bound::Unbounded) => true,
        (Bound::Included(l), Bound::Included(h)) => l.as_int() <= h.as_int(),
        (Bound::Included(l), Bound::Excluded(h)) => l.as_int() < h.as_int(),
        (Bound::Excluded(l), Bound::Included(h)) => l.as_int() < h.as_int(),
        (Bound::Excluded(l), Bound::Excluded(h)) => l.as_int() < h.as_int(),
    }
}

/// Returns whether a lower bound precedes a higher bound, treating equal
/// values as valid only when both bounds are included.
pub fn low_before_high<T: Endpoint>(low: &Bound<T>, high: &Bound<T>) -> (r: bool)
    ensures
        r == low_before_high_spec(*low, *high),
{
    match (low, high) {
        (Bound::Unbounded, _) | (_, Bound::Unbounded) => true,
        (Bound::Included(low), Bound::Included(high)) => low.value_le(high),
        (Bound::Included(low), Bound::Excluded(high))
        | (Bound::Excluded(low), Bound::Included(high))
        | (Bound::Excluded(low), Bound::Excluded(high)) => low.value_lt(high),
    }
}

/// A lower bound that precedes an upper bound is ordered with it.
pub proof fn lemma_low_before_high_is_ordered<T: Endpoint>(low: Bound<T>, high: Bound<T>)
    requires
        low_before_high_spec(low, high),
    ensures
        is_ordered_spec(low, high),
{
}

/// Whether the point `p` lies on the upper side of the lower bound `low`.
///
/// Points are counted in half steps: the value `v` sits at the point `2 * v`
/// and an odd point lies strictly between two neighbouring values. The
/// values are thereby treated as a dense order, as the comparison of bounds
/// treats them: two excluded bounds at different values leave room between
/// them.
pub open spec fn above<T: Endpoint>(low: Bound<T>, p: int) -> bool {
    match low {
        Bound::Included(v) => 2 * v.as_int() <= p,
        Bound::Excluded(v) => 2 * v.as_int() < p,
        Bound::Unbounded => true,
    }
}

/// Whether the point `p` (counted in half steps, see `above`) lies on the
/// lower side of the upper bound `high`.
pub open spec fn below<T: Endpoint>(high: Bound<T>, p: int) -> bool {
    match high {
        Bound::Included(v) => p <= 2 * v.as_int(),
        Bound::Excluded(v) => p < 2 * v.as_int(),
        Bound::Unbounded => true,
    }
}

/// The least point above a finite lower bound.
spec fn least_point<T: Endpoint>(low: Bound<T>) -> Option<int> {
    match low {
        Bound::Included(v) => Some(2 * v.as_int()),
        Bound::Excluded(v) => Some(2 * v.as_int() + 1),
        Bound::Unbounded => None,
    }
}

/// The greatest point below a finite upper bound.
spec fn greatest_point<T: Endpoint>(high: Bound<T>) -> Option<int> {
    match high {
        Bound::Included(v) => Some(2 * v.as_int()),
        Bound::Excluded(v) => Some(2 * v.as_int() - 1),
        Bound::Unbounded => None,
    }
}

/// A point above both lower bounds and below both upper bounds, when there
/// is one: the greatest of the least points above the lower bounds, or the
/// least of the greatest points below the upper bounds when both lower sides
/// are unbounded.
spec fn meeting_point<T: Endpoint>(l1: Bound<T>, h1: Bound<T>, l2: Bound<T>, h2: Bound<T>) -> int {
    match (least_point(l1), least_point(l2)) {
        (Some(a), Some(b)) => if a < b { b } else { a },
        (Some(a), None) => a,
        (None, Some(b)) => b,
        (None, None) => match (greatest_point(h1), greatest_point(h2)) {
            (Some(a), Some(b)) => if a < b { a } else { b },
            (Some(a), None) => a,
            (None, Some(b)) => b,
            (None, None) => 0,
        },
    }
}

/// A lower bound precedes an upper bound exactly when some point lies
/// between them.
pub proof fn lemma_low_before_high_iff_point<T: Endpoint>(low: Bound<T>, high: Bound<T>)
    ensures
        low_before_high_spec(low, high) <==> exists|p: int| #[trigger] above(low, p) && below(high, p),
{
    if low_before_high_spec(low, high) {
        let p = meeting_point(low, high, low, high);
        assert(above(low, p) && below(high, p));
    }
}

/// Two pairs of bounds have a point in common exactly when each lower bound
/// precedes each upper bound.
pub proof fn lemma_common_point<T: Endpoint>(l1: Bound<T>, h1: Bound<T>, l2: Bound<T>, h2: Bound<T>)
    ensures
        (low_before_high_spec(l1, h1) && low_before_high_spec(l2, h2) && low_before_high_spec(l1, h2)
            && low_before_high_spec(l2, h1)) <==> exists|p: int|
            #[trigger] above(l1, p) && below(h1, p) && above(l2, p) && below(h2, p),
{
    if low_before_high_spec(l1, h1) && low_before_high_spec(l2, h2) && low_before_high_spec(l1, h2)
        && low_before_high_spec(l2, h1) {
        let p = meeting_point(l1, h1, l2, h2);
        assert(above(l1, p) && below(h1, p) && above(l2, p) && below(h2, p));
    }
    if exists|p: int| #[trigger] above(l1, p) && below(h1, p) && above(l2, p) && below(h2, p) {
        let p = choose|p: int| #[trigger] above(l1, p) && below(h1, p) && above(l2, p) && below(h2, p);
        lemma_low_before_high_iff_point(l1, h1);
        lemma_low_before_high_iff_point(l2, h2);
        lemma_low_before_high_iff_point(l1, h2);
        lemma_low_before_high_iff_point(l2, h1);
        assert(above(l1, p) && below(h2, p));
        assert(above(l2, p) && below(h1, p));
    }
}

} // verus!
