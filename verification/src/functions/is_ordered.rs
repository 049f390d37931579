use crate::bound::Bound;
use crate::endpoint::Endpoint;
use vstd::prelude::*;

verus! {

/// Whether a lower and an upper bound are ordered: when both are finite, the
/// lower value is at most the upper value, whether the bounds are included
/// or excluded. An unbounded side is ordered with anything.
pub open spec fn is_ordered_spec<T: Endpoint>(low: Bound<T>, high: Bound<T>) -> bool {
    match (low.finite(), high.finite()) {
        (Some(l), Some(h)) => l.as_int() <= h.as_int(),
        _ => true,
    }
}

/// Returns whether a lower and upper bound are ordered.
pub fn is_ordered<T: Endpoint>(low: &Bound<T>, high: &Bound<T>) -> (r: bool)
    ensures
        r == is_ordered_spec(*low, *high),
{
    match (low, high) {
        (Bound::Included(low) | Bound::Excluded(low), Bound::Included(high) | Bound::Excluded(high)) => low.value_le(high),
        (Bound::Unbounded, _) | (_, Bound::Unbounded) => true,
    }
}

/// Of two finite bounds, one of the two orders holds.
pub proof fn lemma_is_ordered_total<T: Endpoint>(x: Bound<T>, y: Bound<T>)
    ensures
        is_ordered_spec(x, y) || is_ordered_spec(y, x),
{
}

/// Two finite bounds are ordered exactly when the lower value is at most the
/// upper value; an unbounded side is ordered with anything.
pub proof fn lemma_is_ordered_values<T: Endpoint>(low: Bound<T>, high: Bound<T>)
    ensures
        low is Unbounded ==> is_ordered_spec(low, high),
        high is Unbounded ==> is_ordered_spec(low, high),
        forall|l: T, h: T|
            (low == Bound::Included(l) || low == Bound::Excluded(l)) && (high == Bound::Included(h)
                || high == Bound::Excluded(h)) ==> (is_ordered_spec(low, high) <==> l.as_int() <= h.as_int()),
{
}

/// Whether finite bounds are ordered does not depend on which of them are
/// included.
pub proof fn lemma_is_ordered_ignores_inclusion<T: Endpoint>(l: T, h: T)
    ensures
        is_ordered_spec(Bound::Included(l), Bound::Included(h)) == (l.as_int() <= h.as_int()),
        is_ordered_spec(Bound::Included(l), Bound::Excluded(h)) == (l.as_int() <= h.as_int()),
        is_ordered_spec(Bound::Excluded(l), Bound::Included(h)) == (l.as_int() <= h.as_int()),
        is_ordered_spec(Bound::Excluded(l), Bound::Excluded(h)) == (l.as_int() <= h.as_int()),
{
}

} // verus!
