use crate::bound::Bound;
use vstd::prelude::*;

verus! {

/// Returns the value of a finite bound, or `None` for `Unbounded`.
pub fn finite_bound_value<T>(bound: &Bound<T>) -> (r: Option<&T>)
    ensures
        r == match *bound {
            Bound::Included(v) => Some(&v),
            Bound::Excluded(v) => Some(&v),
            Bound::Unbounded => None,
        },
{
    match bound {
        Bound::Included(value) => Some(value),
        Bound::Excluded(value) => Some(value),
        Bound::Unbounded => None,
    }
}

} // verus!
