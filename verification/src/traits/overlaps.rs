use vstd::prelude::*;

verus! {

/// Values that can share a part with values of type `T`.
pub trait Overlaps<T> {
    /// Whether `self` and `other` share a part.
    fn overlaps(&self, other: &T) -> bool;
}

} // verus!
