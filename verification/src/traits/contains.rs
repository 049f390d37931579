use vstd::prelude::*;

verus! {

/// A set of values that can say whether it holds a value.
pub trait Contains<T> {
    /// Whether `value` belongs to `self`.
    fn contains(&self, value: &T) -> bool;
}

} // verus!
