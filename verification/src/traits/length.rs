use crate::endpoint::{fits, Endpoint};
use vstd::prelude::*;

verus! {

/// A measurable extent.
pub trait Length {
    /// The type of the measure.
    type Output;

    /// The measure of `self`.
    fn length(&self) -> Self::Output;
}

/// Whether `r` is the checked measure of an extent whose true size is
/// `size`: `None` when there is no finite size or when `T` cannot hold it,
/// and otherwise the value that stands for the size.
pub open spec fn is_checked_length<T: Endpoint>(r: Option<T>, size: Option<int>) -> bool {
    match size {
        Some(d) => {
            &&& fits::<T>(d) <==> r is Some
            &&& r matches Some(x) ==> x.as_int() == d
        },
        None => r is None,
    }
}

/// A checked measure of a size that the type can hold is the value that
/// stands for the size; of any other size, or of no size, it is `None`.
pub proof fn lemma_is_checked_length<T: Endpoint>(r: Option<T>, size: Option<int>)
    requires
        is_checked_length(r, size),
    ensures
        size is None ==> r is None,
        forall|d: int| size == Some(d) && fits::<T>(d) ==> r is Some && r->0.as_int() == d,
        forall|d: int| size == Some(d) && !fits::<T>(d) ==> r is None,
{
}

} // verus!
