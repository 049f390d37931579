//! The values that bound an interval.
//!
//! An [`Endpoint`] is a totally ordered value with a checked subtraction, so
//! that the ordering and the length of an interval can be computed and
//! specified. Each value stands for a mathematical integer (`as_int`); the
//! order of the values is the order of those integers, and the checked
//! subtraction is the difference of those integers when the type can hold it.
//! All primitive integer types are endpoints; their subtraction is the one of
//! `num_traits::CheckedSub`.

use vstd::prelude::*;

verus! {

/// A totally ordered value with a checked subtraction.
pub trait Endpoint: Sized + Copy {
    /// The integer that this value stands for.
    spec fn as_int(&self) -> int;

    /// The least integer that a value of this type stands for.
    spec fn lowest() -> int;

    /// The greatest integer that a value of this type stands for.
    spec fn highest() -> int;

    /// Every value stands for an integer between `lowest` and `highest`.
    proof fn lemma_range(x: Self)
        ensures
            Self::lowest() <= x.as_int() <= Self::highest(),
    ;

    /// Two values that stand for the same integer are the same value.
    proof fn lemma_injective(x: Self, y: Self)
        ensures
            x.as_int() == y.as_int() ==> x == y,
    ;

    /// Whether `self` is less than or equal to `other`.
    fn value_le(&self, other: &Self) -> (r: bool)
        ensures
            r == (self.as_int() <= other.as_int()),
    ;

    /// Whether `self` is strictly less than `other`.
    fn value_lt(&self, other: &Self) -> (r: bool)
        ensures
            r == (self.as_int() < other.as_int()),
    ;

    /// `self - other`, or `None` when the type cannot hold the difference.
    fn checked_difference(&self, other: &Self) -> (r: Option<Self>)
        ensures
            Self::lowest() <= self.as_int() - other.as_int() <= Self::highest() ==> r is Some,
            !(Self::lowest() <= self.as_int() - other.as_int() <= Self::highest()) ==> r is None,
            r matches Some(d) ==> d.as_int() == self.as_int() - other.as_int(),
    ;
}

/// Whether the integer `i` stands for a value of type `T`.
pub open spec fn fits<T: Endpoint>(i: int) -> bool {
    T::lowest() <= i <= T::highest()
}

/// `num_traits::CheckedSub::checked_sub` on `i8`, which returns `i8::checked_sub`:
/// the difference when `i8` holds it, and `None` otherwise.
#[verifier::external_body]
fn i8_checked_sub(a: &i8, b: &i8) -> (r: Option<i8>)
    ensures
        i8::MIN <= *a - *b <= i8::MAX ==> r == Some((*a - *b) as i8),
        !(i8::MIN <= *a - *b <= i8::MAX) ==> r is None,
{
    num_traits::CheckedSub::checked_sub(a, b)
}

impl Endpoint for i8 {
    open spec fn as_int(&self) -> int {
        *self as int
    }

    open spec fn lowest() -> int {
        i8::MIN as int
    }

    open spec fn highest() -> int {
        i8::MAX as int
    }

    proof fn lemma_range(x: Self) {
    }

    proof fn lemma_injective(x: Self, y: Self) {
    }

    fn value_le(&self, other: &Self) -> (r: bool) {
        *self <= *other
    }

    fn value_lt(&self, other: &Self) -> (r: bool) {
        *self < *other
    }

    fn checked_difference(&self, other: &Self) -> (r: Option<Self>) {
        i8_checked_sub(self, other)
    }
}

/// `num_traits::CheckedSub::checked_sub` on `i16`, which returns `i16::checked_sub`:
/// the difference when `i16` holds it, and `None` otherwise.
#[verifier::external_body]
fn i16_checked_sub(a: &i16, b: &i16) -> (r: Option<i16>)
    ensures
        i16::MIN <= *a - *b <= i16::MAX ==> r == Some((*a - *b) as i16),
        !(i16::MIN <= *a - *b <= i16::MAX) ==> r is None,
{
    num_traits::CheckedSub::checked_sub(a, b)
}

impl Endpoint for i16 {
    open spec fn as_int(&self) -> int {
        *self as int
    }

    open spec fn lowest() -> int {
        i16::MIN as int
    }

    open spec fn highest() -> int {
        i16::MAX as int
    }

    proof fn lemma_range(x: Self) {
    }

    proof fn lemma_injective(x: Self, y: Self) {
    }

    fn value_le(&self, other: &Self) -> (r: bool) {
        *self <= *other
    }

    fn value_lt(&self, other: &Self) -> (r: bool) {
        *self < *other
    }

    fn checked_difference(&self, other: &Self) -> (r: Option<Self>) {
        i16_checked_sub(self, other)
    }
}

/// `num_traits::CheckedSub::checked_sub` on `i32`, which returns `i32::checked_sub`:
/// the difference when `i32` holds it, and `None` otherwise.
#[verifier::external_body]
fn i32_checked_sub(a: &i32, b: &i32) -> (r: Option<i32>)
    ensures
        i32::MIN <= *a - *b <= i32::MAX ==> r == Some((*a - *b) as i32),
        !(i32::MIN <= *a - *b <= i32::MAX) ==> r is None,
{
    num_traits::CheckedSub::checked_sub(a, b)
}

impl Endpoint for i32 {
    open spec fn as_int(&self) -> int {
        *self as int
    }

    open spec fn lowest() -> int {
        i32::MIN as int
    }

    open spec fn highest() -> int {
        i32::MAX as int
    }

    proof fn lemma_range(x: Self) {
    }

    proof fn lemma_injective(x: Self, y: Self) {
    }

    fn value_le(&self, other: &Self) -> (r: bool) {
        *self <= *other
    }

    fn value_lt(&self, other: &Self) -> (r: bool) {
        *self < *other
    }

    fn checked_difference(&self, other: &Self) -> (r: Option<Self>) {
        i32_checked_sub(self, other)
    }
}

/// `num_traits::CheckedSub::checked_sub` on `i64`, which returns `i64::checked_sub`:
/// the difference when `i64` holds it, and `None` otherwise.
#[verifier::external_body]
fn i64_checked_sub(a: &i64, b: &i64) -> (r: Option<i64>)
    ensures
        i64::MIN <= *a - *b <= i64::MAX ==> r == Some((*a - *b) as i64),
        !(i64::MIN <= *a - *b <= i64::MAX) ==> r is None,
{
    num_traits::CheckedSub::checked_sub(a, b)
}

impl Endpoint for i64 {
    open spec fn as_int(&self) -> int {
        *self as int
    }

    open spec fn lowest() -> int {
        i64::MIN as int
    }

    open spec fn highest() -> int {
        i64::MAX as int
    }

    proof fn lemma_range(x: Self) {
    }

    proof fn lemma_injective(x: Self, y: Self) {
    }

    fn value_le(&self, other: &Self) -> (r: bool) {
        *self <= *other
    }

    fn value_lt(&self, other: &Self) -> (r: bool) {
        *self < *other
    }

    fn checked_difference(&self, other: &Self) -> (r: Option<Self>) {
        i64_checked_sub(self, other)
    }
}

/// `num_traits::CheckedSub::checked_sub` on `i128`, which returns `i128::checked_sub`:
/// the difference when `i128` holds it, and `None` otherwise.
#[verifier::external_body]
fn i128_checked_sub(a: &i128, b: &i128) -> (r: Option<i128>)
    ensures
        i128::MIN <= *a - *b <= i128::MAX ==> r == Some((*a - *b) as i128),
        !(i128::MIN <= *a - *b <= i128::MAX) ==> r is None,
{
    num_traits::CheckedSub::checked_sub(a, b)
}

impl Endpoint for i128 {
    open spec fn as_int(&self) -> int {
        *self as int
    }

    open spec fn lowest() -> int {
        i128::MIN as int
    }

    open spec fn highest() -> int {
        i128::MAX as int
    }

    proof fn lemma_range(x: Self) {
    }

    proof fn lemma_injective(x: Self, y: Self) {
    }

    fn value_le(&self, other: &Self) -> (r: bool) {
        *self <= *other
    }

    fn value_lt(&self, other: &Self) -> (r: bool) {
        *self < *other
    }

    fn checked_difference(&self, other: &Self) -> (r: Option<Self>) {
        i128_checked_sub(self, other)
    }
}

/// `num_traits::CheckedSub::checked_sub` on `isize`, which returns `isize::checked_sub`:
/// the difference when `isize` holds it, and `None` otherwise.
#[verifier::external_body]
fn isize_checked_sub(a: &isize, b: &isize) -> (r: Option<isize>)
    ensures
        isize::MIN <= *a - *b <= isize::MAX ==> r == Some((*a - *b) as isize),
        !(isize::MIN <= *a - *b <= isize::MAX) ==> r is None,
{
    num_traits::CheckedSub::checked_sub(a, b)
}

impl Endpoint for isize {
    open spec fn as_int(&self) -> int {
        *self as int
    }

    open spec fn lowest() -> int {
        isize::MIN as int
    }

    open spec fn highest() -> int {
        isize::MAX as int
    }

    proof fn lemma_range(x: Self) {
    }

    proof fn lemma_injective(x: Self, y: Self) {
    }

    fn value_le(&self, other: &Self) -> (r: bool) {
        *self <= *other
    }

    fn value_lt(&self, other: &Self) -> (r: bool) {
        *self < *other
    }

    fn checked_difference(&self, other: &Self) -> (r: Option<Self>) {
        isize_checked_sub(self, other)
    }
}

/// `num_traits::CheckedSub::checked_sub` on `u8`, which returns `u8::checked_sub`:
/// the difference when `u8` holds it, and `None` otherwise.
#[verifier::external_body]
fn u8_checked_sub(a: &u8, b: &u8) -> (r: Option<u8>)
    ensures
        u8::MIN <= *a - *b <= u8::MAX ==> r == Some((*a - *b) as u8),
        !(u8::MIN <= *a - *b <= u8::MAX) ==> r is None,
{
    num_traits::CheckedSub::checked_sub(a, b)
}

impl Endpoint for u8 {
    open spec fn as_int(&self) -> int {
        *self as int
    }

    open spec fn lowest() -> int {
        u8::MIN as int
    }

    open spec fn highest() -> int {
        u8::MAX as int
    }

    proof fn lemma_range(x: Self) {
    }

    proof fn lemma_injective(x: Self, y: Self) {
    }

    fn value_le(&self, other: &Self) -> (r: bool) {
        *self <= *other
    }

    fn value_lt(&self, other: &Self) -> (r: bool) {
        *self < *other
    }

    fn checked_difference(&self, other: &Self) -> (r: Option<Self>) {
        u8_checked_sub(self, other)
    }
}

/// `num_traits::CheckedSub::checked_sub` on `u16`, which returns `u16::checked_sub`:
/// the difference when `u16` holds it, and `None` otherwise.
#[verifier::external_body]
fn u16_checked_sub(a: &u16, b: &u16) -> (r: Option<u16>)
    ensures
        u16::MIN <= *a - *b <= u16::MAX ==> r == Some((*a - *b) as u16),
        !(u16::MIN <= *a - *b <= u16::MAX) ==> r is None,
{
    num_traits::CheckedSub::checked_sub(a, b)
}

impl Endpoint for u16 {
    open spec fn as_int(&self) -> int {
        *self as int
    }

    open spec fn lowest() -> int {
        u16::MIN as int
    }

    open spec fn highest() -> int {
        u16::MAX as int
    }

    proof fn lemma_range(x: Self) {
    }

    proof fn lemma_injective(x: Self, y: Self) {
    }

    fn value_le(&self, other: &Self) -> (r: bool) {
        *self <= *other
    }

    fn value_lt(&self, other: &Self) -> (r: bool) {
        *self < *other
    }

    fn checked_difference(&self, other: &Self) -> (r: Option<Self>) {
        u16_checked_sub(self, other)
    }
}

/// `num_traits::CheckedSub::checked_sub` on `u32`, which returns `u32::checked_sub`:
/// the difference when `u32` holds it, and `None` otherwise.
#[verifier::external_body]
fn u32_checked_sub(a: &u32, b: &u32) -> (r: Option<u32>)
    ensures
        u32::MIN <= *a - *b <= u32::MAX ==> r == Some((*a - *b) as u32),
        !(u32::MIN <= *a - *b <= u32::MAX) ==> r is None,
{
    num_traits::CheckedSub::checked_sub(a, b)
}

impl Endpoint for u32 {
    open spec fn as_int(&self) -> int {
        *self as int
    }

    open spec fn lowest() -> int {
        u32::MIN as int
    }

    open spec fn highest() -> int {
        u32::MAX as int
    }

    proof fn lemma_range(x: Self) {
    }

    proof fn lemma_injective(x: Self, y: Self) {
    }

    fn value_le(&self, other: &Self) -> (r: bool) {
        *self <= *other
    }

    fn value_lt(&self, other: &Self) -> (r: bool) {
        *self < *other
    }

    fn checked_difference(&self, other: &Self) -> (r: Option<Self>) {
        u32_checked_sub(self, other)
    }
}

/// `num_traits::CheckedSub::checked_sub` on `u64`, which returns `u64::checked_sub`:
/// the difference when `u64` holds it, and `None` otherwise.
#[verifier::external_body]
fn u64_checked_sub(a: &u64, b: &u64) -> (r: Option<u64>)
    ensures
        u64::MIN <= *a - *b <= u64::MAX ==> r == Some((*a - *b) as u64),
        !(u64::MIN <= *a - *b <= u64::MAX) ==> r is None,
{
    num_traits::CheckedSub::checked_sub(a, b)
}

impl Endpoint for u64 {
    open spec fn as_int(&self) -> int {
        *self as int
    }

    open spec fn lowest() -> int {
        u64::MIN as int
    }

    open spec fn highest() -> int {
        u64::MAX as int
    }

    proof fn lemma_range(x: Self) {
    }

    proof fn lemma_injective(x: Self, y: Self) {
    }

    fn value_le(&self, other: &Self) -> (r: bool) {
        *self <= *other
    }

    fn value_lt(&self, other: &Self) -> (r: bool) {
        *self < *other
    }

    fn checked_difference(&self, other: &Self) -> (r: Option<Self>) {
        u64_checked_sub(self, other)
    }
}

/// `num_traits::CheckedSub::checked_sub` on `u128`, which returns `u128::checked_sub`:
/// the difference when `u128` holds it, and `None` otherwise.
#[verifier::external_body]
fn u128_checked_sub(a: &u128, b: &u128) -> (r: Option<u128>)
    ensures
        u128::MIN <= *a - *b <= u128::MAX ==> r == Some((*a - *b) as u128),
        !(u128::MIN <= *a - *b <= u128::MAX) ==> r is None,
{
    num_traits::CheckedSub::checked_sub(a, b)
}

impl Endpoint for u128 {
    open spec fn as_int(&self) -> int {
        *self as int
    }

    open spec fn lowest() -> int {
        u128::MIN as int
    }

    open spec fn highest() -> int {
        u128::MAX as int
    }

    proof fn lemma_range(x: Self) {
    }

    proof fn lemma_injective(x: Self, y: Self) {
    }

    fn value_le(&self, other: &Self) -> (r: bool) {
        *self <= *other
    }

    fn value_lt(&self, other: &Self) -> (r: bool) {
        *self < *other
    }

    fn checked_difference(&self, other: &Self) -> (r: Option<Self>) {
        u128_checked_sub(self, other)
    }
}

/// `num_traits::CheckedSub::checked_sub` on `usize`, which returns `usize::checked_sub`:
/// the difference when `usize` holds it, and `None` otherwise.
#[verifier::external_body]
fn usize_checked_sub(a: &usize, b: &usize) -> (r: Option<usize>)
    ensures
        usize::MIN <= *a - *b <= usize::MAX ==> r == Some((*a - *b) as usize),
        !(usize::MIN <= *a - *b <= usize::MAX) ==> r is None,
{
    num_traits::CheckedSub::checked_sub(a, b)
}

impl Endpoint for usize {
    open spec fn as_int(&self) -> int {
        *self as int
    }

    open spec fn lowest() -> int {
        usize::MIN as int
    }

    open spec fn highest() -> int {
        usize::MAX as int
    }

    proof fn lemma_range(x: Self) {
    }

    proof fn lemma_injective(x: Self, y: Self) {
    }

    fn value_le(&self, other: &Self) -> (r: bool) {
        *self <= *other
    }

    fn value_lt(&self, other: &Self) -> (r: bool) {
        *self < *other
    }

    fn checked_difference(&self, other: &Self) -> (r: Option<Self>) {
        usize_checked_sub(self, other)
    }
}

} // verus!
