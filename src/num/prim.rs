use vstd::prelude::*;
use crate::term::wrap;

verus! {

/// Relies on num_traits::CheckedAdd for u8: the sum, or `None` on overflow.
#[verifier::external_body]
pub(crate) fn u8_checked_add(a: &u8, b: &u8) -> (r: Option<u8>)
    ensures
        r == (if *a + *b <= u8::MAX { Some((*a + *b) as u8) } else { None::<u8> }),
{
    num_traits::CheckedAdd::checked_add(a, b)
}

/// Relies on num_traits::CheckedSub for u8: the difference, or `None` below zero.
#[verifier::external_body]
pub(crate) fn u8_checked_sub(a: &u8, b: &u8) -> (r: Option<u8>)
    ensures
        r == (if *a - *b >= 0 { Some((*a - *b) as u8) } else { None::<u8> }),
{
    num_traits::CheckedSub::checked_sub(a, b)
}

/// Relies on num_traits::CheckedNeg for u8: `Some(0)` for zero, else `None`.
#[verifier::external_body]
pub(crate) fn u8_checked_neg(a: &u8) -> (r: Option<u8>)
    ensures
        r == (if *a == 0 { Some(0u8) } else { None::<u8> }),
{
    num_traits::CheckedNeg::checked_neg(a)
}

/// Relies on num_traits::Zero::is_zero for u8.
#[verifier::external_body]
pub(crate) fn u8_is_zero(a: &u8) -> (r: bool)
    ensures
        r == (*a == 0),
{
    num_traits::Zero::is_zero(a)
}

/// Relies on num_traits::CheckedAdd for usize: the sum, or `None` on overflow.
#[verifier::external_body]
pub(crate) fn usize_checked_add(a: &usize, b: &usize) -> (r: Option<usize>)
    ensures
        r == (if *a + *b <= usize::MAX { Some((*a + *b) as usize) } else { None::<usize> }),
{
    num_traits::CheckedAdd::checked_add(a, b)
}

/// Relies on num_traits::CheckedSub for usize: the difference, or `None` below zero.
#[verifier::external_body]
pub(crate) fn usize_checked_sub(a: &usize, b: &usize) -> (r: Option<usize>)
    ensures
        r == (if *a - *b >= 0 { Some((*a - *b) as usize) } else { None::<usize> }),
{
    num_traits::CheckedSub::checked_sub(a, b)
}

/// Relies on num_traits::CheckedNeg for usize: `Some(0)` for zero, else `None`.
#[verifier::external_body]
pub(crate) fn usize_checked_neg(a: &usize) -> (r: Option<usize>)
    ensures
        r == (if *a == 0 { Some(0usize) } else { None::<usize> }),
{
    num_traits::CheckedNeg::checked_neg(a)
}

/// Relies on num_traits::Zero::is_zero for usize.
#[verifier::external_body]
pub(crate) fn usize_is_zero(a: &usize) -> (r: bool)
    ensures
        r == (*a == 0),
{
    num_traits::Zero::is_zero(a)
}

/// Relies on num_traits::CheckedAdd for i64: the sum, or `None` out of range.
#[verifier::external_body]
pub(crate) fn i64_checked_add(a: &i64, b: &i64) -> (r: Option<i64>)
    ensures
        r == (if i64::MIN <= *a + *b <= i64::MAX { Some((*a + *b) as i64) } else { None::<i64> }),
{
    num_traits::CheckedAdd::checked_add(a, b)
}

/// Relies on num_traits::CheckedSub for i64: the difference, or `None` out of range.
#[verifier::external_body]
pub(crate) fn i64_checked_sub(a: &i64, b: &i64) -> (r: Option<i64>)
    ensures
        r == (if i64::MIN <= *a - *b <= i64::MAX { Some((*a - *b) as i64) } else { None::<i64> }),
{
    num_traits::CheckedSub::checked_sub(a, b)
}

/// Relies on num_traits::CheckedNeg for i64: the negation, or `None` for the minimum.
#[verifier::external_body]
pub(crate) fn i64_checked_neg(a: &i64) -> (r: Option<i64>)
    ensures
        r == (if *a != i64::MIN { Some((-*a) as i64) } else { None::<i64> }),
{
    num_traits::CheckedNeg::checked_neg(a)
}

/// Relies on num_traits::Zero::is_zero for i64.
#[verifier::external_body]
pub(crate) fn i64_is_zero(a: &i64) -> (r: bool)
    ensures
        r == (*a == 0),
{
    num_traits::Zero::is_zero(a)
}

/// Relies on num_traits::WrappingAdd for u8: the sum, wrapped around into the
/// range of u8.
#[verifier::external_body]
pub(crate) fn u8_wrapping_add(a: &u8, b: &u8) -> (r: u8)
    ensures
        r as int == wrap(*a + *b, 0 as int, u8::MAX as int),
{
    num_traits::WrappingAdd::wrapping_add(a, b)
}

/// Relies on num_traits::WrappingAdd for usize: the sum, wrapped around into the
/// range of usize.
#[verifier::external_body]
pub(crate) fn usize_wrapping_add(a: &usize, b: &usize) -> (r: usize)
    ensures
        r as int == wrap(*a + *b, 0 as int, usize::MAX as int),
{
    num_traits::WrappingAdd::wrapping_add(a, b)
}

/// Relies on num_traits::WrappingAdd for i64: the sum, wrapped around into the
/// range of i64.
#[verifier::external_body]
pub(crate) fn i64_wrapping_add(a: &i64, b: &i64) -> (r: i64)
    ensures
        r as int == wrap(*a + *b, i64::MIN as int, i64::MAX as int),
{
    num_traits::WrappingAdd::wrapping_add(a, b)
}

} // verus!
