//! Overflow-safe arithmetic over the unsigned 64-bit amount domain.
//!
//! Every addition, subtraction and multiplication of token quantities routes
//! through these functions: each either returns the mathematically correct
//! result or reports the precise overflow or underflow condition — none ever
//! wraps silently.

use vstd::prelude::*;

use crate::errors::LockerError;

verus! {

/// Adds two amounts, rejecting sums beyond the 64-bit domain.
pub fn safe_add(a: u64, b: u64) -> (r: Result<u64, LockerError>)
    ensures
        a + b <= u64::MAX ==> r == Ok::<u64, LockerError>((a + b) as u64),
        a + b > u64::MAX ==> r == Err::<u64, LockerError>(LockerError::ArithmeticOverflow),
{
    match a.checked_add(b) {
        Some(v) => Ok(v),
        None => Err(LockerError::ArithmeticOverflow),
    }
}

/// Subtracts `b` from `a`, rejecting differences below zero.
pub fn safe_sub(a: u64, b: u64) -> (r: Result<u64, LockerError>)
    ensures
        a >= b ==> r == Ok::<u64, LockerError>((a - b) as u64),
        a < b ==> r == Err::<u64, LockerError>(LockerError::ArithmeticUnderflow),
{
    match a.checked_sub(b) {
        Some(v) => Ok(v),
        None => Err(LockerError::ArithmeticUnderflow),
    }
}

/// Multiplies two amounts, rejecting products beyond the 64-bit domain.
pub fn safe_mul(a: u64, b: u64) -> (r: Result<u64, LockerError>)
    ensures
        a * b <= u64::MAX ==> r == Ok::<u64, LockerError>((a * b) as u64),
        a * b > u64::MAX ==> r == Err::<u64, LockerError>(LockerError::ArithmeticOverflow),
{
    match a.checked_mul(b) {
        Some(v) => Ok(v),
        None => Err(LockerError::ArithmeticOverflow),
    }
}

/// For non-negative factors, the product grows with the second factor and
/// never falls below zero.
pub(crate) proof fn lemma_mul_nonneg_le(a: int, b: int, c: int) by (nonlinear_arith)
    requires
        0 <= a,
        0 <= b <= c,
    ensures
        0 <= a * b <= a * c,
{
}

} // verus!
