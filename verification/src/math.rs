//! Checked arithmetic on 64-bit quantities. Nothing here wraps or truncates.

use vstd::prelude::*;
use crate::error::ErrorCode;

verus! {

/// The sum `a + b`, or `ArithmeticOverflow` when it does not fit in 64 bits.
pub fn checked_add(a: u64, b: u64) -> (r: Result<u64, ErrorCode>)
    ensures
        a + b <= u64::MAX ==> r == Ok::<u64, ErrorCode>((a + b) as u64),
        a + b > u64::MAX ==> r == Err::<u64, ErrorCode>(ErrorCode::ArithmeticOverflow),
{
    match a.checked_add(b) {
        Some(sum) => Ok(sum),
        None => Err(ErrorCode::ArithmeticOverflow),
    }
}

/// The difference `a - b`, or `ArithmeticOverflow` when `b` exceeds `a`.
pub fn checked_sub(a: u64, b: u64) -> (r: Result<u64, ErrorCode>)
    ensures
        b <= a ==> r == Ok::<u64, ErrorCode>((a - b) as u64),
        b > a ==> r == Err::<u64, ErrorCode>(ErrorCode::ArithmeticOverflow),
{
    match a.checked_sub(b) {
        Some(difference) => Ok(difference),
        None => Err(ErrorCode::ArithmeticOverflow),
    }
}

/// The product `a * b`, or `ArithmeticOverflow` when it does not fit in 64 bits.
pub fn checked_mul(a: u64, b: u64) -> (r: Result<u64, ErrorCode>)
    ensures
        a * b <= u64::MAX ==> r == Ok::<u64, ErrorCode>((a * b) as u64),
        a * b > u64::MAX ==> r == Err::<u64, ErrorCode>(ErrorCode::ArithmeticOverflow),
{
    match a.checked_mul(b) {
        Some(product) => Ok(product),
        None => Err(ErrorCode::ArithmeticOverflow),
    }
}

/// The quotient `a / b` rounded down, or `DivisionByZero` when `b` is zero.
pub fn checked_div(a: u64, b: u64) -> (r: Result<u64, ErrorCode>)
    ensures
        b != 0 ==> r == Ok::<u64, ErrorCode>((a / b) as u64),
        b == 0 ==> r == Err::<u64, ErrorCode>(ErrorCode::DivisionByZero),
{
    match a.checked_div(b) {
        Some(quotient) => Ok(quotient),
        None => Err(ErrorCode::DivisionByZero),
    }
}

} // verus!
