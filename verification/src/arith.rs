use vstd::prelude::*;
use crate::error::PredictionMarketError;

verus! {

/// What a checked step yields for the exact result `value`: the value itself where it is
/// a 64-bit unsigned number, `ArithmeticOverflow` where it is not.
pub open spec fn checked(value: int) -> Result<u64, PredictionMarketError> {
    if 0 <= value <= u64::MAX {
        Ok(value as u64)
    } else {
        Err(PredictionMarketError::ArithmeticOverflow)
    }
}

/// The quotient of a checked division, rounded down; a zero divisor is an error.
pub open spec fn checked_quotient(a: u64, b: u64) -> Result<u64, PredictionMarketError> {
    if b == 0 {
        Err(PredictionMarketError::ArithmeticOverflow)
    } else {
        Ok(a / b)
    }
}

/// `a + b`, or `ArithmeticOverflow` where the sum does not fit.
pub fn checked_add(a: u64, b: u64) -> (res: Result<u64, PredictionMarketError>)
    ensures
        res == checked(a + b),
{
    match a.checked_add(b) {
        Some(sum) => Ok(sum),
        None => Err(PredictionMarketError::ArithmeticOverflow),
    }
}

/// `a - b`, or `ArithmeticOverflow` where `b` exceeds `a`.
pub fn checked_sub(a: u64, b: u64) -> (res: Result<u64, PredictionMarketError>)
    ensures
        res == checked(a - b),
{
    match a.checked_sub(b) {
        Some(difference) => Ok(difference),
        None => Err(PredictionMarketError::ArithmeticOverflow),
    }
}

/// `a * b`, or `ArithmeticOverflow` where the product does not fit.
pub fn checked_mul(a: u64, b: u64) -> (res: Result<u64, PredictionMarketError>)
    ensures
        res == checked(a * b),
{
    proof {
        assert(0 <= a * b) by (nonlinear_arith);
    }
    match a.checked_mul(b) {
        Some(product) => Ok(product),
        None => Err(PredictionMarketError::ArithmeticOverflow),
    }
}

/// `floor(a / b)`, or `ArithmeticOverflow` where `b` is zero.
pub fn checked_div(a: u64, b: u64) -> (res: Result<u64, PredictionMarketError>)
    ensures
        res == checked_quotient(a, b),
{
    match a.checked_div(b) {
        Some(quotient) => Ok(quotient),
        None => Err(PredictionMarketError::ArithmeticOverflow),
    }
}

} // verus!
