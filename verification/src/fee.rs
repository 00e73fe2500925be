use vstd::prelude::*;
use crate::arith::{checked_div, checked_mul, checked_sub};
use crate::error::PredictionMarketError;

verus! {

/// The number of basis points in the whole: a rate of 10000 takes everything.
pub const BPS_DENOMINATOR: u64 = 10000;

/// The largest fee rate a market may carry.
pub const MAX_FEE_BPS: u16 = 10000;

/// The fee on `amount` at `fee_bps` basis points, rounded down.
pub open spec fn fee_of(amount: int, fee_bps: int) -> int {
    (amount * fee_bps) / 10000
}

/// What is left of `amount` once the fee is taken.
pub open spec fn net_of_fee(amount: int, fee_bps: int) -> int {
    amount - fee_of(amount, fee_bps)
}

/// The fee as the checked 64-bit steps compute it: the product `amount * fee_bps` has to
/// fit; the division by 10000 cannot fail.
pub open spec fn fee_amount_spec(amount: u64, fee_bps: u16) -> Result<u64, PredictionMarketError> {
    if amount * fee_bps > u64::MAX {
        Err(PredictionMarketError::ArithmeticOverflow)
    } else {
        Ok(fee_of(amount as int, fee_bps as int) as u64)
    }
}

/// The amount net of its fee as the checked steps compute it: the fee has to be
/// computable and must not exceed the amount.
pub open spec fn amount_after_fee_spec(amount: u64, fee_bps: u16) -> Result<
    u64,
    PredictionMarketError,
> {
    match fee_amount_spec(amount, fee_bps) {
        Err(e) => Err(e),
        Ok(fee) => if fee > amount {
            Err(PredictionMarketError::ArithmeticOverflow)
        } else {
            Ok((amount - fee) as u64)
        },
    }
}

/// A fee is never negative, never more than the product it was cut from, and at a rate of
/// at most 10000 basis points never more than the amount. A rate or an amount of zero
/// gives a fee of zero.
pub proof fn lemma_fee_bounds(amount: int, fee_bps: int)
    requires
        0 <= amount,
        0 <= fee_bps,
    ensures
        0 <= fee_of(amount, fee_bps) <= amount * fee_bps,
        fee_bps <= 10000 ==> fee_of(amount, fee_bps) <= amount,
        fee_bps == 0 ==> fee_of(amount, fee_bps) == 0,
        amount == 0 ==> fee_of(amount, fee_bps) == 0,
{
    let p = amount * fee_bps;
    assert(0 <= p) by (nonlinear_arith)
        requires
            0 <= amount,
            0 <= fee_bps,
            p == amount * fee_bps,
    ;
    if fee_bps <= 10000 {
        assert(p <= amount * 10000) by (nonlinear_arith)
            requires
                0 <= amount,
                0 <= fee_bps <= 10000,
                p == amount * fee_bps,
        ;
    }
    if fee_bps == 0 || amount == 0 {
        assert(p == 0) by (nonlinear_arith)
            requires
                fee_bps == 0 || amount == 0,
                p == amount * fee_bps,
        ;
    }
}

/// The fee on `amount`: `floor(amount * fee_bps / 10000)`, or `ArithmeticOverflow` where
/// the product does not fit in 64 bits.
pub fn fee_amount(amount: u64, fee_bps: u16) -> (res: Result<u64, PredictionMarketError>)
    ensures
        res == fee_amount_spec(amount, fee_bps),
{
    proof {
        lemma_fee_bounds(amount as int, fee_bps as int);
    }
    let product = checked_mul(amount, fee_bps as u64)?;
    checked_div(product, BPS_DENOMINATOR)
}

/// Takes the fee off `amount`: `amount - floor(amount * fee_bps / 10000)`. A purchase
/// applies it to what is paid in, a sale to what the curve pays out. At a rate of zero the
/// amount comes back unchanged.
pub fn amount_after_fee(amount: u64, fee_bps: u16) -> (res: Result<u64, PredictionMarketError>)
    ensures
        res == amount_after_fee_spec(amount, fee_bps),
        fee_bps == 0 ==> res == Ok::<u64, PredictionMarketError>(amount),
        fee_bps <= MAX_FEE_BPS && amount * fee_bps <= u64::MAX ==> res.is_ok(),
{
    proof {
        lemma_fee_bounds(amount as int, fee_bps as int);
    }
    let fee = fee_amount(amount, fee_bps)?;
    checked_sub(amount, fee)
}

} // verus!
