use vstd::prelude::*;
use crate::curve::{curve_step, curve_step_spec};
use crate::error::PredictionMarketError;
use crate::fee::{amount_after_fee, amount_after_fee_spec};

verus! {

/// The side of a market that a trade is on.
#[derive(Clone, Copy, Debug, PartialEq, Eq, Structural)]
pub enum Side {
    Yes,
    No,
}

impl Side {
    /// The number that stands for the side in an event: 0 for yes, 1 for no.
    pub open spec fn index_of(self) -> u8 {
        match self {
            Side::Yes => 0,
            Side::No => 1,
        }
    }

    /// The number that stands for the side in an event: 0 for yes, 1 for no.
    pub fn index(&self) -> (i: u8)
        ensures
            i == self.index_of(),
    {
        match self {
            Side::Yes => 0,
            Side::No => 1,
        }
    }
}

/// The other side.
pub open spec fn opposite(side: Side) -> Side {
    match side {
        Side::Yes => Side::No,
        Side::No => Side::Yes,
    }
}

/// A purchase: the fee comes off the amount paid in and what is left enters the curve.
/// Buying yes adds to the no reserve and draws the shares from the yes reserve; buying no
/// is the mirror image. The triple is (shares out, new yes reserve, new no reserve).
pub open spec fn calculate_buy_shares_spec(
    side: Side,
    amount_in: u64,
    reserve_yes: u64,
    reserve_no: u64,
    fee_bps: u16,
) -> Result<(u64, u64, u64), PredictionMarketError> {
    match amount_after_fee_spec(amount_in, fee_bps) {
        Err(e) => Err(e),
        Ok(net) => match side {
            Side::Yes => match curve_step_spec(reserve_no, reserve_yes, net) {
                Err(e) => Err(e),
                Ok(step) => Ok((step.amount_out, step.drawn_reserve, step.added_reserve)),
            },
            Side::No => match curve_step_spec(reserve_yes, reserve_no, net) {
                Err(e) => Err(e),
                Ok(step) => Ok((step.amount_out, step.added_reserve, step.drawn_reserve)),
            },
        },
    }
}

/// What the curve pays out for a sale before the fee, with the reserves after the sale.
/// Selling yes adds the shares to the yes reserve and draws the collateral from the no
/// reserve; selling no is the mirror image.
pub open spec fn sell_step_spec(side: Side, shares_in: u64, reserve_yes: u64, reserve_no: u64)
    -> Result<(u64, u64, u64), PredictionMarketError> {
    match side {
        Side::Yes => match curve_step_spec(reserve_yes, reserve_no, shares_in) {
            Err(e) => Err(e),
            Ok(step) => Ok((step.amount_out, step.added_reserve, step.drawn_reserve)),
        },
        Side::No => match curve_step_spec(reserve_no, reserve_yes, shares_in) {
            Err(e) => Err(e),
            Ok(step) => Ok((step.amount_out, step.drawn_reserve, step.added_reserve)),
        },
    }
}

/// A sale: the curve is evaluated first, then the fee comes off what it paid out. The
/// triple is (collateral out, new yes reserve, new no reserve).
pub open spec fn calculate_sell_shares_spec(
    side: Side,
    shares_in: u64,
    reserve_yes: u64,
    reserve_no: u64,
    fee_bps: u16,
) -> Result<(u64, u64, u64), PredictionMarketError> {
    match sell_step_spec(side, shares_in, reserve_yes, reserve_no) {
        Err(e) => Err(e),
        Ok((before_fee, new_reserve_yes, new_reserve_no)) => match amount_after_fee_spec(
            before_fee,
            fee_bps,
        ) {
            Err(e) => Err(e),
            Ok(net) => Ok((net, new_reserve_yes, new_reserve_no)),
        },
    }
}

/// Prices a purchase of `side` for `amount_in` of collateral against the two reserves.
/// Returns the shares handed out and the two reserves after the purchase, or
/// `ArithmeticOverflow` where a checked step fails. A result of zero shares is returned
/// as it is: the caller decides what to make of it.
pub fn calculate_buy_shares(
    side: Side,
    amount_in: u64,
    reserve_yes: u64,
    reserve_no: u64,
    fee_bps: u16,
) -> (res: Result<(u64, u64, u64), PredictionMarketError>)
    ensures
        res == calculate_buy_shares_spec(side, amount_in, reserve_yes, reserve_no, fee_bps),
{
    let amount_after_fee = amount_after_fee(amount_in, fee_bps)?;
    match side {
        Side::Yes => {
            let step = curve_step(reserve_no, reserve_yes, amount_after_fee)?;
            Ok((step.amount_out, step.drawn_reserve, step.added_reserve))
        },
        Side::No => {
            let step = curve_step(reserve_yes, reserve_no, amount_after_fee)?;
            Ok((step.amount_out, step.added_reserve, step.drawn_reserve))
        },
    }
}

/// Prices a sale of `shares_in` shares of `side` against the two reserves. Returns the
/// collateral paid out after the fee and the two reserves after the sale, or
/// `ArithmeticOverflow` where a checked step fails. A payout of zero is returned as it
/// is: the caller decides what to make of it.
pub fn calculate_sell_shares(
    side: Side,
    shares_in: u64,
    reserve_yes: u64,
    reserve_no: u64,
    fee_bps: u16,
) -> (res: Result<(u64, u64, u64), PredictionMarketError>)
    ensures
        res == calculate_sell_shares_spec(side, shares_in, reserve_yes, reserve_no, fee_bps),
{
    match side {
        Side::Yes => {
            let step = curve_step(reserve_yes, reserve_no, shares_in)?;
            let collateral_out = amount_after_fee(step.amount_out, fee_bps)?;
            Ok((collateral_out, step.added_reserve, step.drawn_reserve))
        },
        Side::No => {
            let step = curve_step(reserve_no, reserve_yes, shares_in)?;
            let collateral_out = amount_after_fee(step.amount_out, fee_bps)?;
            Ok((collateral_out, step.drawn_reserve, step.added_reserve))
        },
    }
}

} // verus!
