use vstd::prelude::*;
use crate::keys::Pubkey;
use crate::market::{Market, MarketOutcome, MarketState};
use crate::pricing::Side;

verus! {

/// Why a claim on a market's collateral was refused.
#[derive(Clone, Copy, Debug, PartialEq, Eq, Structural)]
pub enum ClaimError {
    /// The market has not been resolved, so no side has won yet.
    MarketNotResolved,
    /// A claim for nothing.
    InvalidAmount,
}

/// Told when winning shares were redeemed: `amount` shares of the winning side are to be
/// burnt and `amount` of collateral is owed to `user`.
#[derive(Clone, Copy, Debug, PartialEq, Eq)]
pub struct WinningsClaimed {
    pub user: Pubkey,
    pub amount: u64,
}

/// The side whose shares an outcome makes redeemable.
pub open spec fn winning_side_of(outcome: MarketOutcome) -> Side {
    match outcome {
        MarketOutcome::Yes => Side::Yes,
        MarketOutcome::No => Side::No,
    }
}

/// The side that a claim for `amount` shares is paid on: the side of the outcome of a
/// resolved market. A market that is not resolved is refused first, then an amount of
/// zero.
pub open spec fn claim_winnings_spec(market: Market, amount: u64) -> Result<Side, ClaimError> {
    if market.state != MarketState::Resolved || market.outcome is None {
        Err(ClaimError::MarketNotResolved)
    } else if amount == 0 {
        Err(ClaimError::InvalidAmount)
    } else {
        Ok(winning_side_of(market.outcome->0))
    }
}

/// Decides a claim of `user` to redeem `amount` shares of the winning side, one unit of
/// collateral for each share. Returns the mint whose shares are to be burnt, with the
/// event that tells of the claim. The market is not changed.
pub fn claim_winnings(market: &Market, user: Pubkey, amount: u64) -> (res: Result<
    (Pubkey, WinningsClaimed),
    ClaimError,
>)
    ensures
        match res {
            Ok((mint, event)) => {
                &&& claim_winnings_spec(*market, amount) is Ok
                &&& mint == market.mint_of(claim_winnings_spec(*market, amount)->Ok_0)
                &&& event == (WinningsClaimed { user: user, amount: amount })
            },
            Err(e) => claim_winnings_spec(*market, amount) == Err::<Side, ClaimError>(e),
        },
{
    let outcome = match (market.state, market.outcome) {
        (MarketState::Resolved, Some(outcome)) => outcome,
        _ => {
            return Err(ClaimError::MarketNotResolved);
        },
    };
    if amount == 0 {
        return Err(ClaimError::InvalidAmount);
    }
    let mint = match outcome {
        MarketOutcome::Yes => market.mint_for(Side::Yes),
        MarketOutcome::No => market.mint_for(Side::No),
    };
    Ok((mint, WinningsClaimed { user, amount }))
}

} // verus!
