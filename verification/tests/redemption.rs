use prediction_market::keys::Pubkey;
use prediction_market::market::{resolve_market, Market, MarketOutcome, MarketState};
use prediction_market::redemption::{claim_winnings, ClaimError, WinningsClaimed};

fn address(n: u8) -> Pubkey {
    Pubkey { bytes: [n; 32] }
}

fn settled(state: MarketState, outcome: Option<MarketOutcome>) -> Market {
    Market {
        authority: address(1),
        agent: address(2),
        market_id: [3; 32],
        statement: String::from("The harvest is in by October"),
        closes_at: 1_000,
        reserve_yes: 500,
        reserve_no: 500,
        fee_bps: 100,
        yes_mint: address(4),
        no_mint: address(5),
        pool_yes_account: address(6),
        pool_no_account: address(7),
        pool_vault: address(8),
        pool_authority: address(9),
        state,
        outcome,
        bump: 255,
    }
}

#[test]
fn claim_is_paid_on_the_winning_side() {
    let yes = settled(MarketState::Resolved, Some(MarketOutcome::Yes));
    assert_eq!(
        claim_winnings(&yes, address(20), 7),
        Ok((address(4), WinningsClaimed { user: address(20), amount: 7 }))
    );
    let no = settled(MarketState::Resolved, Some(MarketOutcome::No));
    assert_eq!(
        claim_winnings(&no, address(20), u64::MAX),
        Ok((address(5), WinningsClaimed { user: address(20), amount: u64::MAX }))
    );
}

#[test]
fn claim_needs_a_resolved_market() {
    assert_eq!(
        claim_winnings(&settled(MarketState::Active, None), address(20), 7),
        Err(ClaimError::MarketNotResolved)
    );
    assert_eq!(
        claim_winnings(&settled(MarketState::Frozen, None), address(20), 7),
        Err(ClaimError::MarketNotResolved)
    );
    assert_eq!(
        claim_winnings(&settled(MarketState::Resolved, None), address(20), 7),
        Err(ClaimError::MarketNotResolved)
    );
    assert_eq!(
        claim_winnings(&settled(MarketState::Active, None), address(20), 0),
        Err(ClaimError::MarketNotResolved)
    );
}

#[test]
fn claim_for_nothing_is_refused() {
    let market = settled(MarketState::Resolved, Some(MarketOutcome::Yes));
    assert_eq!(claim_winnings(&market, address(20), 0), Err(ClaimError::InvalidAmount));
}

#[test]
fn claim_follows_a_resolution() {
    let mut market = settled(MarketState::Active, None);
    resolve_market(&mut market, &address(1), MarketOutcome::No, 5).unwrap();
    let before = market.clone();
    assert_eq!(claim_winnings(&market, address(21), 3).unwrap().0, address(5));
    assert_eq!(market, before);
}
