use prediction_market::keys::Pubkey;
use prediction_market::market::{buy_shares, sell_shares, Market, MarketState};
use prediction_market::pricing::{calculate_buy_shares, calculate_sell_shares, Side};

fn trader() -> Pubkey {
    Pubkey { bytes: [42; 32] }
}

fn pool(reserve_yes: u64, reserve_no: u64, fee_bps: u16) -> Market {
    Market {
        authority: Pubkey { bytes: [1; 32] },
        agent: Pubkey { bytes: [2; 32] },
        market_id: [3; 32],
        statement: String::from("The bridge opens before winter"),
        closes_at: 1_000,
        reserve_yes,
        reserve_no,
        fee_bps,
        yes_mint: Pubkey { bytes: [4; 32] },
        no_mint: Pubkey { bytes: [5; 32] },
        pool_yes_account: Pubkey { bytes: [6; 32] },
        pool_no_account: Pubkey { bytes: [7; 32] },
        pool_vault: Pubkey { bytes: [8; 32] },
        pool_authority: Pubkey { bytes: [9; 32] },
        state: MarketState::Active,
        outcome: None,
        bump: 255,
    }
}

fn product(market: &Market) -> u128 {
    market.reserve_yes as u128 * market.reserve_no as u128
}

#[test]
fn product_is_kept_when_the_division_is_exact() {
    // 1000 divides 500 * 500, so nothing is rounded away.
    let mut market = pool(500, 500, 0);
    buy_shares(&mut market, trader(), Side::Yes, 500, 1).unwrap();
    assert_eq!((market.reserve_yes, market.reserve_no), (250, 1000));
    assert_eq!(product(&market), 250_000);
    sell_shares(&mut market, trader(), Side::Yes, 250, 2).unwrap();
    assert_eq!((market.reserve_yes, market.reserve_no), (500, 500));
    assert_eq!(product(&market), 250_000);
}

#[test]
fn product_loses_exactly_the_remainder_of_the_division() {
    let mut market = pool(500, 500, 100);
    buy_shares(&mut market, trader(), Side::Yes, 100, 1).unwrap();
    // 250000 = 417 * 599 + 217
    assert_eq!(product(&market), 250_000 - 217);
    assert_eq!(250_000 % 599, 217);
    let before = product(&market);
    sell_shares(&mut market, trader(), Side::No, 40, 2).unwrap();
    assert_eq!((market.reserve_yes, market.reserve_no), (390, 639));
    assert_eq!(product(&market), before - before % 639);
}

#[test]
fn product_never_grows_over_a_sequence_of_trades() {
    let mut market = pool(10_000, 20_000, 30);
    let trades: [(bool, Side, u64); 6] = [
        (false, Side::Yes, 700),
        (false, Side::No, 1_300),
        (true, Side::Yes, 250),
        (false, Side::Yes, 5),
        (true, Side::No, 999),
        (true, Side::Yes, 1),
    ];
    let mut now = 1;
    for (is_sale, side, amount) in trades {
        let before = product(&market);
        let added_side_before = market.clone();
        let done = if is_sale {
            sell_shares(&mut market, trader(), side, amount, now).is_ok()
        } else {
            buy_shares(&mut market, trader(), side, amount, now).is_ok()
        };
        if done {
            let added = if is_sale == (side == Side::Yes) {
                market.reserve_yes
            } else {
                market.reserve_no
            };
            assert!(product(&market) <= before);
            assert_eq!(product(&market), before - before % added as u128);
        } else {
            assert_eq!(market, added_side_before);
        }
        now += 1;
    }
}

#[test]
fn round_trip_pays_back_no_more_than_was_paid_where_fees_cover_the_rounding() {
    let mut market = pool(500, 500, 100);
    let bought = buy_shares(&mut market, trader(), Side::Yes, 100, 1).unwrap();
    let sold = sell_shares(&mut market, trader(), Side::Yes, bought.shares, 1).unwrap();
    // 99 entered the curve, the rounding gives one unit back, each fee is one unit.
    assert_eq!(sold.sol_out, 99);
    assert!(sold.sol_out <= 100);
    assert_eq!(market.reserve_yes, 500);
}

#[test]
fn round_trip_without_rounding_and_without_fee_pays_back_the_amount() {
    let mut market = pool(500, 500, 0);
    let bought = buy_shares(&mut market, trader(), Side::Yes, 500, 1).unwrap();
    assert_eq!(bought.shares, 250);
    let sold = sell_shares(&mut market, trader(), Side::Yes, bought.shares, 1).unwrap();
    assert_eq!(sold.sol_out, 500);
    assert_eq!((market.reserve_yes, market.reserve_no), (500, 500));
}

#[test]
fn round_trip_without_rounding_keeps_the_fees() {
    let mut market = pool(500, 500, 1000);
    // 555 less 55 of fee is 500, and 1000 divides 250000.
    let bought = buy_shares(&mut market, trader(), Side::Yes, 555, 1).unwrap();
    assert_eq!(bought.shares, 250);
    assert_eq!((market.reserve_yes, market.reserve_no), (250, 1000));
    // The curve pays the 500 back, of which 50 are the fee.
    let sold = sell_shares(&mut market, trader(), Side::Yes, bought.shares, 1).unwrap();
    assert_eq!(sold.sol_out, 450);
    assert_eq!((market.reserve_yes, market.reserve_no), (500, 500));
}

#[test]
fn round_trip_with_rounding_stays_within_the_amount_where_the_fees_cover_it() {
    let mut market = pool(500, 500, 1000);
    // 1112 less 111 is 1001; 250000 = 166 * 1501 + 834, which gives two units back.
    let bought = buy_shares(&mut market, trader(), Side::No, 1_112, 1).unwrap();
    assert_eq!(bought.shares, 334);
    let sold = sell_shares(&mut market, trader(), Side::No, bought.shares, 1).unwrap();
    // The curve pays 1003, of which 100 are the fee.
    assert_eq!(sold.sol_out, 903);
    assert_eq!((market.reserve_yes, market.reserve_no), (498, 500));
}

#[test]
fn round_trip_gives_the_rounding_back_where_no_fee_covers_it() {
    // Without a fee the one unit that the purchase rounded away comes back on top.
    let mut market = pool(500, 500, 0);
    let bought = buy_shares(&mut market, trader(), Side::Yes, 99, 1).unwrap();
    assert_eq!(bought.shares, 83);
    let sold = sell_shares(&mut market, trader(), Side::Yes, 83, 1).unwrap();
    assert_eq!(sold.sol_out, 100);
}

#[test]
fn successive_buys_of_one_size_hand_out_no_more_each_time() {
    let mut market = pool(500, 500, 100);
    let mut shares = Vec::new();
    for now in 0..4 {
        shares.push(buy_shares(&mut market, trader(), Side::Yes, 100, now).unwrap().shares);
    }
    assert_eq!(shares, vec![83, 60, 45, 35]);
    assert!(shares.windows(2).all(|pair| pair[1] <= pair[0]));
}

#[test]
fn successive_buys_can_hand_out_the_same_number() {
    let mut market = pool(1_000_000, 1_000_000, 0);
    let first = buy_shares(&mut market, trader(), Side::No, 1, 0).unwrap().shares;
    let second = buy_shares(&mut market, trader(), Side::No, 1, 0).unwrap().shares;
    assert_eq!((first, second), (1, 1));
}

#[test]
fn zero_fee_buy_and_sell_are_the_bare_curve() {
    assert_eq!(calculate_buy_shares(Side::Yes, 99, 500, 500, 0), Ok((83, 417, 599)));
    assert_eq!(calculate_buy_shares(Side::Yes, 100, 500, 500, 100), Ok((83, 417, 599)));
    assert_eq!(calculate_sell_shares(Side::No, 99, 500, 500, 0), Ok((83, 417, 599)));
}
