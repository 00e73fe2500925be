use prediction_market::arith::{checked_add, checked_div, checked_mul, checked_sub};
use prediction_market::curve::{curve_step, CurveStep};
use prediction_market::error::{ErrorKind, PredictionMarketError};
use prediction_market::fee::{amount_after_fee, fee_amount};
use prediction_market::pricing::{calculate_buy_shares, calculate_sell_shares, Side};

#[test]
fn checked_add_is_exact_or_fails() {
    assert_eq!(checked_add(2, 3), Ok(5));
    assert_eq!(checked_add(u64::MAX - 1, 1), Ok(u64::MAX));
    assert_eq!(checked_add(u64::MAX, 1), Err(PredictionMarketError::ArithmeticOverflow));
}

#[test]
fn checked_sub_is_exact_or_fails() {
    assert_eq!(checked_sub(5, 3), Ok(2));
    assert_eq!(checked_sub(3, 3), Ok(0));
    assert_eq!(checked_sub(3, 5), Err(PredictionMarketError::ArithmeticOverflow));
}

#[test]
fn checked_mul_is_exact_or_fails() {
    assert_eq!(checked_mul(500, 500), Ok(250000));
    assert_eq!(checked_mul(1 << 32, (1 << 32) - 1), Ok(18446744069414584320));
    assert_eq!(checked_mul(1 << 32, 1 << 32), Err(PredictionMarketError::ArithmeticOverflow));
}

#[test]
fn checked_div_rounds_down_and_refuses_zero() {
    assert_eq!(checked_div(250000, 599), Ok(417));
    assert_eq!(checked_div(7, 8), Ok(0));
    assert_eq!(checked_div(7, 0), Err(PredictionMarketError::ArithmeticOverflow));
}

#[test]
fn fee_is_rounded_down() {
    assert_eq!(fee_amount(100, 100), Ok(1));
    assert_eq!(fee_amount(12345, 250), Ok(308));
    assert_eq!(fee_amount(9999, 1), Ok(0));
    assert_eq!(amount_after_fee(12345, 250), Ok(12037));
    assert_eq!(amount_after_fee(9999, 1), Ok(9999));
}

#[test]
fn fee_of_zero_rate_leaves_amount_unchanged() {
    assert_eq!(fee_amount(u64::MAX, 0), Ok(0));
    assert_eq!(amount_after_fee(u64::MAX, 0), Ok(u64::MAX));
    assert_eq!(amount_after_fee(0, 0), Ok(0));
}

#[test]
fn fee_at_full_rate_takes_everything() {
    assert_eq!(amount_after_fee(100, 10000), Ok(0));
    assert_eq!(fee_amount(u64::MAX / 10000, 10000), Ok(1844674407370955));
}

#[test]
fn fee_overflows_on_large_amounts() {
    assert_eq!(fee_amount(u64::MAX, 1), Ok(1844674407370955));
    assert_eq!(fee_amount(u64::MAX, 2), Err(PredictionMarketError::ArithmeticOverflow));
    assert_eq!(
        amount_after_fee(u64::MAX / 10000 + 1, 10000),
        Err(PredictionMarketError::ArithmeticOverflow)
    );
}

#[test]
fn fee_above_the_amount_is_an_arithmetic_failure() {
    // floor(100 * 10001 / 10000) is 100, which the amount still covers.
    assert_eq!(amount_after_fee(100, 10001), Ok(0));
    assert_eq!(amount_after_fee(10000, 10001), Err(PredictionMarketError::ArithmeticOverflow));
    assert_eq!(amount_after_fee(100, 20000), Err(PredictionMarketError::ArithmeticOverflow));
}

#[test]
fn curve_step_keeps_the_product_rounded_down() {
    assert_eq!(
        curve_step(500, 500, 99),
        Ok(CurveStep { added_reserve: 599, drawn_reserve: 417, amount_out: 83 })
    );
    assert_eq!(
        curve_step(2000, 3000, 1000),
        Ok(CurveStep { added_reserve: 3000, drawn_reserve: 2000, amount_out: 1000 })
    );
}

#[test]
fn curve_step_fails_on_overflow_and_on_an_empty_added_reserve() {
    assert_eq!(curve_step(1 << 32, 1 << 32, 1), Err(PredictionMarketError::ArithmeticOverflow));
    assert_eq!(curve_step(u64::MAX, 1, 1), Err(PredictionMarketError::ArithmeticOverflow));
    assert_eq!(curve_step(0, 0, 0), Err(PredictionMarketError::ArithmeticOverflow));
    assert_eq!(curve_step(0, 7, 0), Err(PredictionMarketError::ArithmeticOverflow));
}

#[test]
fn curve_step_can_round_the_drawn_reserve_down_to_nothing() {
    assert_eq!(
        curve_step(500, 500, 250000),
        Ok(CurveStep { added_reserve: 250500, drawn_reserve: 0, amount_out: 500 })
    );
    assert_eq!(
        curve_step(1, 1, 1),
        Ok(CurveStep { added_reserve: 2, drawn_reserve: 0, amount_out: 1 })
    );
}

#[test]
fn buy_yes_reproduces_the_worked_integers() {
    // 1000 of liquidity seeds 500 on each side; of a purchase of 100 at 1%, 99 enter the curve.
    let (shares_out, reserve_yes, reserve_no) =
        calculate_buy_shares(Side::Yes, 100, 500, 500, 100).unwrap();
    assert_eq!(reserve_no, 599);
    assert_eq!(reserve_yes, 417);
    assert_eq!(shares_out, 83);
}

#[test]
fn buy_no_is_the_mirror_image() {
    assert_eq!(calculate_buy_shares(Side::No, 100, 500, 500, 100), Ok((83, 599, 417)));
    assert_eq!(calculate_buy_shares(Side::Yes, 1000, 2000, 3000, 30), Ok((499, 1501, 3997)));
    assert_eq!(calculate_buy_shares(Side::No, 1000, 2000, 3000, 30), Ok((998, 2997, 2002)));
}

#[test]
fn buy_without_fee_follows_the_bare_curve() {
    assert_eq!(calculate_buy_shares(Side::Yes, 100, 500, 500, 0), Ok((84, 416, 600)));
    assert_eq!(calculate_buy_shares(Side::Yes, 500, 500, 500, 0), Ok((250, 250, 1000)));
}

#[test]
fn sell_applies_the_fee_to_what_the_curve_pays() {
    assert_eq!(calculate_sell_shares(Side::Yes, 83, 417, 599, 100), Ok((99, 500, 499)));
    assert_eq!(calculate_sell_shares(Side::No, 50, 1000, 2000, 250), Ok((25, 975, 2050)));
    assert_eq!(calculate_sell_shares(Side::Yes, 1000, 2000, 3000, 30), Ok((997, 3000, 2000)));
    assert_eq!(calculate_sell_shares(Side::No, 1000, 2000, 3000, 30), Ok((499, 1500, 4000)));
}

#[test]
fn sell_without_fee_follows_the_bare_curve() {
    assert_eq!(calculate_sell_shares(Side::Yes, 83, 417, 599, 0), Ok((100, 500, 499)));
    assert_eq!(calculate_sell_shares(Side::Yes, 250, 250, 1000, 0), Ok((500, 500, 500)));
}

#[test]
fn pricing_reports_overflow() {
    assert_eq!(
        calculate_buy_shares(Side::Yes, 1, 1 << 32, 1 << 32, 0),
        Err(PredictionMarketError::ArithmeticOverflow)
    );
    assert_eq!(
        calculate_buy_shares(Side::Yes, 1, (1 << 32) - 1, 1 << 32, 0),
        Ok((1, 4294967294, 4294967297))
    );
    assert_eq!(
        calculate_buy_shares(Side::Yes, u64::MAX, 1, 1, 0),
        Err(PredictionMarketError::ArithmeticOverflow)
    );
    assert_eq!(
        calculate_sell_shares(Side::No, u64::MAX, 1, 1, 0),
        Err(PredictionMarketError::ArithmeticOverflow)
    );
    assert_eq!(
        calculate_buy_shares(Side::Yes, 0, 0, 0, 0),
        Err(PredictionMarketError::ArithmeticOverflow)
    );
}

#[test]
fn pricing_hands_back_a_result_of_nothing() {
    assert_eq!(calculate_buy_shares(Side::Yes, 1, 0, 0, 0), Ok((0, 0, 1)));
    assert_eq!(calculate_buy_shares(Side::Yes, 0, 500, 500, 100), Ok((0, 500, 500)));
    assert_eq!(calculate_sell_shares(Side::Yes, 1, 500, 1, 0), Ok((1, 501, 0)));
    assert_eq!(calculate_sell_shares(Side::Yes, 1, 1000000, 1, 10000), Ok((0, 1000001, 0)));
}

#[test]
fn side_index_is_zero_for_yes_and_one_for_no() {
    assert_eq!(Side::Yes.index(), 0);
    assert_eq!(Side::No.index(), 1);
}

#[test]
fn every_error_has_its_kind() {
    assert_eq!(PredictionMarketError::EmptyStatement.kind(), ErrorKind::InvalidParameter);
    assert_eq!(PredictionMarketError::StatementTooLong.kind(), ErrorKind::InvalidParameter);
    assert_eq!(PredictionMarketError::InvalidCloseTime.kind(), ErrorKind::InvalidParameter);
    assert_eq!(PredictionMarketError::InvalidFee.kind(), ErrorKind::InvalidParameter);
    assert_eq!(PredictionMarketError::InvalidAmount.kind(), ErrorKind::InvalidParameter);
    assert_eq!(PredictionMarketError::MarketNotActive.kind(), ErrorKind::MarketNotActive);
    assert_eq!(
        PredictionMarketError::MarketAlreadyResolved.kind(),
        ErrorKind::MarketAlreadyResolved
    );
    assert_eq!(PredictionMarketError::Unauthorized.kind(), ErrorKind::Unauthorized);
    assert_eq!(PredictionMarketError::ArithmeticOverflow.kind(), ErrorKind::ArithmeticOverflow);
    assert_eq!(PredictionMarketError::InsufficientOutput.kind(), ErrorKind::InsufficientOutput);
    assert_eq!(
        PredictionMarketError::InvalidMarketReference.kind(),
        ErrorKind::InvalidMarketReference
    );
}
