use vstd::prelude::*;
use vstd::utf8::encode_utf8;
use crate::address::{market_address, pool_authority_address, pool_vault_address};
use crate::curve::{
    curve_step_spec, drawn_after, lemma_drawn_after_bounds, lemma_step_and_back, lemma_step_out,
    lemma_step_product, lemma_successive_steps, rounding_of, units_covering,
};
use crate::error::{ErrorKind, PredictionMarketError};
use crate::fee::{fee_of, lemma_fee_bounds, net_of_fee, MAX_FEE_BPS};
use crate::keys::Pubkey;
use crate::market::{
    buy_shares_spec, can_resolve_spec, open_market_spec, resolve_market_spec, sell_shares_spec,
    statement_len, InitializeMarket, Market, MarketOutcome, MarketState,
};
use crate::pricing::{
    calculate_buy_shares_spec, calculate_sell_shares_spec, opposite, sell_step_spec, Side,
};

verus! {

/// What the rounding of a purchase takes off the product of the reserves.
pub open spec fn buy_rounding(market: Market, side: Side, amount: u64) -> int {
    rounding_of(
        market.reserve_of(opposite(side)) as int,
        market.reserve_of(side) as int,
        net_of_fee(amount as int, market.fee_bps as int),
    )
}

/// What the rounding of a sale takes off the product of the reserves.
pub open spec fn sell_rounding(market: Market, side: Side, shares: u64) -> int {
    rounding_of(
        market.reserve_of(side) as int,
        market.reserve_of(opposite(side)) as int,
        shares as int,
    )
}

/// What a purchase that is sold back at once pays out beyond the amount that entered the
/// curve: one unit for each started unit of the reserve of `side` in the rounding of the
/// purchase.
pub open spec fn round_trip_gain(market: Market, side: Side, amount: u64) -> int {
    units_covering(buy_rounding(market, side, amount), market.reserve_of(side) as int)
}

/// The two fees of a purchase that is sold back at once: the one on the amount paid in
/// and the one on what the curve pays out.
pub open spec fn round_trip_fees(market: Market, side: Side, amount: u64) -> int {
    fee_of(amount as int, market.fee_bps as int) + fee_of(
        net_of_fee(amount as int, market.fee_bps as int) + round_trip_gain(market, side, amount),
        market.fee_bps as int,
    )
}

/// A purchase keeps the product of the reserves up to its rounding: the product after it
/// is the product before it less the rounding, which is less than the reserve that was
/// added to. So the product never grows, and it stays the same exactly when the division
/// leaves no remainder.
pub proof fn law_buy_product(
    market: Market,
    side: Side,
    amount: u64,
    now: i64,
    after: Market,
    shares: u64,
)
    requires
        buy_shares_spec(market, side, amount, now) == Ok::<(Market, u64), PredictionMarketError>(
            (after, shares),
        ),
    ensures
        after.reserve_product() == market.reserve_product() - buy_rounding(market, side, amount),
        0 <= buy_rounding(market, side, amount) < after.reserve_of(opposite(side)),
        after.reserve_product() <= market.reserve_product(),
        after.reserve_product() >= market.reserve_product() <==> buy_rounding(market, side, amount)
            == 0,
{
    let net = net_of_fee(amount as int, market.fee_bps as int);
    let added = market.reserve_of(opposite(side)) as int;
    let drawn = market.reserve_of(side) as int;
    lemma_step_product(added, drawn, net);
    lemma_drawn_after_bounds(added, drawn, net);
    lemma_product_commutes(after.reserve_yes as int, after.reserve_no as int);
    lemma_product_commutes(market.reserve_yes as int, market.reserve_no as int);
}

/// Conservation for a purchase: where the division of the purchase leaves no remainder,
/// the product of the reserves after it is at least the product before it.
pub proof fn law_buy_conservation(
    market: Market,
    side: Side,
    amount: u64,
    now: i64,
    after: Market,
    shares: u64,
)
    requires
        buy_shares_spec(market, side, amount, now) == Ok::<(Market, u64), PredictionMarketError>(
            (after, shares),
        ),
        buy_rounding(market, side, amount) == 0,
    ensures
        after.reserve_yes * after.reserve_no >= market.reserve_yes * market.reserve_no,
{
    law_buy_product(market, side, amount, now, after, shares);
}

/// A sale keeps the product of the reserves up to its rounding, as a purchase does.
pub proof fn law_sell_product(
    market: Market,
    side: Side,
    shares: u64,
    now: i64,
    after: Market,
    collateral: u64,
)
    requires
        sell_shares_spec(market, side, shares, now) == Ok::<(Market, u64), PredictionMarketError>(
            (after, collateral),
        ),
    ensures
        after.reserve_product() == market.reserve_product() - sell_rounding(market, side, shares),
        0 <= sell_rounding(market, side, shares) < after.reserve_of(side),
        after.reserve_product() <= market.reserve_product(),
        after.reserve_product() >= market.reserve_product() <==> sell_rounding(market, side, shares)
            == 0,
{
    let added = market.reserve_of(side) as int;
    let drawn = market.reserve_of(opposite(side)) as int;
    lemma_step_product(added, drawn, shares as int);
    lemma_drawn_after_bounds(added, drawn, shares as int);
    lemma_product_commutes(after.reserve_yes as int, after.reserve_no as int);
    lemma_product_commutes(market.reserve_yes as int, market.reserve_no as int);
}

/// Conservation for a sale: where the division of the sale leaves no remainder, the
/// product of the reserves after it is at least the product before it.
pub proof fn law_sell_conservation(
    market: Market,
    side: Side,
    shares: u64,
    now: i64,
    after: Market,
    collateral: u64,
)
    requires
        sell_shares_spec(market, side, shares, now) == Ok::<(Market, u64), PredictionMarketError>(
            (after, collateral),
        ),
        sell_rounding(market, side, shares) == 0,
    ensures
        after.reserve_yes * after.reserve_no >= market.reserve_yes * market.reserve_no,
{
    law_sell_product(market, side, shares, now, after, collateral);
}

/// Monotonic pricing: of two purchases of the same amount on the same side, one after the
/// other, the second hands out no more shares than the first.
pub proof fn law_successive_buys(
    market: Market,
    side: Side,
    amount: u64,
    first_now: i64,
    second_now: i64,
    after_first: Market,
    first_shares: u64,
    after_second: Market,
    second_shares: u64,
)
    requires
        buy_shares_spec(market, side, amount, first_now) == Ok::<
            (Market, u64),
            PredictionMarketError,
        >((after_first, first_shares)),
        buy_shares_spec(after_first, side, amount, second_now) == Ok::<
            (Market, u64),
            PredictionMarketError,
        >((after_second, second_shares)),
    ensures
        second_shares <= first_shares,
{
    let net = net_of_fee(amount as int, market.fee_bps as int);
    let added = market.reserve_of(opposite(side)) as int;
    let drawn = market.reserve_of(side) as int;
    lemma_fee_bounds(amount as int, market.fee_bps as int);
    lemma_drawn_after_bounds(added, drawn, net);
    lemma_drawn_after_bounds(added + net, drawn_after(added, drawn, net), net);
    lemma_successive_steps(added, drawn, net);
}

/// A purchase that is sold back at once: the reserve of the side is as it was before the
/// purchase, and the payout stays within the amount paid in exactly when the two fees
/// cover what the rounding of the purchase gives back.
pub proof fn law_round_trip(
    market: Market,
    side: Side,
    amount: u64,
    now: i64,
    after_buy: Market,
    shares: u64,
    after_sell: Market,
    collateral: u64,
)
    requires
        buy_shares_spec(market, side, amount, now) == Ok::<(Market, u64), PredictionMarketError>(
            (after_buy, shares),
        ),
        sell_shares_spec(after_buy, side, shares, now) == Ok::<
            (Market, u64),
            PredictionMarketError,
        >((after_sell, collateral)),
    ensures
        after_sell.reserve_of(side) == market.reserve_of(side),
        collateral == amount + round_trip_gain(market, side, amount) - round_trip_fees(
            market,
            side,
            amount,
        ),
        0 <= round_trip_gain(market, side, amount),
        0 <= round_trip_fees(market, side, amount),
        collateral <= amount <==> round_trip_gain(market, side, amount) <= round_trip_fees(
            market,
            side,
            amount,
        ),
        collateral == amount <==> round_trip_gain(market, side, amount) == round_trip_fees(
            market,
            side,
            amount,
        ),
        market.fee_bps == 0 ==> round_trip_fees(market, side, amount) == 0,
        buy_rounding(market, side, amount) == 0 ==> round_trip_gain(market, side, amount) == 0,
{
    let fee_bps = market.fee_bps as int;
    let net = net_of_fee(amount as int, fee_bps);
    let added = market.reserve_of(opposite(side)) as int;
    let drawn = market.reserve_of(side) as int;
    lemma_fee_bounds(amount as int, fee_bps);
    lemma_drawn_after_bounds(added, drawn, net);
    lemma_step_product(added, drawn, net);
    lemma_step_and_back(added, drawn, net);
    let gain = round_trip_gain(market, side, amount);
    let r = buy_rounding(market, side, amount);
    vstd::arithmetic::div_mod::lemma_div_pos_is_pos(r + drawn - 1, drawn);
    if r == 0 {
        vstd::arithmetic::div_mod::lemma_basic_div(drawn - 1, drawn);
    }
    lemma_fee_bounds(net + gain, fee_bps);
}

/// Inverse bound: a purchase that is sold back at once pays out no more than was paid
/// in, wherever the two fees cover what the rounding of the purchase gives back; and
/// where the purchase has no rounding and the fee rate is zero, it pays out the amount
/// paid in.
pub proof fn law_inverse_bound(
    market: Market,
    side: Side,
    amount: u64,
    now: i64,
    after_buy: Market,
    shares: u64,
    after_sell: Market,
    collateral: u64,
)
    requires
        buy_shares_spec(market, side, amount, now) == Ok::<(Market, u64), PredictionMarketError>(
            (after_buy, shares),
        ),
        sell_shares_spec(after_buy, side, shares, now) == Ok::<
            (Market, u64),
            PredictionMarketError,
        >((after_sell, collateral)),
        round_trip_gain(market, side, amount) <= round_trip_fees(market, side, amount),
    ensures
        collateral <= amount,
        buy_rounding(market, side, amount) == 0 && market.fee_bps == 0 ==> collateral == amount,
        buy_rounding(market, side, amount) == 0 && collateral == amount ==> round_trip_fees(
            market,
            side,
            amount,
        ) == 0,
{
    law_round_trip(market, side, amount, now, after_buy, shares, after_sell, collateral);
}

/// A market needs a statement: without one the creation is refused with
/// `EmptyStatement`, a bad parameter, whatever the other parameters and whatever
/// addresses were derived.
pub proof fn law_empty_statement_is_refused(
    accounts: InitializeMarket,
    statement: String,
    closes_at: i64,
    initial_liquidity: u64,
    fee_bps: u16,
    now: i64,
    derived_market: Option<(Seq<u8>, u8)>,
    derived_pool_authority: Option<(Seq<u8>, u8)>,
    derived_pool_vault: Option<(Seq<u8>, u8)>,
)
    requires
        statement_len(statement@) == 0,
    ensures
        open_market_spec(
            accounts,
            statement,
            closes_at,
            initial_liquidity,
            fee_bps,
            now,
            derived_market,
            derived_pool_authority,
            derived_pool_vault,
        ) == Err::<Market, PredictionMarketError>(PredictionMarketError::EmptyStatement),
        PredictionMarketError::EmptyStatement.kind_of() == ErrorKind::InvalidParameter,
{
}

/// A market's address is fixed by its creator and its statement: two creations under
/// one program by the same creator on the same statement, whatever their other
/// parameters, are of the market at one and the same address, with the same pool
/// authority and the same pool vault. So a market cannot be created twice side by side.
pub proof fn law_market_address_is_stable(
    program_id: Pubkey,
    statement: String,
    first: InitializeMarket,
    first_closes_at: i64,
    first_liquidity: u64,
    first_fee_bps: u16,
    first_now: i64,
    first_market: Market,
    second: InitializeMarket,
    second_closes_at: i64,
    second_liquidity: u64,
    second_fee_bps: u16,
    second_now: i64,
    second_market: Market,
)
    requires
        first.authority@ == second.authority@,
        open_market_spec(
            first,
            statement,
            first_closes_at,
            first_liquidity,
            first_fee_bps,
            first_now,
            market_address(program_id@, first.authority@, encode_utf8(statement@)),
            pool_authority_address(program_id@, first.market@),
            pool_vault_address(program_id@, first.market@),
        ) == Ok::<Market, PredictionMarketError>(first_market),
        open_market_spec(
            second,
            statement,
            second_closes_at,
            second_liquidity,
            second_fee_bps,
            second_now,
            market_address(program_id@, second.authority@, encode_utf8(statement@)),
            pool_authority_address(program_id@, second.market@),
            pool_vault_address(program_id@, second.market@),
        ) == Ok::<Market, PredictionMarketError>(second_market),
    ensures
        first_market.market_id == second_market.market_id,
        first_market.key() == second_market.key(),
        first_market.pool_authority == second_market.pool_authority,
        first_market.pool_vault == second_market.pool_vault,
        first_market.bump == second_market.bump,
{
    assert(first.market.bytes =~= second.market.bytes);
    assert(first.pool_authority.bytes =~= second.pool_authority.bytes);
    assert(first.pool_vault.bytes =~= second.pool_vault.bytes);
}

/// Whether the checked steps of a purchase all go through: the fee can be computed and
/// taken off the amount, the product of the reserves fits, and the reserve that is added
/// to fits and is not empty afterwards.
pub open spec fn buy_fits(market: Market, side: Side, amount: u64) -> bool {
    &&& amount * market.fee_bps <= u64::MAX
    &&& fee_of(amount as int, market.fee_bps as int) <= amount
    &&& market.reserve_yes * market.reserve_no <= u64::MAX
    &&& 0 < market.reserve_of(opposite(side)) + net_of_fee(amount as int, market.fee_bps as int)
        <= u64::MAX
}

/// When a purchase is owed and when it is refused, for what. It is accepted exactly when
/// the market takes trades, the amount is positive, the checked steps go through, the
/// reserve of the side holds something and the fee leaves something of the amount.
pub proof fn law_buy_is_owed(market: Market, side: Side, amount: u64, now: i64)
    ensures
        buy_shares_spec(market, side, amount, now) is Ok <==> market.is_trading(now) && amount > 0
            && buy_fits(market, side, amount) && market.reserve_of(side) > 0 && net_of_fee(
            amount as int,
            market.fee_bps as int,
        ) > 0,
        buy_shares_spec(market, side, amount, now) == Err::<(Market, u64), PredictionMarketError>(
            PredictionMarketError::MarketNotActive,
        ) <==> !market.is_trading(now),
        buy_shares_spec(market, side, amount, now) == Err::<(Market, u64), PredictionMarketError>(
            PredictionMarketError::InvalidAmount,
        ) <==> market.is_trading(now) && amount == 0,
        buy_shares_spec(market, side, amount, now) == Err::<(Market, u64), PredictionMarketError>(
            PredictionMarketError::ArithmeticOverflow,
        ) <==> market.is_trading(now) && amount > 0 && !buy_fits(market, side, amount),
        buy_shares_spec(market, side, amount, now) == Err::<(Market, u64), PredictionMarketError>(
            PredictionMarketError::InsufficientOutput,
        ) <==> market.is_trading(now) && amount > 0 && buy_fits(market, side, amount) && (
        market.reserve_of(side) == 0 || net_of_fee(amount as int, market.fee_bps as int) == 0),
        market.fee_bps <= MAX_FEE_BPS ==> fee_of(amount as int, market.fee_bps as int) <= amount,
{
    let fee_bps = market.fee_bps as int;
    let net = net_of_fee(amount as int, fee_bps);
    let added = market.reserve_of(opposite(side)) as int;
    let drawn = market.reserve_of(side) as int;
    lemma_fee_bounds(amount as int, fee_bps);
    lemma_product_commutes(market.reserve_yes as int, market.reserve_no as int);
    if buy_fits(market, side, amount) {
        lemma_drawn_after_bounds(added, drawn, net);
        lemma_step_out(added, drawn, net);
        lemma_covering_is_positive(drawn * net, added + net);
        lemma_product_is_positive(drawn, net);
    }
}

/// Whether the checked steps of a sale all go through: the product of the reserves fits,
/// the reserve of the side fits with the shares, and the fee can be computed and taken
/// off what the curve pays.
pub open spec fn sell_fits(market: Market, side: Side, shares: u64) -> bool {
    &&& market.reserve_yes * market.reserve_no <= u64::MAX
    &&& 0 < market.reserve_of(side) + shares <= u64::MAX
    &&& sell_before_fee(market, side, shares) * market.fee_bps <= u64::MAX
    &&& fee_of(sell_before_fee(market, side, shares), market.fee_bps as int) <= sell_before_fee(
        market,
        side,
        shares,
    )
}

/// What the curve pays for a sale before the fee: the smallest amount whose worth at the
/// new reserve of the side covers the worth of the shares at the opposite reserve.
pub open spec fn sell_before_fee(market: Market, side: Side, shares: u64) -> int {
    units_covering(
        market.reserve_of(opposite(side)) * shares,
        market.reserve_of(side) + shares,
    )
}

/// When a sale is owed and when it is refused, for what. It is accepted exactly when the
/// market takes trades, the number of shares is positive, the checked steps go through
/// and the fee leaves something of what the curve pays; at a fee rate below 10000 basis
/// points that is so exactly when the opposite reserve holds something.
pub proof fn law_sell_is_owed(market: Market, side: Side, shares: u64, now: i64)
    ensures
        sell_shares_spec(market, side, shares, now) is Ok <==> market.is_trading(now) && shares > 0
            && sell_fits(market, side, shares) && net_of_fee(
            sell_before_fee(market, side, shares),
            market.fee_bps as int,
        ) > 0,
        sell_shares_spec(market, side, shares, now) == Err::<(Market, u64), PredictionMarketError>(
            PredictionMarketError::MarketNotActive,
        ) <==> !market.is_trading(now),
        sell_shares_spec(market, side, shares, now) == Err::<(Market, u64), PredictionMarketError>(
            PredictionMarketError::InvalidAmount,
        ) <==> market.is_trading(now) && shares == 0,
        sell_shares_spec(market, side, shares, now) == Err::<(Market, u64), PredictionMarketError>(
            PredictionMarketError::ArithmeticOverflow,
        ) <==> market.is_trading(now) && shares > 0 && !sell_fits(market, side, shares),
        sell_shares_spec(market, side, shares, now) == Err::<(Market, u64), PredictionMarketError>(
            PredictionMarketError::InsufficientOutput,
        ) <==> market.is_trading(now) && shares > 0 && sell_fits(market, side, shares)
            && net_of_fee(sell_before_fee(market, side, shares), market.fee_bps as int) == 0,
        shares > 0 && market.fee_bps < MAX_FEE_BPS ==> (net_of_fee(
            sell_before_fee(market, side, shares),
            market.fee_bps as int,
        ) > 0 <==> market.reserve_of(opposite(side)) > 0),
{
    let fee_bps = market.fee_bps as int;
    let added = market.reserve_of(side) as int;
    let drawn = market.reserve_of(opposite(side)) as int;
    let before = sell_before_fee(market, side, shares);
    lemma_product_commutes(market.reserve_yes as int, market.reserve_no as int);
    if 0 < added + shares {
        lemma_drawn_after_bounds(added, drawn, shares as int);
        lemma_step_out(added, drawn, shares as int);
        lemma_covering_is_positive(drawn * shares, added + shares);
        lemma_product_is_positive(drawn, shares as int);
        lemma_fee_bounds(before, fee_bps);
        if fee_bps < 10000 && before > 0 {
            lemma_fee_below_amount(before, fee_bps);
        }
    }
}

/// At a rate below 10000 basis points the fee leaves something of every positive amount.
proof fn lemma_fee_below_amount(amount: int, fee_bps: int)
    requires
        0 < amount,
        0 <= fee_bps < 10000,
    ensures
        fee_of(amount, fee_bps) < amount,
{
    let p = amount * fee_bps;
    assert(p < amount * 10000) by (nonlinear_arith)
        requires
            0 < amount,
            0 <= fee_bps < 10000,
            p == amount * fee_bps,
    ;
}

/// The number of units that cover a value is positive exactly when the value is.
proof fn lemma_covering_is_positive(value: int, unit: int)
    requires
        0 <= value,
        0 < unit,
    ensures
        0 <= units_covering(value, unit),
        units_covering(value, unit) > 0 <==> value > 0,
{
    lemma_quotient_is_positive(value + unit - 1, unit);
    vstd::arithmetic::div_mod::lemma_div_pos_is_pos(value + unit - 1, unit);
}

/// A product of two numbers that are not negative is positive exactly when both are.
proof fn lemma_product_is_positive(a: int, b: int)
    requires
        0 <= a,
        0 <= b,
    ensures
        0 <= a * b,
        a * b > 0 <==> a > 0 && b > 0,
{
    assert(0 <= a * b && (a * b > 0 <==> a > 0 && b > 0)) by (nonlinear_arith)
        requires
            0 <= a,
            0 <= b,
    ;
}

/// State gating: a market that is not active refuses every purchase and every sale with
/// `MarketNotActive`, and a market that carries an outcome refuses every resolution with
/// `MarketAlreadyResolved`.
pub proof fn law_state_gating(
    market: Market,
    side: Side,
    amount: u64,
    caller: Pubkey,
    outcome: MarketOutcome,
    now: i64,
)
    ensures
        market.state != MarketState::Active ==> buy_shares_spec(market, side, amount, now) == Err::<
            (Market, u64),
            PredictionMarketError,
        >(PredictionMarketError::MarketNotActive),
        market.state != MarketState::Active ==> sell_shares_spec(market, side, amount, now)
            == Err::<(Market, u64), PredictionMarketError>(PredictionMarketError::MarketNotActive),
        market.outcome is Some ==> resolve_market_spec(market, caller, outcome, now) == Err::<
            Market,
            PredictionMarketError,
        >(PredictionMarketError::MarketAlreadyResolved),
        market.state != MarketState::Active ==> resolve_market_spec(market, caller, outcome, now)
            is Err,
{
}

/// At a fee rate of zero a purchase and a sale are the bare curve: the whole amount
/// enters it, and what it pays is paid out in full.
pub proof fn law_zero_fee_is_the_bare_curve(
    side: Side,
    amount: u64,
    reserve_yes: u64,
    reserve_no: u64,
)
    ensures
        calculate_buy_shares_spec(side, amount, reserve_yes, reserve_no, 0) == match side {
            Side::Yes => match curve_step_spec(reserve_no, reserve_yes, amount) {
                Ok(step) => Ok((step.amount_out, step.drawn_reserve, step.added_reserve)),
                Err(e) => Err(e),
            },
            Side::No => match curve_step_spec(reserve_yes, reserve_no, amount) {
                Ok(step) => Ok((step.amount_out, step.added_reserve, step.drawn_reserve)),
                Err(e) => Err(e),
            },
        },
        calculate_sell_shares_spec(side, amount, reserve_yes, reserve_no, 0) == sell_step_spec(
            side,
            amount,
            reserve_yes,
            reserve_no,
        ),
{
    lemma_fee_bounds(amount as int, 0);
    match sell_step_spec(side, amount, reserve_yes, reserve_no) {
        Ok((before_fee, _, _)) => {
            lemma_fee_bounds(before_fee as int, 0);
        },
        Err(_) => {},
    }
}

/// Authority gating: on an active market without an outcome, a caller other than the
/// creator is refused with `Unauthorized` before the close time, and the same call
/// succeeds from the close time on; the creator succeeds at any time.
pub proof fn law_authority_gating(
    market: Market,
    caller: Pubkey,
    outcome: MarketOutcome,
    early: i64,
    late: i64,
)
    requires
        market.state == MarketState::Active,
        market.outcome is None,
        early < market.closes_at <= late,
    ensures
        caller@ != market.authority@ ==> resolve_market_spec(market, caller, outcome, early)
            == Err::<Market, PredictionMarketError>(PredictionMarketError::Unauthorized),
        resolve_market_spec(market, caller, outcome, late) is Ok,
        resolve_market_spec(market, market.authority, outcome, early) is Ok,
        can_resolve_spec(late, market.closes_at, caller, market.authority),
{
}

/// A resolution changes the state and the outcome and nothing else, and it cannot be
/// repeated: the resolved market refuses every further resolution, purchase and sale.
pub proof fn law_resolution_is_final(
    market: Market,
    caller: Pubkey,
    outcome: MarketOutcome,
    now: i64,
    resolved: Market,
    next_caller: Pubkey,
    next_outcome: MarketOutcome,
    side: Side,
    amount: u64,
    later: i64,
)
    requires
        resolve_market_spec(market, caller, outcome, now) == Ok::<Market, PredictionMarketError>(
            resolved,
        ),
    ensures
        resolved == (Market {
            state: MarketState::Resolved,
            outcome: Some(outcome),
            ..market
        }),
        resolved.reserve_yes == market.reserve_yes,
        resolved.reserve_no == market.reserve_no,
        resolved.closes_at == market.closes_at,
        resolve_market_spec(resolved, next_caller, next_outcome, later) == Err::<
            Market,
            PredictionMarketError,
        >(PredictionMarketError::MarketAlreadyResolved),
        buy_shares_spec(resolved, side, amount, later) == Err::<
            (Market, u64),
            PredictionMarketError,
        >(PredictionMarketError::MarketNotActive),
        sell_shares_spec(resolved, side, amount, later) == Err::<
            (Market, u64),
            PredictionMarketError,
        >(PredictionMarketError::MarketNotActive),
{
}

/// A trade changes the two reserves and nothing else: the close time, the fee rate, the
/// state and the outcome are as they were.
pub proof fn law_trades_touch_reserves_only(
    market: Market,
    side: Side,
    amount: u64,
    now: i64,
    after: Market,
    out: u64,
)
    requires
        buy_shares_spec(market, side, amount, now) == Ok::<(Market, u64), PredictionMarketError>(
            (after, out),
        ) || sell_shares_spec(market, side, amount, now) == Ok::<
            (Market, u64),
            PredictionMarketError,
        >((after, out)),
    ensures
        after == (Market { reserve_yes: after.reserve_yes, reserve_no: after.reserve_no, ..market }),
        after.state == MarketState::Active,
        out > 0,
{
}

/// A purchase leaves both reserves with something in them exactly when the product of
/// the reserves before it is at least the reserve that it added to, as it stands after
/// the purchase: a larger purchase rounds the reserve of its side down to nothing.
pub proof fn law_buy_liquidity(
    market: Market,
    side: Side,
    amount: u64,
    now: i64,
    after: Market,
    shares: u64,
)
    requires
        buy_shares_spec(market, side, amount, now) == Ok::<(Market, u64), PredictionMarketError>(
            (after, shares),
        ),
    ensures
        after.reserve_of(opposite(side)) > 0,
        after.has_liquidity() <==> market.reserve_product() >= after.reserve_of(opposite(side)),
{
    let net = net_of_fee(amount as int, market.fee_bps as int);
    let added = market.reserve_of(opposite(side)) as int;
    let drawn = market.reserve_of(side) as int;
    lemma_product_commutes(market.reserve_yes as int, market.reserve_no as int);
    lemma_fee_bounds(amount as int, market.fee_bps as int);
    lemma_drawn_after_bounds(added, drawn, net);
    lemma_quotient_is_positive(drawn * added, added + net);
}

/// A sale leaves both reserves with something in them exactly when the product of the
/// reserves before it is at least the reserve of its side as it stands after the sale.
pub proof fn law_sell_liquidity(
    market: Market,
    side: Side,
    shares: u64,
    now: i64,
    after: Market,
    collateral: u64,
)
    requires
        sell_shares_spec(market, side, shares, now) == Ok::<(Market, u64), PredictionMarketError>(
            (after, collateral),
        ),
    ensures
        after.reserve_of(side) > 0,
        after.has_liquidity() <==> market.reserve_product() >= after.reserve_of(side),
{
    let added = market.reserve_of(side) as int;
    let drawn = market.reserve_of(opposite(side)) as int;
    lemma_product_commutes(market.reserve_yes as int, market.reserve_no as int);
    lemma_drawn_after_bounds(added, drawn, shares as int);
    lemma_quotient_is_positive(drawn * added, added + shares);
}

/// A quotient is positive exactly when the dividend reaches the divisor.
proof fn lemma_quotient_is_positive(x: int, d: int)
    requires
        0 < d,
    ensures
        x / d > 0 <==> x >= d,
{
    vstd::arithmetic::div_mod::lemma_fundamental_div_mod(x, d);
    vstd::arithmetic::div_mod::lemma_mod_bound(x, d);
    let q = x / d;
    assert(q > 0 <==> x >= d) by (nonlinear_arith)
        requires
            x == d * q + x % d,
            0 <= x % d < d,
            0 < d,
    ;
}

/// One trade of a sequence: a purchase of `amount` of collateral, or a sale of `amount`
/// shares, on `side` at the time `now`.
pub struct Trade {
    pub is_sale: bool,
    pub side: Side,
    pub amount: u64,
    pub now: i64,
}

/// The result of one trade on a market.
pub open spec fn trade_spec(market: Market, trade: Trade) -> Result<
    (Market, u64),
    PredictionMarketError,
> {
    if trade.is_sale {
        sell_shares_spec(market, trade.side, trade.amount, trade.now)
    } else {
        buy_shares_spec(market, trade.side, trade.amount, trade.now)
    }
}

/// What the rounding of one trade takes off the product of the reserves.
pub open spec fn trade_rounding(market: Market, trade: Trade) -> int {
    if trade.is_sale {
        sell_rounding(market, trade.side, trade.amount)
    } else {
        buy_rounding(market, trade.side, trade.amount)
    }
}

/// The market after a sequence of trades, each made on the market that the one before
/// left; `None` where one of them is refused.
pub open spec fn after_trades(market: Market, trades: Seq<Trade>) -> Option<Market>
    decreases trades.len(),
{
    if trades.len() == 0 {
        Some(market)
    } else {
        match after_trades(market, trades.drop_last()) {
            None => None,
            Some(before_last) => match trade_spec(before_last, trades.last()) {
                Ok((after, _)) => Some(after),
                Err(_) => None,
            },
        }
    }
}

/// The sum of the roundings of a sequence of trades, each taken on the market that the
/// trades before it left.
pub open spec fn roundings_of_trades(market: Market, trades: Seq<Trade>) -> int
    decreases trades.len(),
{
    if trades.len() == 0 {
        0
    } else {
        match after_trades(market, trades.drop_last()) {
            None => 0,
            Some(before_last) => roundings_of_trades(market, trades.drop_last()) + trade_rounding(
                before_last,
                trades.last(),
            ),
        }
    }
}

/// Over any sequence of trades that are all accepted, the product of the reserves at the
/// end is the product at the start less the roundings of the trades. So it never grows.
pub proof fn law_trades_product(market: Market, trades: Seq<Trade>, after: Market)
    requires
        after_trades(market, trades) == Some(after),
    ensures
        after.reserve_product() == market.reserve_product() - roundings_of_trades(market, trades),
        0 <= roundings_of_trades(market, trades),
        after.reserve_product() <= market.reserve_product(),
    decreases trades.len(),
{
    if trades.len() > 0 {
        let before_last = after_trades(market, trades.drop_last())->0;
        let last = trades.last();
        law_trades_product(market, trades.drop_last(), before_last);
        match trade_spec(before_last, last) {
            Ok((m, out)) => {
                if last.is_sale {
                    law_sell_product(before_last, last.side, last.amount, last.now, m, out);
                } else {
                    law_buy_product(before_last, last.side, last.amount, last.now, m, out);
                }
            },
            Err(_) => {},
        }
    }
}

/// Conservation over a sequence: where no trade of an accepted sequence leaves a
/// remainder in its division, the product of the reserves at the end is at least the
/// product at the start.
pub proof fn law_trades_conservation(market: Market, trades: Seq<Trade>, after: Market)
    requires
        after_trades(market, trades) == Some(after),
        roundings_of_trades(market, trades) == 0,
    ensures
        after.reserve_yes * after.reserve_no >= market.reserve_yes * market.reserve_no,
{
    law_trades_product(market, trades, after);
}

/// The product of two numbers does not depend on their order.
proof fn lemma_product_commutes(a: int, b: int)
    ensures
        a * b == b * a,
{
    assert(a * b == b * a) by (nonlinear_arith);
}

} // verus!
