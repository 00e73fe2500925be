use vstd::prelude::*;
use vstd::string::StringSliceAdditionalSpecFns;
use vstd::utf8::encode_utf8;
use crate::address::{
    address_view, derive_market_address, derive_pool_authority, derive_pool_vault, market_address,
    pool_authority_address, pool_vault_address,
};
use crate::error::PredictionMarketError;
use crate::fee::MAX_FEE_BPS;
use crate::keys::Pubkey;
use crate::pricing::{
    calculate_buy_shares, calculate_buy_shares_spec, calculate_sell_shares,
    calculate_sell_shares_spec, Side,
};

verus! {

/// The longest statement a market may carry, in bytes.
pub const MAX_STATEMENT_LEN: usize = 256;

/// Where a market stands in its life. `Active` is the only state that is ever left.
#[derive(Clone, Copy, Debug, PartialEq, Eq, Structural)]
pub enum MarketState {
    Active,
    Resolved,
    Frozen,
}

/// The side that a resolved market was settled for.
#[derive(Clone, Copy, Debug, PartialEq, Eq, Structural)]
pub enum MarketOutcome {
    Yes,
    No,
}

impl MarketOutcome {
    /// The number that stands for the outcome in an event: 0 for yes, 1 for no.
    pub open spec fn index_of(self) -> u8 {
        match self {
            MarketOutcome::Yes => 0,
            MarketOutcome::No => 1,
        }
    }

    /// The number that stands for the outcome in an event: 0 for yes, 1 for no.
    pub fn index(&self) -> (i: u8)
        ensures
            i == self.index_of(),
    {
        match self {
            MarketOutcome::Yes => 0,
            MarketOutcome::No => 1,
        }
    }
}

/// A binary-outcome market: who created it, what it is about, when trading stops, the
/// two reserves that price its shares, and how it was settled.
#[derive(Clone, Debug, PartialEq, Eq)]
pub struct Market {
    /// The creator, who alone may resolve the market before it closes.
    pub authority: Pubkey,
    /// The agent whose claim the market is about.
    pub agent: Pubkey,
    /// The market's own address.
    pub market_id: [u8; 32],
    /// The statement the market is about.
    pub statement: String,
    /// The time from which trading is closed and anyone may resolve.
    pub closes_at: i64,
    pub reserve_yes: u64,
    pub reserve_no: u64,
    /// The fee rate in basis points.
    pub fee_bps: u16,
    pub yes_mint: Pubkey,
    pub no_mint: Pubkey,
    pub pool_yes_account: Pubkey,
    pub pool_no_account: Pubkey,
    pub pool_vault: Pubkey,
    pub pool_authority: Pubkey,
    pub state: MarketState,
    pub outcome: Option<MarketOutcome>,
    /// The bump seed of the pool authority, with which the market signs for its pool.
    pub bump: u8,
}

/// The addresses that the creation of a market names.
#[derive(Clone, Copy, Debug, PartialEq, Eq)]
pub struct InitializeMarket {
    pub market: Pubkey,
    pub agent: Pubkey,
    pub pool_authority: Pubkey,
    pub yes_mint: Pubkey,
    pub no_mint: Pubkey,
    pub pool_yes_account: Pubkey,
    pub pool_no_account: Pubkey,
    pub pool_vault: Pubkey,
    pub authority: Pubkey,
}

/// Told when a market was created.
#[derive(Clone, Debug, PartialEq, Eq)]
pub struct MarketCreated {
    pub market: Pubkey,
    pub agent: Pubkey,
    pub statement: String,
    pub closes_at: i64,
    pub initial_liquidity: u64,
}

/// Told when shares were bought: `amount` of collateral is owed to the pool and `shares`
/// of the side are owed to the buyer.
#[derive(Clone, Copy, Debug, PartialEq, Eq)]
pub struct SharesBought {
    pub market: Pubkey,
    pub buyer: Pubkey,
    pub side: u8,
    pub amount: u64,
    pub shares: u64,
    pub new_reserve_yes: u64,
    pub new_reserve_no: u64,
}

/// Told when shares were sold: `shares` of the side are to be burnt and `sol_out` of
/// collateral is owed to the seller.
#[derive(Clone, Copy, Debug, PartialEq, Eq)]
pub struct SharesSold {
    pub market: Pubkey,
    pub seller: Pubkey,
    pub side: u8,
    pub shares: u64,
    pub sol_out: u64,
    pub new_reserve_yes: u64,
    pub new_reserve_no: u64,
}

/// Told when a market was resolved.
#[derive(Clone, Copy, Debug, PartialEq, Eq)]
pub struct MarketResolved {
    pub market: Pubkey,
    pub outcome: u8,
}

/// The length of a statement in bytes.
pub open spec fn statement_len(statement: Seq<char>) -> nat {
    encode_utf8(statement).len()
}

/// Who may resolve: anyone from the close time on, the creator at any time.
pub open spec fn can_resolve_spec(now: i64, close_time: i64, caller: Pubkey, creator: Pubkey)
    -> bool {
    now >= close_time || caller@ == creator@
}

/// Whether `caller` may resolve at `now` a market that closes at `close_time` and was
/// created by `creator`.
pub fn can_resolve(now: i64, close_time: i64, caller: &Pubkey, creator: &Pubkey) -> (allowed: bool)
    ensures
        allowed == can_resolve_spec(now, close_time, *caller, *creator),
{
    now >= close_time || *caller == *creator
}

/// What the parameters of a new market are refused for, in the order in which they are
/// looked at: a statement that is empty, one that is too long, the close time, the fee
/// rate, the liquidity.
pub open spec fn validate_market_params_spec(
    statement: Seq<char>,
    closes_at: i64,
    initial_liquidity: u64,
    fee_bps: u16,
    now: i64,
) -> Result<(), PredictionMarketError> {
    if statement_len(statement) == 0 {
        Err(PredictionMarketError::EmptyStatement)
    } else if statement_len(statement) > MAX_STATEMENT_LEN {
        Err(PredictionMarketError::StatementTooLong)
    } else if closes_at <= now {
        Err(PredictionMarketError::InvalidCloseTime)
    } else if fee_bps > MAX_FEE_BPS {
        Err(PredictionMarketError::InvalidFee)
    } else if initial_liquidity == 0 {
        Err(PredictionMarketError::InvalidAmount)
    } else {
        Ok(())
    }
}

/// Whether a derived address is there and is `address`.
pub open spec fn matches_derived(address: Pubkey, derived: Option<(Seq<u8>, u8)>) -> bool {
    match derived {
        Some((expected, _)) => expected == address@,
        None => false,
    }
}

/// The bump seed that came with a derived address, 0 where there is none.
pub open spec fn derived_bump(derived: Option<(Seq<u8>, u8)>) -> u8 {
    match derived {
        Some((_, bump)) => bump,
        None => 0,
    }
}

/// The market that a creation yields, given the three addresses derived for it: the
/// parameters are validated first, then the market's address, the pool authority and the
/// pool vault are held against their derived addresses. The reserves are seeded with half
/// of the liquidity each, rounded down.
pub open spec fn open_market_spec(
    accounts: InitializeMarket,
    statement: String,
    closes_at: i64,
    initial_liquidity: u64,
    fee_bps: u16,
    now: i64,
    derived_market: Option<(Seq<u8>, u8)>,
    derived_pool_authority: Option<(Seq<u8>, u8)>,
    derived_pool_vault: Option<(Seq<u8>, u8)>,
) -> Result<Market, PredictionMarketError> {
    match validate_market_params_spec(statement@, closes_at, initial_liquidity, fee_bps, now) {
        Err(e) => Err(e),
        Ok(_) => if !matches_derived(accounts.market, derived_market) || !matches_derived(
            accounts.pool_authority,
            derived_pool_authority,
        ) || !matches_derived(accounts.pool_vault, derived_pool_vault) {
            Err(PredictionMarketError::InvalidMarketReference)
        } else {
            Ok(
                Market {
                    authority: accounts.authority,
                    agent: accounts.agent,
                    market_id: accounts.market.bytes,
                    statement: statement,
                    closes_at: closes_at,
                    reserve_yes: initial_liquidity / 2,
                    reserve_no: initial_liquidity / 2,
                    fee_bps: fee_bps,
                    yes_mint: accounts.yes_mint,
                    no_mint: accounts.no_mint,
                    pool_yes_account: accounts.pool_yes_account,
                    pool_no_account: accounts.pool_no_account,
                    pool_vault: accounts.pool_vault,
                    pool_authority: accounts.pool_authority,
                    state: MarketState::Active,
                    outcome: None,
                    bump: derived_bump(derived_pool_authority),
                },
            )
        },
    }
}

/// The event that tells of the creation of `market` with `initial_liquidity`.
pub open spec fn market_created_event(market: Market, initial_liquidity: u64) -> MarketCreated {
    MarketCreated {
        market: market.key(),
        agent: market.agent,
        statement: market.statement,
        closes_at: market.closes_at,
        initial_liquidity: initial_liquidity,
    }
}

/// The result of a purchase on a market: the market after it and the shares handed out.
/// The market has to be active and open for trading, the amount positive, the pricing
/// free of overflow and the shares handed out more than none.
pub open spec fn buy_shares_spec(market: Market, side: Side, amount: u64, now: i64) -> Result<
    (Market, u64),
    PredictionMarketError,
> {
    if !market.is_trading(now) {
        Err(PredictionMarketError::MarketNotActive)
    } else if amount == 0 {
        Err(PredictionMarketError::InvalidAmount)
    } else {
        match calculate_buy_shares_spec(
            side,
            amount,
            market.reserve_yes,
            market.reserve_no,
            market.fee_bps,
        ) {
            Err(e) => Err(e),
            Ok((shares, reserve_yes, reserve_no)) => if shares == 0 {
                Err(PredictionMarketError::InsufficientOutput)
            } else {
                Ok((Market { reserve_yes: reserve_yes, reserve_no: reserve_no, ..market }, shares))
            },
        }
    }
}

/// The result of a sale on a market: the market after it and the collateral paid out.
/// The market has to be active and open for trading, the number of shares positive, the
/// pricing free of overflow and the payout after the fee more than nothing.
pub open spec fn sell_shares_spec(market: Market, side: Side, shares: u64, now: i64) -> Result<
    (Market, u64),
    PredictionMarketError,
> {
    if !market.is_trading(now) {
        Err(PredictionMarketError::MarketNotActive)
    } else if shares == 0 {
        Err(PredictionMarketError::InvalidAmount)
    } else {
        match calculate_sell_shares_spec(
            side,
            shares,
            market.reserve_yes,
            market.reserve_no,
            market.fee_bps,
        ) {
            Err(e) => Err(e),
            Ok((collateral, reserve_yes, reserve_no)) => if collateral == 0 {
                Err(PredictionMarketError::InsufficientOutput)
            } else {
                Ok(
                    (
                        Market { reserve_yes: reserve_yes, reserve_no: reserve_no, ..market },
                        collateral,
                    ),
                )
            },
        }
    }
}

/// The market after `caller` resolves it to `outcome` at `now`. A market that carries an
/// outcome is refused first, then one that is not active, then a caller who may not
/// resolve yet. The reserves stay as they are.
pub open spec fn resolve_market_spec(
    market: Market,
    caller: Pubkey,
    outcome: MarketOutcome,
    now: i64,
) -> Result<Market, PredictionMarketError> {
    if market.outcome is Some {
        Err(PredictionMarketError::MarketAlreadyResolved)
    } else if market.state != MarketState::Active {
        Err(PredictionMarketError::MarketNotActive)
    } else if !can_resolve_spec(now, market.closes_at, caller, market.authority) {
        Err(PredictionMarketError::Unauthorized)
    } else {
        Ok(Market { state: MarketState::Resolved, outcome: Some(outcome), ..market })
    }
}

impl Market {
    /// What holds of every market that was created here and changed only by the
    /// operations of this module: the fee rate is at most 10000 basis points, the
    /// statement is not empty and at most 256 bytes long, and the market carries an
    /// outcome exactly when it is resolved.
    pub open spec fn wf(self) -> bool {
        &&& self.fee_bps <= MAX_FEE_BPS
        &&& 0 < statement_len(self.statement@) <= MAX_STATEMENT_LEN
        &&& self.outcome is Some <==> self.state == MarketState::Resolved
    }

    /// Whether both reserves hold something. A trade that is large against the reserves
    /// can round the reserve it draws from down to nothing, so this is not kept by every
    /// trade; `laws` says by which.
    pub open spec fn has_liquidity(self) -> bool {
        self.reserve_yes > 0 && self.reserve_no > 0
    }

    /// The market's own address.
    pub open spec fn key(self) -> Pubkey {
        Pubkey { bytes: self.market_id }
    }

    /// Whether the market takes trades at `now`: it is active and has not closed.
    pub open spec fn is_trading(self, now: i64) -> bool {
        self.state == MarketState::Active && now < self.closes_at
    }

    /// The product of the two reserves.
    pub open spec fn reserve_product(self) -> int {
        self.reserve_yes * self.reserve_no
    }

    /// The reserve of `side`: a purchase on that side draws from it, a sale adds to it.
    pub open spec fn reserve_of(self, side: Side) -> u64 {
        match side {
            Side::Yes => self.reserve_yes,
            Side::No => self.reserve_no,
        }
    }

    /// The mint of the shares of `side`.
    pub open spec fn mint_of(self, side: Side) -> Pubkey {
        match side {
            Side::Yes => self.yes_mint,
            Side::No => self.no_mint,
        }
    }

    /// The mint whose shares a trade on `side` mints or burns.
    pub fn mint_for(&self, side: Side) -> (mint: Pubkey)
        ensures
            mint == self.mint_of(side),
    {
        match side {
            Side::Yes => self.yes_mint,
            Side::No => self.no_mint,
        }
    }

    /// Refuses a market that is not active.
    pub fn require_active(&self) -> (res: Result<(), PredictionMarketError>)
        ensures
            res == if self.state == MarketState::Active {
                Ok::<(), PredictionMarketError>(())
            } else {
                Err::<(), PredictionMarketError>(PredictionMarketError::MarketNotActive)
            },
    {
        match self.state {
            MarketState::Active => Ok(()),
            _ => Err(PredictionMarketError::MarketNotActive),
        }
    }

    /// Refuses a market that does not take trades at `now`.
    pub fn require_trading(&self, now: i64) -> (res: Result<(), PredictionMarketError>)
        ensures
            res == if self.is_trading(now) {
                Ok::<(), PredictionMarketError>(())
            } else {
                Err::<(), PredictionMarketError>(PredictionMarketError::MarketNotActive)
            },
    {
        self.require_active()?;
        if now >= self.closes_at {
            return Err(PredictionMarketError::MarketNotActive);
        }
        Ok(())
    }

    /// Refuses a caller who may not resolve the market at `now`.
    pub fn require_authority(&self, caller: &Pubkey, now: i64) -> (res: Result<
        (),
        PredictionMarketError,
    >)
        ensures
            res == if can_resolve_spec(now, self.closes_at, *caller, self.authority) {
                Ok::<(), PredictionMarketError>(())
            } else {
                Err::<(), PredictionMarketError>(PredictionMarketError::Unauthorized)
            },
    {
        if can_resolve(now, self.closes_at, caller, &self.authority) {
            Ok(())
        } else {
            Err(PredictionMarketError::Unauthorized)
        }
    }
}

/// Validates the parameters of a new market: the statement is not empty and at most 256
/// bytes long, the close time lies strictly after `now`, the fee rate is at most 10000
/// basis points and the liquidity is positive.
pub fn validate_market_params(
    statement: &str,
    closes_at: i64,
    initial_liquidity: u64,
    fee_bps: u16,
    now: i64,
) -> (res: Result<(), PredictionMarketError>)
    ensures
        res == validate_market_params_spec(statement@, closes_at, initial_liquidity, fee_bps, now),
{
    let statement_len = statement.as_bytes().len();
    if statement_len == 0 {
        return Err(PredictionMarketError::EmptyStatement);
    }
    if statement_len > MAX_STATEMENT_LEN {
        return Err(PredictionMarketError::StatementTooLong);
    }
    if closes_at <= now {
        return Err(PredictionMarketError::InvalidCloseTime);
    }
    if fee_bps > MAX_FEE_BPS {
        return Err(PredictionMarketError::InvalidFee);
    }
    if initial_liquidity == 0 {
        return Err(PredictionMarketError::InvalidAmount);
    }
    Ok(())
}

/// Whether `derived` holds an address and that address is `address`.
fn check_derived(address: &Pubkey, derived: &Option<(Pubkey, u8)>) -> (ok: bool)
    ensures
        ok == matches_derived(*address, address_view(*derived)),
{
    match derived {
        Some((expected, _)) => *address == *expected,
        None => false,
    }
}

/// Creates a market from its parameters and the three addresses that were derived for
/// it. Returns the new market, active and without an outcome, with the event that tells
/// of it; or the error for the first parameter that is refused; or
/// `InvalidMarketReference` where the market, the pool authority or the pool vault is not
/// at its derived address. Each reserve is seeded with half of the liquidity, rounded
/// down, so a liquidity of one leaves both reserves empty.
pub fn open_market(
    accounts: &InitializeMarket,
    statement: String,
    closes_at: i64,
    initial_liquidity: u64,
    fee_bps: u16,
    now: i64,
    derived_market: Option<(Pubkey, u8)>,
    derived_pool_authority: Option<(Pubkey, u8)>,
    derived_pool_vault: Option<(Pubkey, u8)>,
) -> (res: Result<(Market, MarketCreated), PredictionMarketError>)
    ensures
        match res {
            Ok((market, event)) => {
                &&& open_market_spec(
                    *accounts,
                    statement,
                    closes_at,
                    initial_liquidity,
                    fee_bps,
                    now,
                    address_view(derived_market),
                    address_view(derived_pool_authority),
                    address_view(derived_pool_vault),
                ) == Ok::<Market, PredictionMarketError>(market)
                &&& event == market_created_event(market, initial_liquidity)
                &&& market.wf()
                &&& market.has_liquidity() <==> initial_liquidity >= 2
            },
            Err(e) => open_market_spec(
                *accounts,
                statement,
                closes_at,
                initial_liquidity,
                fee_bps,
                now,
                address_view(derived_market),
                address_view(derived_pool_authority),
                address_view(derived_pool_vault),
            ) == Err::<Market, PredictionMarketError>(e),
        },
{
    validate_market_params(statement.as_str(), closes_at, initial_liquidity, fee_bps, now)?;
    if !check_derived(&accounts.market, &derived_market) {
        return Err(PredictionMarketError::InvalidMarketReference);
    }
    if !check_derived(&accounts.pool_authority, &derived_pool_authority) {
        return Err(PredictionMarketError::InvalidMarketReference);
    }
    if !check_derived(&accounts.pool_vault, &derived_pool_vault) {
        return Err(PredictionMarketError::InvalidMarketReference);
    }
    let bump = match derived_pool_authority {
        Some((_, bump)) => bump,
        None => 0,
    };
    let half_liquidity = initial_liquidity / 2;
    let event = MarketCreated {
        market: accounts.market,
        agent: accounts.agent,
        statement: statement.clone(),
        closes_at,
        initial_liquidity,
    };
    let market = Market {
        authority: accounts.authority,
        agent: accounts.agent,
        market_id: accounts.market.bytes,
        statement,
        closes_at,
        reserve_yes: half_liquidity,
        reserve_no: half_liquidity,
        fee_bps,
        yes_mint: accounts.yes_mint,
        no_mint: accounts.no_mint,
        pool_yes_account: accounts.pool_yes_account,
        pool_no_account: accounts.pool_no_account,
        pool_vault: accounts.pool_vault,
        pool_authority: accounts.pool_authority,
        state: MarketState::Active,
        outcome: None,
        bump,
    };
    Ok((market, event))
}

/// Creates a market under the program `program_id`. The market's address has to be the
/// one derived from the creator and the statement, and the pool authority and the pool
/// vault the ones derived from the market's address; the rest is as in `open_market`.
pub fn initialize_market(
    program_id: &Pubkey,
    accounts: &InitializeMarket,
    statement: String,
    closes_at: i64,
    initial_liquidity: u64,
    fee_bps: u16,
    now: i64,
) -> (res: Result<(Market, MarketCreated), PredictionMarketError>)
    ensures
        match res {
            Ok((market, event)) => {
                &&& open_market_spec(
                    *accounts,
                    statement,
                    closes_at,
                    initial_liquidity,
                    fee_bps,
                    now,
                    market_address(
                        program_id@,
                        accounts.authority@,
                        encode_utf8(statement@),
                    ),
                    pool_authority_address(program_id@, accounts.market@),
                    pool_vault_address(program_id@, accounts.market@),
                ) == Ok::<Market, PredictionMarketError>(market)
                &&& event == market_created_event(market, initial_liquidity)
                &&& market.wf()
                &&& market.has_liquidity() <==> initial_liquidity >= 2
            },
            Err(e) => open_market_spec(
                *accounts,
                statement,
                closes_at,
                initial_liquidity,
                fee_bps,
                now,
                market_address(program_id@, accounts.authority@, encode_utf8(statement@)),
                pool_authority_address(program_id@, accounts.market@),
                pool_vault_address(program_id@, accounts.market@),
            ) == Err::<Market, PredictionMarketError>(e),
        },
{
    validate_market_params(statement.as_str(), closes_at, initial_liquidity, fee_bps, now)?;
    let derived_market = derive_market_address(program_id, &accounts.authority, statement.as_str());
    let derived_pool_authority = derive_pool_authority(program_id, &accounts.market);
    let derived_pool_vault = derive_pool_vault(program_id, &accounts.market);
    open_market(
        accounts,
        statement,
        closes_at,
        initial_liquidity,
        fee_bps,
        now,
        derived_market,
        derived_pool_authority,
        derived_pool_vault,
    )
}

/// Buys shares of `side` for `amount` of collateral at `now`. On success the reserves
/// are updated and the event says what is owed to whom; on failure the market is as it
/// was. A market that is not active, or has closed, gives `MarketNotActive`; an amount of
/// zero `InvalidAmount`; a failed arithmetic step `ArithmeticOverflow`; a purchase that
/// would hand out no share `InsufficientOutput`.
pub fn buy_shares(market: &mut Market, buyer: Pubkey, side: Side, amount: u64, now: i64) -> (res:
    Result<SharesBought, PredictionMarketError>)
    ensures
        match res {
            Ok(event) => {
                &&& buy_shares_spec(*old(market), side, amount, now) == Ok::<
                    (Market, u64),
                    PredictionMarketError,
                >((*final(market), event.shares))
                &&& event == (SharesBought {
                    market: old(market).key(),
                    buyer: buyer,
                    side: side.index_of(),
                    amount: amount,
                    shares: event.shares,
                    new_reserve_yes: final(market).reserve_yes,
                    new_reserve_no: final(market).reserve_no,
                })
            },
            Err(e) => {
                &&& buy_shares_spec(*old(market), side, amount, now) == Err::<
                    (Market, u64),
                    PredictionMarketError,
                >(e)
                &&& *final(market) == *old(market)
            },
        },
        old(market).wf() ==> final(market).wf(),
{
    market.require_trading(now)?;
    if amount == 0 {
        return Err(PredictionMarketError::InvalidAmount);
    }
    let (shares_out, new_reserve_yes, new_reserve_no) = calculate_buy_shares(
        side,
        amount,
        market.reserve_yes,
        market.reserve_no,
        market.fee_bps,
    )?;
    if shares_out == 0 {
        return Err(PredictionMarketError::InsufficientOutput);
    }
    market.reserve_yes = new_reserve_yes;
    market.reserve_no = new_reserve_no;
    Ok(
        SharesBought {
            market: Pubkey { bytes: market.market_id },
            buyer,
            side: side.index(),
            amount,
            shares: shares_out,
            new_reserve_yes,
            new_reserve_no,
        },
    )
}

/// Sells `shares` shares of `side` at `now`. On success the reserves are updated and the
/// event says what is owed to whom; on failure the market is as it was. A market that is
/// not active, or has closed, gives `MarketNotActive`; a number of zero shares
/// `InvalidAmount`; a failed arithmetic step `ArithmeticOverflow`; a sale that would pay
/// out nothing after the fee `InsufficientOutput`.
pub fn sell_shares(market: &mut Market, seller: Pubkey, side: Side, shares: u64, now: i64) -> (res:
    Result<SharesSold, PredictionMarketError>)
    ensures
        match res {
            Ok(event) => {
                &&& sell_shares_spec(*old(market), side, shares, now) == Ok::<
                    (Market, u64),
                    PredictionMarketError,
                >((*final(market), event.sol_out))
                &&& event == (SharesSold {
                    market: old(market).key(),
                    seller: seller,
                    side: side.index_of(),
                    shares: shares,
                    sol_out: event.sol_out,
                    new_reserve_yes: final(market).reserve_yes,
                    new_reserve_no: final(market).reserve_no,
                })
            },
            Err(e) => {
                &&& sell_shares_spec(*old(market), side, shares, now) == Err::<
                    (Market, u64),
                    PredictionMarketError,
                >(e)
                &&& *final(market) == *old(market)
            },
        },
        old(market).wf() ==> final(market).wf(),
{
    market.require_trading(now)?;
    if shares == 0 {
        return Err(PredictionMarketError::InvalidAmount);
    }
    let (sol_out, new_reserve_yes, new_reserve_no) = calculate_sell_shares(
        side,
        shares,
        market.reserve_yes,
        market.reserve_no,
        market.fee_bps,
    )?;
    if sol_out == 0 {
        return Err(PredictionMarketError::InsufficientOutput);
    }
    market.reserve_yes = new_reserve_yes;
    market.reserve_no = new_reserve_no;
    Ok(
        SharesSold {
            market: Pubkey { bytes: market.market_id },
            seller,
            side: side.index(),
            shares,
            sol_out,
            new_reserve_yes,
            new_reserve_no,
        },
    )
}

/// Resolves the market to `outcome` on behalf of `caller` at `now`. On success the market
/// is resolved and carries the outcome, and nothing else has changed; on failure the
/// market is as it was. A market that carries an outcome gives `MarketAlreadyResolved`;
/// one that is not active `MarketNotActive`; a caller other than the creator before the
/// close time `Unauthorized`.
pub fn resolve_market(market: &mut Market, caller: &Pubkey, outcome: MarketOutcome, now: i64) -> (res:
    Result<MarketResolved, PredictionMarketError>)
    ensures
        match res {
            Ok(event) => {
                &&& resolve_market_spec(*old(market), *caller, outcome, now) == Ok::<
                    Market,
                    PredictionMarketError,
                >(*final(market))
                &&& event == (MarketResolved {
                    market: old(market).key(),
                    outcome: outcome.index_of(),
                })
            },
            Err(e) => {
                &&& resolve_market_spec(*old(market), *caller, outcome, now) == Err::<
                    Market,
                    PredictionMarketError,
                >(e)
                &&& *final(market) == *old(market)
            },
        },
        old(market).wf() ==> final(market).wf(),
{
    if market.outcome.is_some() {
        return Err(PredictionMarketError::MarketAlreadyResolved);
    }
    market.require_active()?;
    market.require_authority(caller, now)?;
    market.outcome = Some(outcome);
    market.state = MarketState::Resolved;
    Ok(MarketResolved { market: Pubkey { bytes: market.market_id }, outcome: outcome.index() })
}

} // verus!
