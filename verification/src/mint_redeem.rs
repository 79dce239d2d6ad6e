//! The CSM core: mint and redeem EUTC against registered collateral, with
//! fees, the daily redemption and mint-velocity windows, the per-address
//! redemption cap, the dynamic spread, the flash fee and the solvency
//! governor; plus the admin surface and the diagnostics queries.

use vstd::prelude::*;
use crate::types::{
    CollateralState, CollateralType, ConfigResponse, Decimal, OracleMode, Params, PriceResponse,
    ProtocolInfo, ProtocolStatus, Slots, StateResponse, DECIMAL_FRACTIONAL, default_params,
    params_error,
};
use crate::math::{
    checked_multiply_ratio, decimal_text, decimal_to_string, multiply_ratio, mul_div,
    lemma_mul_div_floor, lemma_mul_div_monotonic, lemma_mul_div_share_le, BPS,
};
use crate::consensus::{cross_rate, cross_rate_spec, ExchangeRatesQueryResponse};
use crate::oracle::{fresh, is_fresh, OraclePrice};

verus! {

/// Seconds per accounting day.
pub const DAY_SECS: u64 = 86_400u64;

/// Euro ballot denom: the base of consensus cross rates.
pub const CONSENSUS_BASE_DENOM: &'static str = "ueur";

/// Dollar ballot denom: the quote for the USDC rate.
pub const CONSENSUS_USD_DENOM: &'static str = "uusd";

/// The accounting day of a block time.
pub open spec fn day_of(time: u64) -> u64 {
    time / DAY_SECS
}

/// The accounting day of a block time.
pub fn current_day(time: u64) -> (r: u64)
    ensures
        r == day_of(time),
{
    time / DAY_SECS
}

/// Block data a handler reads.
#[derive(Clone, Copy, Debug, PartialEq, Eq, Structural)]
pub struct BlockEnv {
    pub height: u64,
    /// Block time in seconds.
    pub time: u64,
}

/// Core configuration: the wired contracts and the price source.
#[derive(Clone, Debug, PartialEq, Eq)]
pub struct Config {
    pub admin: String,
    pub eutc_token: String,
    pub vault: String,
    pub reserve: String,
    pub oracle: Option<String>,
    pub oracle_mode: OracleMode,
}

/// Total supply at the start of an accounting day.
#[derive(Clone, Copy, Debug, PartialEq, Eq, Structural)]
pub struct DaySnapshot {
    pub day: u64,
    pub supply: u128,
}

/// The core's state that is not keyed by user address. Per-address entries
/// (last mint, redeemed today) are supplied to and returned from the
/// handlers that read or write them.
#[derive(Clone, Debug, PartialEq, Eq)]
pub struct CoreState {
    pub config: Config,
    pub params: Params,
    pub status: ProtocolStatus,
    /// Registered cw20 per collateral type.
    pub tokens: Slots<String>,
    /// Per-collateral accounting.
    pub collateral: Slots<CollateralState>,
    /// (day, EUTC minted that day) per collateral.
    pub mint_windows: Slots<(u64, u128)>,
    /// (day, EUTC redeemed that day).
    pub redeem_window: Option<(u64, u128)>,
    /// Day-start supply snapshot.
    pub day_supply: Option<DaySnapshot>,
}

/// Arithmetic step whose checked computation failed.
#[derive(Clone, Copy, Debug, PartialEq, Eq, Structural)]
pub enum MathStep {
    Rate,
    Fee,
    Cap,
}

/// Places where a computation leaves the 128-bit range and the contract
/// aborts the transaction instead of returning an error.
#[derive(Clone, Copy, Debug, PartialEq, Eq, Structural)]
pub enum AbortAt {
    /// Computing the aggregate primary ratio.
    Ratio,
    /// Adding to a per-collateral ledger.
    Ledger,
    /// Scaling the redemption window utilization to basis points.
    Utilization,
    /// Summing balances for the diagnostics answer.
    Diagnostics,
}

/// Why the core refused a message.
#[derive(Clone, Debug, PartialEq, Eq)]
pub enum ContractError {
    /// A dependency failed: an address validation or a query; the text is its message.
    Std(String),
    Unauthorized,
    UnsupportedHook,
    CollateralNotRegistered { collateral: CollateralType },
    NotEutc,
    MintPaused,
    RedeemPaused,
    ZeroAmount,
    OracleMissing,
    OracleStale { collateral: CollateralType },
    InvalidParams(String),
    DailyCapExceeded { remaining: u128 },
    PerAddressCapExceeded { remaining: u128 },
    MintCapExceeded { collateral: CollateralType, remaining: u128 },
    RatioBelowFloor { current_bps: u128, required_bps: u128 },
    InsufficientCollateral { available: u128, requested: u128 },
    /// A checked ratio computation failed.
    MathOverflow(MathStep),
    /// The contract aborts (panics) here.
    Abort(AbortAt),
}

/// Hook delivered via cw20 Send into the core.
#[derive(Clone, Copy, Debug, PartialEq, Eq, Structural)]
pub enum HookMsg {
    /// `amount` of the named collateral backs new EUTC.
    Mint { collateral_type: CollateralType },
    /// `amount` of EUTC is burned; payout is drawn from the named pool.
    Redeem { collateral_type: CollateralType },
}

/// Core instantiation message.
#[derive(Clone, Debug, PartialEq, Eq)]
pub struct InstantiateMsg {
    pub admin: String,
    pub eutc_token: String,
    pub vault: String,
    pub reserve: String,
    pub oracle: Option<String>,
    pub oracle_mode: Option<OracleMode>,
    pub params: Option<Params>,
}

/// What the chain answered to the price queries of a handler.
#[derive(Debug, PartialEq, Eq)]
pub struct RateInputs {
    /// Answer to the consensus `exchange_rates` query for the USD quote over
    /// the euro base; `None` when the query failed or did not parse.
    pub consensus_usd: Option<ExchangeRatesQueryResponse>,
    /// Answer of the configured adapter to `Price { quote }`, or the query
    /// error's message.
    pub adapter_price: Result<OraclePrice, String>,
}

/// The hook a cw20 Send carries.
#[derive(Clone, Copy, Debug, PartialEq, Eq, Structural)]
pub enum SendHook {
    /// Custody deposit into the vault.
    VaultDeposit,
    /// Fee deposit into the reserve.
    ReserveDeposit,
}

/// A message the core emits.
#[derive(Clone, Debug, PartialEq, Eq)]
pub enum CoreMsg {
    /// cw20 `Send` of `amount` of `token` to `contract` with `hook`.
    Send { token: String, contract: String, amount: u128, hook: SendHook },
    /// cw20 `Mint` of EUTC.
    Mint { token: String, recipient: String, amount: u128 },
    /// cw20 `Burn` of EUTC held by the core.
    Burn { token: String, amount: u128 },
    /// Vault `Withdraw`: release `amount` of `token` to `to`; with a
    /// reserve-deposit hook when `to_reserve`.
    Withdraw { vault: String, to: String, token: String, amount: u128, to_reserve: bool },
}

/// A successful mint.
#[derive(Debug, PartialEq, Eq)]
pub struct MintOutcome {
    pub collateral: CollateralType,
    pub collateral_in: u128,
    pub eutc_minted: u128,
    pub fee: u128,
    pub to_vault: u128,
    pub day: u64,
    /// New last-mint entry (height, amount) of the minter.
    pub last_mint: (u64, u128),
    pub messages: Vec<CoreMsg>,
}

/// A successful redemption.
#[derive(Debug, PartialEq, Eq)]
pub struct RedeemOutcome {
    pub collateral: CollateralType,
    pub eutc_burned: u128,
    /// Collateral released from custody (payout plus fee).
    pub collateral_out: u128,
    pub payout: u128,
    pub fee: u128,
    pub effective_fee_bps: u64,
    pub flash_fee: bool,
    pub day: u64,
    /// New redeemed-today entry of the redeemer for `day`.
    pub addr_redeemed: u128,
    pub messages: Vec<CoreMsg>,
}

/// A successful cw20 receive.
#[derive(Debug, PartialEq, Eq)]
pub enum ReceiveOutcome {
    Minted(MintOutcome),
    Redeemed(RedeemOutcome),
}

/// The quantities a mint is decided on.
#[derive(Clone, Copy, Debug, PartialEq, Eq, Structural)]
pub struct MintQuote {
    pub rate: u128,
    pub eutc_minted: u128,
    pub fee: u128,
    pub to_vault: u128,
    pub day: u64,
    pub supply: u128,
    pub snapshot: Option<DaySnapshot>,
    pub minted_today: u128,
}

/// The quantities a redemption is decided on.
#[derive(Clone, Copy, Debug, PartialEq, Eq, Structural)]
pub struct RedeemQuote {
    pub day: u64,
    pub supply: u128,
    pub snapshot: Option<DaySnapshot>,
    pub redeemed_today: u128,
    pub addr_used: u128,
    pub daily_cap: u128,
    pub rate: u128,
    pub collateral_units: u128,
    pub effective_fee_bps: u64,
    pub flash_fee: bool,
    pub fee: u128,
    pub payout: u128,
}

/// Mint fee premium for a collateral type.
pub open spec fn premium_bps(params: Params, c: CollateralType) -> u64 {
    match c {
        CollateralType::Usdc => params.usdc_premium_bps,
        CollateralType::Eurc => 0,
    }
}

/// Consensus rate for a collateral: EURC is 1:1 by denomination; USDC takes
/// the USD-per-EUR cross rate of the chain's answer, when present and
/// non-zero.
pub open spec fn consensus_rate_spec(
    c: CollateralType,
    answer: Option<ExchangeRatesQueryResponse>,
) -> Option<u128> {
    match c {
        CollateralType::Eurc => Some(DECIMAL_FRACTIONAL),
        CollateralType::Usdc => match answer {
            Some(resp) => match cross_rate_spec(resp.exchange_rates@, CONSENSUS_USD_DENOM@) {
                Some(a) => if a != 0 {
                    Some(a)
                } else {
                    None
                },
                None => None,
            },
            None => None,
        },
    }
}

/// Collateral units per EUTC, in 18-decimal atomics: the consensus rate in
/// `ConsensusPrimary` mode when it is available, else the adapter's price,
/// which must exist, be non-zero and be fresh.
pub open spec fn oracle_rate_spec(
    config: Config,
    params: Params,
    c: CollateralType,
    inputs: RateInputs,
    now: u64,
) -> Result<u128, ContractError> {
    if config.oracle_mode == OracleMode::ConsensusPrimary && consensus_rate_spec(
        c,
        inputs.consensus_usd,
    ) is Some {
        Ok(consensus_rate_spec(c, inputs.consensus_usd)->0)
    } else if config.oracle is None {
        Err(ContractError::OracleMissing)
    } else {
        match inputs.adapter_price {
            Err(e) => Err(ContractError::Std(e)),
            Ok(p) => if p.units_per_eutc.0 == 0 || !fresh(p.updated_at, now, params.oracle_stale_secs) {
                Err(ContractError::OracleStale { collateral: c })
            } else {
                Ok(p.units_per_eutc.0)
            },
        }
    }
}

/// Chain-consensus rate for a collateral (see `consensus_rate_spec`).
pub fn consensus_rate(c: CollateralType, answer: &Option<ExchangeRatesQueryResponse>) -> (r:
    Option<u128>)
    ensures
        r == consensus_rate_spec(c, *answer),
{
    match c {
        CollateralType::Eurc => Some(Decimal::one().atomics()),
        CollateralType::Usdc => match answer {
            Some(resp) => match cross_rate(resp, CONSENSUS_USD_DENOM) {
                Some(a) => if a != 0 {
                    Some(a)
                } else {
                    None
                },
                None => None,
            },
            None => None,
        },
    }
}

/// Collateral units per EUTC, fail-closed (see `oracle_rate_spec`).
pub fn oracle_rate(
    config: &Config,
    params: &Params,
    c: CollateralType,
    inputs: &RateInputs,
    now: u64,
) -> (r: Result<u128, ContractError>)
    ensures
        r == oracle_rate_spec(*config, *params, c, *inputs, now),
        r matches Ok(v) ==> v != 0,
{
    if config.oracle_mode == OracleMode::ConsensusPrimary {
        if let Some(rate) = consensus_rate(c, &inputs.consensus_usd) {
            return Ok(rate);
        }
    }
    if config.oracle.is_none() {
        return Err(ContractError::OracleMissing);
    }
    match &inputs.adapter_price {
        Err(e) => Err(ContractError::Std(e.clone())),
        Ok(p) => {
            if p.units_per_eutc.is_zero() || !is_fresh(
                p.updated_at,
                now,
                params.oracle_stale_secs,
            ) {
                Err(ContractError::OracleStale { collateral: c })
            } else {
                Ok(p.units_per_eutc.atomics())
            }
        },
    }
}

/// The EUTC a deposit of `amount` mints at `rate` with `premium` bps:
/// floor(floor(amount / rate) * (1 - premium)).
pub open spec fn mint_gross(amount: u128, rate: u128) -> int {
    mul_div(amount as int, DECIMAL_FRACTIONAL as int, rate as int)
}

/// Share `bps` of `x`, floored.
pub open spec fn bps_of(x: int, bps: int) -> int {
    mul_div(x, bps, 10_000)
}

/// Slot value or the all-zero ledger.
pub open spec fn ledger_or_zero(s: Option<CollateralState>) -> CollateralState {
    match s {
        Some(st) => st,
        None => CollateralState {
            eutc_minted: 0,
            primary_balance: 0,
            fees_collected: 0,
            collateral_returned: 0,
        },
    }
}

impl CoreState {
    /// Well-formed: the stored parameters passed validation.
    pub open spec fn wf(self) -> bool {
        self.params.valid()
    }

    /// Sum of custodied collateral over the collateral types.
    pub open spec fn total_primary(self) -> int {
        ledger_or_zero(self.collateral.eurc).primary_balance + ledger_or_zero(
            self.collateral.usdc,
        ).primary_balance
    }

    /// Sum of EUTC minted over the collateral types.
    pub open spec fn total_minted(self) -> int {
        ledger_or_zero(self.collateral.eurc).eutc_minted + ledger_or_zero(
            self.collateral.usdc,
        ).eutc_minted
    }

    /// Aggregate primary ratio in bps; with nothing minted it counts as
    /// the largest value (nothing to protect yet).
    pub open spec fn primary_ratio(self) -> int {
        if self.total_minted() == 0 {
            u128::MAX as int
        } else {
            mul_div(self.total_primary(), 10_000, self.total_minted())
        }
    }

    /// Computing the primary ratio leaves the 128-bit range.
    pub open spec fn ratio_aborts(self) -> bool {
        self.total_primary() > u128::MAX || self.total_minted() > u128::MAX
            || self.primary_ratio() > u128::MAX
    }

    /// The supply that caps on `day` refer to, and the snapshot to store
    /// when the stored one belongs to another day.
    pub open spec fn day_supply_for(self, day: u64, supply_query: Result<u128, String>) -> Result<
        (u128, Option<DaySnapshot>),
        ContractError,
    > {
        if self.day_supply is Some && self.day_supply->0.day == day {
            Ok((self.day_supply->0.supply, None))
        } else {
            match supply_query {
                Ok(s) => Ok((s, Some(DaySnapshot { day, supply: s }))),
                Err(e) => Err(ContractError::Std(e)),
            }
        }
    }

    /// EUTC already minted today against `c`.
    pub open spec fn minted_today(self, c: CollateralType, day: u64) -> u128 {
        match self.mint_windows.at(c) {
            Some(w) => if w.0 == day {
                w.1
            } else {
                0
            },
            None => 0,
        }
    }

    /// EUTC already redeemed today.
    pub open spec fn redeemed_today(self, day: u64) -> u128 {
        match self.redeem_window {
            Some(w) => if w.0 == day {
                w.1
            } else {
                0
            },
            None => 0,
        }
    }

    /// Daily mint allowance per collateral: the percentage of the day-start
    /// supply, never below the bootstrap floor.
    pub open spec fn mint_cap(self, supply: u128) -> int {
        let pct = bps_of(supply as int, self.params.daily_mint_cap_bps as int);
        if pct >= self.params.min_daily_mint_floor {
            pct
        } else {
            self.params.min_daily_mint_floor as int
        }
    }

    /// The decision on a mint of `amount` of `c` (before the ledger update).
    pub open spec fn mint_quote(
        self,
        env: BlockEnv,
        c: CollateralType,
        amount: u128,
        inputs: RateInputs,
        supply_query: Result<u128, String>,
    ) -> Result<MintQuote, ContractError> {
        let day = day_of(env.time);
        if self.status.mint_paused {
            Err(ContractError::MintPaused)
        } else if self.ratio_aborts() {
            Err(ContractError::Abort(AbortAt::Ratio))
        } else if self.primary_ratio() < self.params.min_primary_ratio_bps {
            Err(
                ContractError::RatioBelowFloor {
                    current_bps: self.primary_ratio() as u128,
                    required_bps: self.params.min_primary_ratio_bps as u128,
                },
            )
        } else {
            match oracle_rate_spec(self.config, self.params, c, inputs, env.time) {
                Err(e) => Err(e),
                Ok(rate) => {
                    let gross = mint_gross(amount, rate);
                    let minted = bps_of(gross, 10_000 - premium_bps(self.params, c));
                    if gross > u128::MAX {
                        Err(ContractError::MathOverflow(MathStep::Rate))
                    } else if minted == 0 {
                        Err(ContractError::ZeroAmount)
                    } else {
                        match self.day_supply_for(day, supply_query) {
                            Err(e) => Err(e),
                            Ok((supply, snapshot)) => {
                                let today = self.minted_today(c, day);
                                let cap = self.mint_cap(supply);
                                let remaining = if cap >= today {
                                    cap - today
                                } else {
                                    0
                                };
                                let fee = bps_of(amount as int, self.params.mint_fee_bps as int);
                                if minted > remaining {
                                    Err(
                                        ContractError::MintCapExceeded {
                                            collateral: c,
                                            remaining: remaining as u128,
                                        },
                                    )
                                } else if self.tokens.at(c) is None {
                                    Err(ContractError::CollateralNotRegistered { collateral: c })
                                } else {
                                    Ok(
                                        MintQuote {
                                            rate,
                                            eutc_minted: minted as u128,
                                            fee: fee as u128,
                                            to_vault: (amount - fee) as u128,
                                            day,
                                            supply,
                                            snapshot,
                                            minted_today: today,
                                        },
                                    )
                                }
                            },
                        }
                    }
                },
            }
        }
    }

    /// The ledger of `c` after a mint with quote `q`.
    pub open spec fn ledger_after_mint(self, c: CollateralType, q: MintQuote) -> CollateralState {
        let st = ledger_or_zero(self.collateral.at(c));
        CollateralState {
            eutc_minted: (st.eutc_minted + q.eutc_minted) as u128,
            primary_balance: (st.primary_balance + q.to_vault) as u128,
            fees_collected: (st.fees_collected + q.fee) as u128,
            collateral_returned: st.collateral_returned,
        }
    }

    /// The mint's ledger additions leave the 128-bit range.
    pub open spec fn mint_ledger_aborts(self, c: CollateralType, q: MintQuote) -> bool {
        let st = ledger_or_zero(self.collateral.at(c));
        st.eutc_minted + q.eutc_minted > u128::MAX || st.primary_balance + q.to_vault > u128::MAX
            || st.fees_collected + q.fee > u128::MAX
    }
}

/// The minter's new last-mint entry: an entry from a later height is kept.
pub open spec fn last_mint_after(prev: Option<(u64, u128)>, height: u64, minted: u128) -> (
    u64,
    u128,
) {
    match prev {
        Some(p) => if p.0 > height {
            p
        } else {
            (height, minted)
        },
        None => (height, minted),
    }
}


/// A ledger slot's value, or the all-zero ledger.
fn ledger_of(s: &Option<CollateralState>) -> (r: CollateralState)
    ensures
        r == ledger_or_zero(*s),
{
    match s {
        Some(st) => *st,
        None => CollateralState::default(),
    }
}

impl CoreState {
    /// Aggregate primary ratio in bps (custody x 10 000 / minted), or the
    /// abort when a sum or the ratio leaves the 128-bit range.
    pub fn primary_ratio_bps(&self) -> (r: Result<u128, ContractError>)
        ensures
            self.ratio_aborts() ==> r == Err::<u128, ContractError>(ContractError::Abort(AbortAt::Ratio)),
            !self.ratio_aborts() ==> r == Ok::<u128, ContractError>(self.primary_ratio() as u128),
    {
        let e = ledger_of(&self.collateral.eurc);
        let u = ledger_of(&self.collateral.usdc);
        let primary = match e.primary_balance.checked_add(u.primary_balance) {
            Some(v) => v,
            None => {
                return Err(ContractError::Abort(AbortAt::Ratio));
            },
        };
        let minted = match e.eutc_minted.checked_add(u.eutc_minted) {
            Some(v) => v,
            None => {
                return Err(ContractError::Abort(AbortAt::Ratio));
            },
        };
        if minted == 0 {
            return Ok(u128::MAX);
        }
        match checked_multiply_ratio(primary, BPS, minted) {
            Some(v) => Ok(v),
            None => Err(ContractError::Abort(AbortAt::Ratio)),
        }
    }

    /// The supply the caps of `day` refer to, with the snapshot to store:
    /// the stored snapshot when it belongs to `day` (the supply query is
    /// then not used), otherwise the queried supply, which becomes the
    /// day's snapshot.
    pub fn day_supply_at(&self, day: u64, supply_query: &Result<u128, String>) -> (r: Result<
        (u128, Option<DaySnapshot>),
        ContractError,
    >)
        ensures
            r == self.day_supply_for(day, *supply_query),
    {
        if let Some(snap) = self.day_supply {
            if snap.day == day {
                return Ok((snap.supply, None));
            }
        }
        match supply_query {
            Ok(s) => Ok((*s, Some(DaySnapshot { day, supply: *s }))),
            Err(e) => Err(ContractError::Std(e.clone())),
        }
    }

    /// Decides a mint without changing anything.
    fn quote_mint(
        &self,
        env: BlockEnv,
        c: CollateralType,
        amount: u128,
        inputs: &RateInputs,
        supply_query: &Result<u128, String>,
    ) -> (r: Result<MintQuote, ContractError>)
        requires
            self.wf(),
        ensures
            r == self.mint_quote(env, c, amount, *inputs, *supply_query),
    {
        if self.status.mint_paused {
            return Err(ContractError::MintPaused);
        }
        let ratio = match self.primary_ratio_bps() {
            Ok(v) => v,
            Err(e) => {
                return Err(e);
            },
        };
        if ratio < self.params.min_primary_ratio_bps as u128 {
            return Err(
                ContractError::RatioBelowFloor {
                    current_bps: ratio,
                    required_bps: self.params.min_primary_ratio_bps as u128,
                },
            );
        }
        let rate = match oracle_rate(&self.config, &self.params, c, inputs, env.time) {
            Ok(v) => v,
            Err(e) => {
                return Err(e);
            },
        };
        let gross = match checked_multiply_ratio(amount, DECIMAL_FRACTIONAL, rate) {
            Some(v) => v,
            None => {
                return Err(ContractError::MathOverflow(MathStep::Rate));
            },
        };
        let premium: u64 = match c {
            CollateralType::Usdc => self.params.usdc_premium_bps,
            CollateralType::Eurc => 0,
        };
        proof {
            lemma_mul_div_share_le(gross as int, (10_000 - premium) as int, 10_000);
        }
        let minted = match checked_multiply_ratio(gross, BPS - premium as u128, BPS) {
            Some(v) => v,
            None => {
                return Err(ContractError::MathOverflow(MathStep::Fee));
            },
        };
        if minted == 0 {
            return Err(ContractError::ZeroAmount);
        }
        let day = current_day(env.time);
        let (supply, snapshot) = match self.day_supply_at(day, supply_query) {
            Ok(v) => v,
            Err(e) => {
                return Err(e);
            },
        };
        let today: u128 = match self.mint_windows.get(c) {
            Some(w) => if w.0 == day {
                w.1
            } else {
                0
            },
            None => 0,
        };
        proof {
            lemma_mul_div_share_le(supply as int, self.params.daily_mint_cap_bps as int, 10_000);
            lemma_mul_div_share_le(amount as int, self.params.mint_fee_bps as int, 10_000);
        }
        let pct = match checked_multiply_ratio(supply, self.params.daily_mint_cap_bps as u128, BPS) {
            Some(v) => v,
            None => {
                return Err(ContractError::MathOverflow(MathStep::Cap));
            },
        };
        let floor = self.params.min_daily_mint_floor as u128;
        let cap = if pct >= floor {
            pct
        } else {
            floor
        };
        let remaining = cap.saturating_sub(today);
        if minted > remaining {
            return Err(ContractError::MintCapExceeded { collateral: c, remaining });
        }
        let fee = match checked_multiply_ratio(amount, self.params.mint_fee_bps as u128, BPS) {
            Some(v) => v,
            None => {
                return Err(ContractError::MathOverflow(MathStep::Fee));
            },
        };
        if self.tokens.get(c).is_none() {
            return Err(ContractError::CollateralNotRegistered { collateral: c });
        }
        Ok(
            MintQuote {
                rate,
                eutc_minted: minted,
                fee,
                to_vault: amount - fee,
                day,
                supply,
                snapshot,
                minted_today: today,
            },
        )
    }
}


impl CoreState {
    /// The three messages of a mint: collateral net of the fee to the
    /// vault, the fee to the reserve, and the new EUTC to the minter.
    pub open spec fn mint_messages(self, c: CollateralType, user: String, q: MintQuote) -> Seq<
        CoreMsg,
    > {
        let token = self.tokens.at(c)->0;
        seq![
            CoreMsg::Send {
                token,
                contract: self.config.vault,
                amount: q.to_vault,
                hook: SendHook::VaultDeposit,
            },
            CoreMsg::Send {
                token,
                contract: self.config.reserve,
                amount: q.fee,
                hook: SendHook::ReserveDeposit,
            },
            CoreMsg::Mint { token: self.config.eutc_token, recipient: user, amount: q.eutc_minted },
        ]
    }

    /// The state after a mint with quote `q` (the per-address entry aside).
    pub open spec fn after_mint(self, c: CollateralType, q: MintQuote) -> CoreState {
        CoreState {
            collateral: Slots {
                eurc: if c == CollateralType::Eurc {
                    Some(self.ledger_after_mint(c, q))
                } else {
                    self.collateral.eurc
                },
                usdc: if c == CollateralType::Usdc {
                    Some(self.ledger_after_mint(c, q))
                } else {
                    self.collateral.usdc
                },
            },
            mint_windows: Slots {
                eurc: if c == CollateralType::Eurc {
                    Some((q.day, (q.minted_today + q.eutc_minted) as u128))
                } else {
                    self.mint_windows.eurc
                },
                usdc: if c == CollateralType::Usdc {
                    Some((q.day, (q.minted_today + q.eutc_minted) as u128))
                } else {
                    self.mint_windows.usdc
                },
            },
            day_supply: if q.snapshot is Some {
                q.snapshot
            } else {
                self.day_supply
            },
            ..self
        }
    }

    /// Mints EUTC for `amount` of collateral `c` deposited by `user`.
    /// `last_mint` is the minter's last-mint entry; `inputs` and
    /// `supply_query` are the answers of the price and EUTC supply queries.
    /// A refused mint changes nothing.
    pub fn mint(
        &mut self,
        env: BlockEnv,
        user: &String,
        c: CollateralType,
        amount: u128,
        last_mint: Option<(u64, u128)>,
        inputs: &RateInputs,
        supply_query: &Result<u128, String>,
    ) -> (r: Result<MintOutcome, ContractError>)
        requires
            old(self).wf(),
        ensures
            final(self).wf(),
            mint_post(*old(self), *final(self), r, env, *user, c, amount, last_mint, *inputs, *supply_query),
    {
        let q = match self.quote_mint(env, c, amount, inputs, supply_query) {
            Ok(q) => q,
            Err(e) => {
                return Err(e);
            },
        };
        proof {
            lemma_mint_quote_laws(*old(self), env, c, amount, *inputs, *supply_query);
        }
        let st = ledger_of(self.collateral.get(c));
        let eutc_minted = match st.eutc_minted.checked_add(q.eutc_minted) {
            Some(v) => v,
            None => {
                return Err(ContractError::Abort(AbortAt::Ledger));
            },
        };
        let primary_balance = match st.primary_balance.checked_add(q.to_vault) {
            Some(v) => v,
            None => {
                return Err(ContractError::Abort(AbortAt::Ledger));
            },
        };
        let fees_collected = match st.fees_collected.checked_add(q.fee) {
            Some(v) => v,
            None => {
                return Err(ContractError::Abort(AbortAt::Ledger));
            },
        };
        let token = match self.tokens.get(c) {
            Some(t) => t.clone(),
            None => {
                return Err(ContractError::CollateralNotRegistered { collateral: c });
            },
        };
        let new_state = CollateralState {
            eutc_minted,
            primary_balance,
            fees_collected,
            collateral_returned: st.collateral_returned,
        };
        self.collateral.set(c, Some(new_state));
        self.mint_windows.set(c, Some((q.day, q.minted_today + q.eutc_minted)));
        if q.snapshot.is_some() {
            self.day_supply = q.snapshot;
        }
        let new_last: (u64, u128) = match last_mint {
            Some(p) => if p.0 > env.height {
                p
            } else {
                (env.height, q.eutc_minted)
            },
            None => (env.height, q.eutc_minted),
        };
        let mut messages: Vec<CoreMsg> = Vec::new();
        messages.push(
            CoreMsg::Send {
                token: token.clone(),
                contract: self.config.vault.clone(),
                amount: q.to_vault,
                hook: SendHook::VaultDeposit,
            },
        );
        messages.push(
            CoreMsg::Send {
                token,
                contract: self.config.reserve.clone(),
                amount: q.fee,
                hook: SendHook::ReserveDeposit,
            },
        );
        messages.push(
            CoreMsg::Mint {
                token: self.config.eutc_token.clone(),
                recipient: user.clone(),
                amount: q.eutc_minted,
            },
        );
        proof {
            let a = old(self).after_mint(c, q);
            assert(self.collateral.at(CollateralType::Eurc) == a.collateral.at(CollateralType::Eurc));
            assert(self.collateral.at(CollateralType::Usdc) == a.collateral.at(CollateralType::Usdc));
            assert(self.mint_windows.at(CollateralType::Eurc) == a.mint_windows.at(CollateralType::Eurc));
            assert(self.mint_windows.at(CollateralType::Usdc) == a.mint_windows.at(CollateralType::Usdc));
            assert(self.collateral == a.collateral);
            assert(self.mint_windows == a.mint_windows);
            assert(messages@ =~= old(self).mint_messages(c, *user, q));
        }
        Ok(
            MintOutcome {
                collateral: c,
                collateral_in: amount,
                eutc_minted: q.eutc_minted,
                fee: q.fee,
                to_vault: q.to_vault,
                day: q.day,
                last_mint: new_last,
                messages,
            },
        )
    }
}



/// What a mint does: a refused mint changes nothing; an accepted one
/// returns the quoted amounts and messages and updates the ledger, the
/// mint window and the day snapshot.
pub open spec fn mint_post(
    pre: CoreState,
    post: CoreState,
    r: Result<MintOutcome, ContractError>,
    env: BlockEnv,
    user: String,
    c: CollateralType,
    amount: u128,
    last_mint: Option<(u64, u128)>,
    inputs: RateInputs,
    supply_query: Result<u128, String>,
) -> bool {
    match pre.mint_quote(env, c, amount, inputs, supply_query) {
        Err(e) => r == Err::<MintOutcome, ContractError>(e) && post == pre,
        Ok(q) => if pre.mint_ledger_aborts(c, q) {
            r == Err::<MintOutcome, ContractError>(ContractError::Abort(AbortAt::Ledger)) && post == pre
        } else {
            &&& r matches Ok(o)
            &&& o.collateral == c
            &&& o.collateral_in == amount
            &&& o.eutc_minted == q.eutc_minted
            &&& o.fee == q.fee
            &&& o.to_vault == q.to_vault
            &&& o.day == q.day
            &&& o.last_mint == last_mint_after(last_mint, env.height, q.eutc_minted)
            &&& o.messages@ == pre.mint_messages(c, user, q)
            &&& post == pre.after_mint(c, q)
        },
    }
}

/// What a redemption does: a refused one changes nothing; an accepted one
/// returns the quoted amounts and messages and updates the ledger, the
/// redemption window and the day snapshot.
pub open spec fn redeem_post(
    pre: CoreState,
    post: CoreState,
    r: Result<RedeemOutcome, ContractError>,
    env: BlockEnv,
    user: String,
    c: CollateralType,
    amount: u128,
    addr_used: Option<u128>,
    last_mint: Option<(u64, u128)>,
    inputs: RateInputs,
    supply_query: Result<u128, String>,
) -> bool {
    match pre.redeem_quote(env, c, amount, addr_used, last_mint, inputs, supply_query) {
        Err(e) => r == Err::<RedeemOutcome, ContractError>(e) && post == pre,
        Ok(q) => if pre.redeem_ledger_aborts(c, q) {
            r == Err::<RedeemOutcome, ContractError>(ContractError::Abort(AbortAt::Ledger)) && post == pre
        } else {
            &&& r matches Ok(o)
            &&& o.collateral == c
            &&& o.eutc_burned == amount
            &&& o.collateral_out == q.collateral_units
            &&& o.payout == q.payout
            &&& o.fee == q.fee
            &&& o.effective_fee_bps == q.effective_fee_bps
            &&& o.flash_fee == q.flash_fee
            &&& o.day == q.day
            &&& o.addr_redeemed == q.addr_used + amount
            &&& o.messages@ == pre.redeem_messages(c, user, amount, q)
            &&& post == pre.after_redeem(c, amount, q)
        },
    }
}

/// Mint laws. For every accepted mint: the aggregate primary ratio was at
/// or above the governance floor; the rate came from the oracle rule
/// (fail-closed); the new EUTC is positive and keeps the day's minted total
/// for that collateral within the daily allowance; and the deposit splits
/// exactly into the fee (mint fee share of the deposit) and the custodied
/// remainder.
pub proof fn lemma_mint_quote_laws(
    s: CoreState,
    env: BlockEnv,
    c: CollateralType,
    amount: u128,
    inputs: RateInputs,
    supply_query: Result<u128, String>,
)
    requires
        s.wf(),
    ensures
        s.mint_quote(env, c, amount, inputs, supply_query) matches Ok(q) ==> {
            &&& !s.status.mint_paused
            &&& s.primary_ratio() >= s.params.min_primary_ratio_bps
            &&& oracle_rate_spec(s.config, s.params, c, inputs, env.time) == Ok::<u128, ContractError>(q.rate)
            &&& q.eutc_minted > 0
            &&& q.eutc_minted == bps_of(mint_gross(amount, q.rate), 10_000 - premium_bps(s.params, c))
            &&& q.minted_today + q.eutc_minted <= s.mint_cap(q.supply) <= u128::MAX
            &&& q.fee == bps_of(amount as int, s.params.mint_fee_bps as int)
            &&& q.fee + q.to_vault == amount
        },
{
    if let Ok(q) = s.mint_quote(env, c, amount, inputs, supply_query) {
        lemma_mul_div_share_le(amount as int, s.params.mint_fee_bps as int, 10_000);
        lemma_mul_div_share_le(q.supply as int, s.params.daily_mint_cap_bps as int, 10_000);
    }
}


/// The flash-fee window is open for a redeemer whose freshest mint is at
/// most `window` blocks old.
pub open spec fn flash_window_open(last_mint: Option<(u64, u128)>, height: u64, window: u64) -> bool {
    match last_mint {
        Some(p) => (if height >= p.0 {
            height - p.0
        } else {
            0
        }) <= window,
        None => false,
    }
}

/// The smaller of two integers.
pub open spec fn min_int(a: int, b: int) -> int {
    if a <= b {
        a
    } else {
        b
    }
}

impl CoreState {
    /// Utilization of the daily redemption window in bps (at most 10 000).
    pub open spec fn utilization_bps(today: u128, cap: int) -> int {
        if cap == 0 {
            0
        } else {
            min_int(mul_div(today as int, 10_000, cap), 10_000)
        }
    }

    /// Redeem fee in bps: base fee plus the dynamic spread plus the flash
    /// fee, capped at 100%.
    pub open spec fn effective_fee(self, utilization: int, flash: bool) -> int {
        min_int(
            self.params.redeem_fee_bps + bps_of(self.params.max_dynamic_spread_bps as int, utilization)
                + (if flash {
                self.params.flash_fee_bps as int
            } else {
                0
            }),
            10_000,
        )
    }

    /// The decision on a redemption of `amount` EUTC for collateral `c`.
    /// `addr_used` is the redeemer's redeemed-today entry for the current day.
    pub open spec fn redeem_quote(
        self,
        env: BlockEnv,
        c: CollateralType,
        amount: u128,
        addr_used: Option<u128>,
        last_mint: Option<(u64, u128)>,
        inputs: RateInputs,
        supply_query: Result<u128, String>,
    ) -> Result<RedeemQuote, ContractError> {
        let day = day_of(env.time);
        if self.status.redeem_paused {
            Err(ContractError::RedeemPaused)
        } else if self.tokens.at(c) is None {
            Err(ContractError::CollateralNotRegistered { collateral: c })
        } else {
            match self.day_supply_for(day, supply_query) {
                Err(e) => Err(e),
                Ok((supply, snapshot)) => {
                    let today = self.redeemed_today(day);
                    let cap = bps_of(supply as int, self.params.daily_redeem_cap_bps as int);
                    let remaining = if cap >= today {
                        cap - today
                    } else {
                        0
                    };
                    let addr_cap = bps_of(supply as int, self.params.per_addr_redeem_cap_bps as int);
                    let used: u128 = match addr_used {
                        Some(u) => u,
                        None => 0,
                    };
                    let addr_remaining = if addr_cap >= used {
                        addr_cap - used
                    } else {
                        0
                    };
                    if amount > min_int(remaining, addr_remaining) {
                        if remaining <= addr_remaining {
                            Err(ContractError::DailyCapExceeded { remaining: remaining as u128 })
                        } else {
                            Err(ContractError::PerAddressCapExceeded { remaining: addr_remaining as u128 })
                        }
                    } else if cap != 0 && mul_div(today as int, 10_000, cap) > u128::MAX {
                        Err(ContractError::Abort(AbortAt::Utilization))
                    } else {
                        let util = CoreState::utilization_bps(today, cap);
                        let flash = flash_window_open(
                            last_mint,
                            env.height,
                            self.params.flash_fee_window_blocks,
                        );
                        match oracle_rate_spec(self.config, self.params, c, inputs, env.time) {
                            Err(e) => Err(e),
                            Ok(rate) => {
                                let units = mul_div(amount as int, rate as int, DECIMAL_FRACTIONAL as int);
                                let eff = self.effective_fee(util, flash);
                                let fee = bps_of(units, eff);
                                let st = ledger_or_zero(self.collateral.at(c));
                                if units > u128::MAX {
                                    Err(ContractError::MathOverflow(MathStep::Rate))
                                } else if st.primary_balance < units {
                                    Err(
                                        ContractError::InsufficientCollateral {
                                            available: st.primary_balance,
                                            requested: units as u128,
                                        },
                                    )
                                } else {
                                    Ok(
                                        RedeemQuote {
                                            day,
                                            supply,
                                            snapshot,
                                            redeemed_today: today,
                                            addr_used: used,
                                            daily_cap: cap as u128,
                                            rate,
                                            collateral_units: units as u128,
                                            effective_fee_bps: eff as u64,
                                            flash_fee: flash,
                                            fee: fee as u128,
                                            payout: (units - fee) as u128,
                                        },
                                    )
                                }
                            },
                        }
                    }
                },
            }
        }
    }

    /// The ledger of `c` after a redemption of `amount` with quote `q`.
    pub open spec fn ledger_after_redeem(self, c: CollateralType, amount: u128, q: RedeemQuote) -> CollateralState {
        let st = ledger_or_zero(self.collateral.at(c));
        CollateralState {
            eutc_minted: if st.eutc_minted >= amount {
                (st.eutc_minted - amount) as u128
            } else {
                0
            },
            primary_balance: (st.primary_balance - q.collateral_units) as u128,
            fees_collected: (st.fees_collected + q.fee) as u128,
            collateral_returned: (st.collateral_returned + q.payout) as u128,
        }
    }

    /// The redemption's ledger additions leave the 128-bit range.
    pub open spec fn redeem_ledger_aborts(self, c: CollateralType, q: RedeemQuote) -> bool {
        let st = ledger_or_zero(self.collateral.at(c));
        st.collateral_returned + q.payout > u128::MAX || st.fees_collected + q.fee > u128::MAX
    }

    /// The state after a redemption (the per-address entry aside).
    pub open spec fn after_redeem(self, c: CollateralType, amount: u128, q: RedeemQuote) -> CoreState {
        CoreState {
            collateral: Slots {
                eurc: if c == CollateralType::Eurc {
                    Some(self.ledger_after_redeem(c, amount, q))
                } else {
                    self.collateral.eurc
                },
                usdc: if c == CollateralType::Usdc {
                    Some(self.ledger_after_redeem(c, amount, q))
                } else {
                    self.collateral.usdc
                },
            },
            redeem_window: Some((q.day, (q.redeemed_today + amount) as u128)),
            day_supply: if q.snapshot is Some {
                q.snapshot
            } else {
                self.day_supply
            },
            ..self
        }
    }

    /// The three messages of a redemption: burn the EUTC, pay the redeemer,
    /// and route the fee from the vault into the reserve.
    pub open spec fn redeem_messages(self, c: CollateralType, user: String, amount: u128, q: RedeemQuote) -> Seq<CoreMsg> {
        let token = self.tokens.at(c)->0;
        seq![
            CoreMsg::Burn { token: self.config.eutc_token, amount },
            CoreMsg::Withdraw {
                vault: self.config.vault,
                to: user,
                token,
                amount: q.payout,
                to_reserve: false,
            },
            CoreMsg::Withdraw {
                vault: self.config.vault,
                to: self.config.reserve,
                token,
                amount: q.fee,
                to_reserve: true,
            },
        ]
    }

    /// Decides a redemption without changing anything.
    fn quote_redeem(
        &self,
        env: BlockEnv,
        c: CollateralType,
        amount: u128,
        addr_used: Option<u128>,
        last_mint: Option<(u64, u128)>,
        inputs: &RateInputs,
        supply_query: &Result<u128, String>,
    ) -> (r: Result<RedeemQuote, ContractError>)
        requires
            self.wf(),
        ensures
            r == self.redeem_quote(env, c, amount, addr_used, last_mint, *inputs, *supply_query),
    {
        if self.status.redeem_paused {
            return Err(ContractError::RedeemPaused);
        }
        if self.tokens.get(c).is_none() {
            return Err(ContractError::CollateralNotRegistered { collateral: c });
        }
        let day = current_day(env.time);
        let (supply, snapshot) = match self.day_supply_at(day, supply_query) {
            Ok(v) => v,
            Err(e) => {
                return Err(e);
            },
        };
        let today: u128 = match self.redeem_window {
            Some(w) => if w.0 == day {
                w.1
            } else {
                0
            },
            None => 0,
        };
        proof {
            lemma_mul_div_share_le(supply as int, self.params.daily_redeem_cap_bps as int, 10_000);
            lemma_mul_div_share_le(supply as int, self.params.per_addr_redeem_cap_bps as int, 10_000);
        }
        let cap = match checked_multiply_ratio(supply, self.params.daily_redeem_cap_bps as u128, BPS) {
            Some(v) => v,
            None => {
                return Err(ContractError::MathOverflow(MathStep::Cap));
            },
        };
        let remaining = cap.saturating_sub(today);
        let addr_cap = match checked_multiply_ratio(
            supply,
            self.params.per_addr_redeem_cap_bps as u128,
            BPS,
        ) {
            Some(v) => v,
            None => {
                return Err(ContractError::MathOverflow(MathStep::Cap));
            },
        };
        let used: u128 = match addr_used {
            Some(u) => u,
            None => 0,
        };
        let addr_remaining = addr_cap.saturating_sub(used);
        let allowed = if remaining <= addr_remaining {
            remaining
        } else {
            addr_remaining
        };
        if amount > allowed {
            if remaining <= addr_remaining {
                return Err(ContractError::DailyCapExceeded { remaining });
            } else {
                return Err(ContractError::PerAddressCapExceeded { remaining: addr_remaining });
            }
        }
        let util: u128 = if cap == 0 {
            0
        } else {
            match checked_multiply_ratio(today, BPS, cap) {
                Some(v) => if v <= BPS {
                    v
                } else {
                    BPS
                },
                None => {
                    return Err(ContractError::Abort(AbortAt::Utilization));
                },
            }
        };
        proof {
            lemma_mul_div_share_le(self.params.max_dynamic_spread_bps as int, util as int, 10_000);
        }
        let spread = multiply_ratio(self.params.max_dynamic_spread_bps as u128, util, BPS);
        let flash: bool = match last_mint {
            Some(p) => env.height.saturating_sub(p.0) <= self.params.flash_fee_window_blocks,
            None => false,
        };
        let flash_adder: u64 = if flash {
            self.params.flash_fee_bps
        } else {
            0
        };
        let rate = match oracle_rate(&self.config, &self.params, c, inputs, env.time) {
            Ok(v) => v,
            Err(e) => {
                return Err(e);
            },
        };
        let units = match checked_multiply_ratio(amount, rate, DECIMAL_FRACTIONAL) {
            Some(v) => v,
            None => {
                return Err(ContractError::MathOverflow(MathStep::Rate));
            },
        };
        let sum: u64 = self.params.redeem_fee_bps + spread as u64 + flash_adder;
        let eff: u64 = if sum <= 10_000 {
            sum
        } else {
            10_000
        };
        proof {
            lemma_mul_div_share_le(units as int, eff as int, 10_000);
        }
        let fee = match checked_multiply_ratio(units, eff as u128, BPS) {
            Some(v) => v,
            None => {
                return Err(ContractError::MathOverflow(MathStep::Fee));
            },
        };
        let payout = units - fee;
        let st = ledger_of(self.collateral.get(c));
        if st.primary_balance < units {
            return Err(
                ContractError::InsufficientCollateral { available: st.primary_balance, requested: units },
            );
        }
        Ok(
            RedeemQuote {
                day,
                supply,
                snapshot,
                redeemed_today: today,
                addr_used: used,
                daily_cap: cap,
                rate,
                collateral_units: units,
                effective_fee_bps: eff,
                flash_fee: flash,
                fee,
                payout,
            },
        )
    }
}


impl CoreState {
    /// Redeems `amount` EUTC sent by `user` for collateral `c`. `addr_used`
    /// is the redeemer's redeemed-today entry for the current day and
    /// `last_mint` their last-mint entry; `inputs` and `supply_query` are
    /// the answers of the price and EUTC supply queries. A refused
    /// redemption changes nothing.
    pub fn redeem(
        &mut self,
        env: BlockEnv,
        user: &String,
        c: CollateralType,
        amount: u128,
        addr_used: Option<u128>,
        last_mint: Option<(u64, u128)>,
        inputs: &RateInputs,
        supply_query: &Result<u128, String>,
    ) -> (r: Result<RedeemOutcome, ContractError>)
        requires
            old(self).wf(),
        ensures
            final(self).wf(),
            redeem_post(*old(self), *final(self), r, env, *user, c, amount, addr_used, last_mint, *inputs, *supply_query),
    {
        let q = match self.quote_redeem(env, c, amount, addr_used, last_mint, inputs, supply_query) {
            Ok(q) => q,
            Err(e) => {
                return Err(e);
            },
        };
        proof {
            lemma_redeem_quote_laws(*old(self), env, c, amount, addr_used, last_mint, *inputs, *supply_query);
        }
        let st = ledger_of(self.collateral.get(c));
        let returned = match st.collateral_returned.checked_add(q.payout) {
            Some(v) => v,
            None => {
                return Err(ContractError::Abort(AbortAt::Ledger));
            },
        };
        let fees = match st.fees_collected.checked_add(q.fee) {
            Some(v) => v,
            None => {
                return Err(ContractError::Abort(AbortAt::Ledger));
            },
        };
        let token = match self.tokens.get(c) {
            Some(t) => t.clone(),
            None => {
                return Err(ContractError::CollateralNotRegistered { collateral: c });
            },
        };
        let new_state = CollateralState {
            eutc_minted: st.eutc_minted.saturating_sub(amount),
            primary_balance: st.primary_balance - q.collateral_units,
            fees_collected: fees,
            collateral_returned: returned,
        };
        self.collateral.set(c, Some(new_state));
        self.redeem_window = Some((q.day, q.redeemed_today + amount));
        if q.snapshot.is_some() {
            self.day_supply = q.snapshot;
        }
        let mut messages: Vec<CoreMsg> = Vec::new();
        messages.push(CoreMsg::Burn { token: self.config.eutc_token.clone(), amount });
        messages.push(
            CoreMsg::Withdraw {
                vault: self.config.vault.clone(),
                to: user.clone(),
                token: token.clone(),
                amount: q.payout,
                to_reserve: false,
            },
        );
        messages.push(
            CoreMsg::Withdraw {
                vault: self.config.vault.clone(),
                to: self.config.reserve.clone(),
                token,
                amount: q.fee,
                to_reserve: true,
            },
        );
        proof {
            let a = old(self).after_redeem(c, amount, q);
            assert(self.collateral.at(CollateralType::Eurc) == a.collateral.at(CollateralType::Eurc));
            assert(self.collateral.at(CollateralType::Usdc) == a.collateral.at(CollateralType::Usdc));
            assert(self.collateral == a.collateral);
            assert(messages@ =~= old(self).redeem_messages(c, *user, amount, q));
        }
        Ok(
            RedeemOutcome {
                collateral: c,
                eutc_burned: amount,
                collateral_out: q.collateral_units,
                payout: q.payout,
                fee: q.fee,
                effective_fee_bps: q.effective_fee_bps,
                flash_fee: q.flash_fee,
                day: q.day,
                addr_redeemed: q.addr_used + amount,
                messages,
            },
        )
    }
}

/// Redemption laws. For every accepted redemption of a positive amount:
/// redemption was not paused; the day's redeemed total stays within the
/// daily cap on the day-start supply, and the redeemer's total within the
/// per-address cap; the rate came from the oracle rule; the collateral
/// released is the amount at that rate, fully custodied, and splits exactly
/// into payout and fee; the fee rate is the base fee plus the utilization
/// spread plus the flash fee, capped at 100%.
pub proof fn lemma_redeem_quote_laws(
    s: CoreState,
    env: BlockEnv,
    c: CollateralType,
    amount: u128,
    addr_used: Option<u128>,
    last_mint: Option<(u64, u128)>,
    inputs: RateInputs,
    supply_query: Result<u128, String>,
)
    requires
        s.wf(),
    ensures
        s.redeem_quote(env, c, amount, addr_used, last_mint, inputs, supply_query) matches Ok(q) ==> {
            &&& !s.status.redeem_paused
            &&& q.daily_cap == bps_of(q.supply as int, s.params.daily_redeem_cap_bps as int)
            &&& (amount > 0 ==> q.redeemed_today + amount <= q.daily_cap)
            &&& (amount > 0 ==> q.addr_used + amount <= bps_of(
                q.supply as int,
                s.params.per_addr_redeem_cap_bps as int,
            ))
            &&& q.redeemed_today + amount <= u128::MAX
            &&& q.addr_used + amount <= u128::MAX
            &&& oracle_rate_spec(s.config, s.params, c, inputs, env.time) == Ok::<u128, ContractError>(q.rate)
            &&& q.collateral_units == mul_div(amount as int, q.rate as int, DECIMAL_FRACTIONAL as int)
            &&& q.collateral_units <= ledger_or_zero(s.collateral.at(c)).primary_balance
            &&& q.fee + q.payout == q.collateral_units
            &&& q.fee == bps_of(q.collateral_units as int, q.effective_fee_bps as int)
            &&& q.effective_fee_bps <= 10_000
            &&& q.flash_fee == flash_window_open(last_mint, env.height, s.params.flash_fee_window_blocks)
            &&& q.effective_fee_bps == s.effective_fee(
                CoreState::utilization_bps(q.redeemed_today, q.daily_cap as int),
                q.flash_fee,
            )
        },
{
    if let Ok(q) = s.redeem_quote(env, c, amount, addr_used, last_mint, inputs, supply_query) {
        lemma_mul_div_share_le(q.supply as int, s.params.daily_redeem_cap_bps as int, 10_000);
        lemma_mul_div_share_le(q.supply as int, s.params.per_addr_redeem_cap_bps as int, 10_000);
        lemma_mul_div_share_le(q.collateral_units as int, q.effective_fee_bps as int, 10_000);
    }
}


/// The mint part of a receive outcome.
pub open spec fn minted_part(r: Result<ReceiveOutcome, ContractError>) -> Result<MintOutcome, ContractError> {
    match r {
        Ok(ReceiveOutcome::Minted(o)) => Ok(o),
        Ok(ReceiveOutcome::Redeemed(_)) => Err(ContractError::UnsupportedHook),
        Err(e) => Err(e),
    }
}

/// The redemption part of a receive outcome.
pub open spec fn redeemed_part(r: Result<ReceiveOutcome, ContractError>) -> Result<RedeemOutcome, ContractError> {
    match r {
        Ok(ReceiveOutcome::Redeemed(o)) => Ok(o),
        Ok(ReceiveOutcome::Minted(_)) => Err(ContractError::UnsupportedHook),
        Err(e) => Err(e),
    }
}

/// An admin action, with each address already put through validation
/// (`Err` holds the validator's message).
#[derive(Debug, PartialEq, Eq)]
pub enum AdminAction {
    /// Pause or resume mint and redemption independently.
    Pause { mint: bool, redeem: bool },
    SetParams { params: Params },
    /// Register or replace the cw20 for a collateral type.
    RegisterCollateral { collateral_type: CollateralType, token: Result<String, String> },
    SetEutc { eutc: Result<String, String> },
    SetVault { vault: Result<String, String> },
    SetReserve { reserve: Result<String, String> },
    SetOracle { oracle: Option<Result<String, String>> },
    SetOracleMode { mode: OracleMode },
    SetAdmin { admin: Result<String, String> },
}

/// The state an admin action leads to (the sender check, and the
/// validation of new parameters, aside).
pub open spec fn admin_effect(s: CoreState, action: AdminAction) -> Result<CoreState, ContractError> {
    match action {
        AdminAction::Pause { mint, redeem } => Ok(
            CoreState { status: ProtocolStatus { mint_paused: mint, redeem_paused: redeem }, ..s },
        ),
        AdminAction::SetParams { params } => Ok(CoreState { params, ..s }),
        AdminAction::RegisterCollateral { collateral_type, token } => match token {
            Err(e) => Err(ContractError::Std(e)),
            Ok(t) => Ok(
                CoreState {
                    tokens: Slots {
                        eurc: if collateral_type == CollateralType::Eurc {
                            Some(t)
                        } else {
                            s.tokens.eurc
                        },
                        usdc: if collateral_type == CollateralType::Usdc {
                            Some(t)
                        } else {
                            s.tokens.usdc
                        },
                    },
                    ..s
                },
            ),
        },
        AdminAction::SetEutc { eutc } => match eutc {
            Err(e) => Err(ContractError::Std(e)),
            Ok(a) => Ok(CoreState { config: Config { eutc_token: a, ..s.config }, ..s }),
        },
        AdminAction::SetVault { vault } => match vault {
            Err(e) => Err(ContractError::Std(e)),
            Ok(a) => Ok(CoreState { config: Config { vault: a, ..s.config }, ..s }),
        },
        AdminAction::SetReserve { reserve } => match reserve {
            Err(e) => Err(ContractError::Std(e)),
            Ok(a) => Ok(CoreState { config: Config { reserve: a, ..s.config }, ..s }),
        },
        AdminAction::SetOracle { oracle } => match oracle {
            Some(Err(e)) => Err(ContractError::Std(e)),
            Some(Ok(a)) => Ok(CoreState { config: Config { oracle: Some(a), ..s.config }, ..s }),
            None => Ok(CoreState { config: Config { oracle: None, ..s.config }, ..s }),
        },
        AdminAction::SetOracleMode { mode } => Ok(
            CoreState { config: Config { oracle_mode: mode, ..s.config }, ..s },
        ),
        AdminAction::SetAdmin { admin } => match admin {
            Err(e) => Err(ContractError::Std(e)),
            Ok(a) => Ok(CoreState { config: Config { admin: a, ..s.config }, ..s }),
        },
    }
}


impl CoreState {
    /// A fresh core: parameters (the defaults when omitted) must validate,
    /// then the addresses, in message order. The price source defaults to
    /// consensus-primary; both gates start open and all ledgers empty.
    pub fn instantiate(
        params: Option<Params>,
        admin: Result<String, String>,
        eutc_token: Result<String, String>,
        vault: Result<String, String>,
        reserve: Result<String, String>,
        oracle: Option<Result<String, String>>,
        oracle_mode: Option<OracleMode>,
    ) -> (r: Result<CoreState, ContractError>)
        ensures
            ({
                let p = match params {
                    Some(p) => p,
                    None => default_params(),
                };
                if !p.valid() {
                    r matches Err(ContractError::InvalidParams(m)) && params_error(p) == Some(m@)
                } else if admin is Err {
                    r == Err::<CoreState, ContractError>(ContractError::Std(admin->Err_0))
                } else if eutc_token is Err {
                    r == Err::<CoreState, ContractError>(ContractError::Std(eutc_token->Err_0))
                } else if vault is Err {
                    r == Err::<CoreState, ContractError>(ContractError::Std(vault->Err_0))
                } else if reserve is Err {
                    r == Err::<CoreState, ContractError>(ContractError::Std(reserve->Err_0))
                } else if oracle is Some && oracle->0 is Err {
                    r == Err::<CoreState, ContractError>(ContractError::Std(oracle->0->Err_0))
                } else {
                    &&& r matches Ok(st)
                    &&& st.wf()
                    &&& st.params == p
                    &&& st.config == Config {
                        admin: admin->Ok_0,
                        eutc_token: eutc_token->Ok_0,
                        vault: vault->Ok_0,
                        reserve: reserve->Ok_0,
                        oracle: match oracle {
                            Some(o) => Some(o->Ok_0),
                            None => None,
                        },
                        oracle_mode: match oracle_mode {
                            Some(m) => m,
                            None => OracleMode::ConsensusPrimary,
                        },
                    }
                    &&& !st.status.mint_paused && !st.status.redeem_paused
                    &&& st.tokens.eurc is None && st.tokens.usdc is None
                    &&& st.collateral.eurc is None && st.collateral.usdc is None
                    &&& st.mint_windows.eurc is None && st.mint_windows.usdc is None
                    &&& st.redeem_window is None
                    &&& st.day_supply is None
                }
            }),
    {
        let p = match params {
            Some(p) => p,
            None => Params::default(),
        };
        if let Err(m) = p.validate() {
            return Err(ContractError::InvalidParams(m));
        }
        let admin = match admin {
            Ok(a) => a,
            Err(e) => {
                return Err(ContractError::Std(e));
            },
        };
        let eutc_token = match eutc_token {
            Ok(a) => a,
            Err(e) => {
                return Err(ContractError::Std(e));
            },
        };
        let vault = match vault {
            Ok(a) => a,
            Err(e) => {
                return Err(ContractError::Std(e));
            },
        };
        let reserve = match reserve {
            Ok(a) => a,
            Err(e) => {
                return Err(ContractError::Std(e));
            },
        };
        let oracle = match oracle {
            Some(Ok(a)) => Some(a),
            Some(Err(e)) => {
                return Err(ContractError::Std(e));
            },
            None => None,
        };
        let mode = match oracle_mode {
            Some(m) => m,
            None => OracleMode::ConsensusPrimary,
        };
        Ok(
            CoreState {
                config: Config { admin, eutc_token, vault, reserve, oracle, oracle_mode: mode },
                params: p,
                status: ProtocolStatus::active(),
                tokens: Slots::empty(),
                collateral: Slots::empty(),
                mint_windows: Slots::empty(),
                redeem_window: None,
                day_supply: None,
            },
        )
    }

    /// Executes an admin action sent by `sender`. Only the admin may act; a
    /// refused action changes nothing.
    pub fn execute_admin(&mut self, sender: &String, action: AdminAction) -> (r: Result<(), ContractError>)
        requires
            old(self).wf(),
        ensures
            final(self).wf(),
            sender@ != old(self).config.admin@ ==> r == Err::<(), ContractError>(ContractError::Unauthorized)
                && *final(self) == *old(self),
            action matches AdminAction::Pause { mint, redeem } ==> (sender@ == old(self).config.admin@
                ==> (r is Ok && final(self).status.mint_paused == mint && final(self).status.redeem_paused
                == redeem && final(self).params == old(self).params && final(self).config == old(
                self,
            ).config && final(self).collateral == old(self).collateral)),
            sender@ == old(self).config.admin@ ==> match action {
                AdminAction::SetParams { params } => if params.valid() {
                    r is Ok && *final(self) == (CoreState { params, ..*old(self) })
                } else {
                    &&& r matches Err(ContractError::InvalidParams(m))
                    &&& params_error(params) == Some(m@)
                    &&& *final(self) == *old(self)
                },
                _ => match admin_effect(*old(self), action) {
                    Ok(s2) => r is Ok && *final(self) == s2,
                    Err(e) => r == Err::<(), ContractError>(e) && *final(self) == *old(self),
                },
            },
    {
        if self.config.admin != *sender {
            return Err(ContractError::Unauthorized);
        }
        match action {
            AdminAction::Pause { mint, redeem } => {
                self.status = ProtocolStatus { mint_paused: mint, redeem_paused: redeem };
            },
            AdminAction::SetParams { params } => {
                if let Err(m) = params.validate() {
                    return Err(ContractError::InvalidParams(m));
                }
                self.params = params;
            },
            AdminAction::RegisterCollateral { collateral_type, token } => {
                match token {
                    Ok(t) => {
                        self.tokens.set(collateral_type, Some(t));
                        proof {
                            assert(self.tokens.at(CollateralType::Eurc) == admin_effect(*old(self), AdminAction::RegisterCollateral { collateral_type, token })->Ok_0.tokens.at(CollateralType::Eurc));
                            assert(self.tokens.at(CollateralType::Usdc) == admin_effect(*old(self), AdminAction::RegisterCollateral { collateral_type, token })->Ok_0.tokens.at(CollateralType::Usdc));
                        }
                    },
                    Err(e) => {
                        return Err(ContractError::Std(e));
                    },
                }
            },
            AdminAction::SetEutc { eutc } => {
                match eutc {
                    Ok(a) => {
                        self.config.eutc_token = a;
                    },
                    Err(e) => {
                        return Err(ContractError::Std(e));
                    },
                }
            },
            AdminAction::SetVault { vault } => {
                match vault {
                    Ok(a) => {
                        self.config.vault = a;
                    },
                    Err(e) => {
                        return Err(ContractError::Std(e));
                    },
                }
            },
            AdminAction::SetReserve { reserve } => {
                match reserve {
                    Ok(a) => {
                        self.config.reserve = a;
                    },
                    Err(e) => {
                        return Err(ContractError::Std(e));
                    },
                }
            },
            AdminAction::SetOracle { oracle } => {
                match oracle {
                    Some(Ok(a)) => {
                        self.config.oracle = Some(a);
                    },
                    Some(Err(e)) => {
                        return Err(ContractError::Std(e));
                    },
                    None => {
                        self.config.oracle = None;
                    },
                }
            },
            AdminAction::SetOracleMode { mode } => {
                self.config.oracle_mode = mode;
            },
            AdminAction::SetAdmin { admin } => {
                match admin {
                    Ok(a) => {
                        self.config.admin = a;
                    },
                    Err(e) => {
                        return Err(ContractError::Std(e));
                    },
                }
            },
        }
        Ok(())
    }
}


impl CoreState {
    /// Handles a cw20 receive: `sender` is the token contract, `amount` the
    /// tokens sent, `hook` the decoded hook (`None` when it did not decode)
    /// and `user` the validated holder. Mints come from the registered
    /// collateral token, redemptions from the EUTC token.
    pub fn receive(
        &mut self,
        env: BlockEnv,
        sender: &String,
        amount: u128,
        hook: Option<HookMsg>,
        user: Result<String, String>,
        last_mint: Option<(u64, u128)>,
        addr_used: Option<u128>,
        inputs: &RateInputs,
        supply_query: &Result<u128, String>,
    ) -> (r: Result<ReceiveOutcome, ContractError>)
        requires
            old(self).wf(),
        ensures
            final(self).wf(),
            amount == 0 ==> r == Err::<ReceiveOutcome, ContractError>(ContractError::ZeroAmount)
                && *final(self) == *old(self),
            amount != 0 && hook is None ==> r == Err::<ReceiveOutcome, ContractError>(
                ContractError::UnsupportedHook,
            ) && *final(self) == *old(self),
            amount != 0 && hook is Some && user is Err ==> r == Err::<ReceiveOutcome, ContractError>(
                ContractError::Std(user->Err_0),
            ) && *final(self) == *old(self),
            amount != 0 && user is Ok ==> match hook {
                Some(HookMsg::Mint { collateral_type: c }) => if old(self).tokens.at(c) is None
                    || old(self).tokens.at(c)->0@ != sender@ {
                    r == Err::<ReceiveOutcome, ContractError>(
                        ContractError::CollateralNotRegistered { collateral: c },
                    ) && *final(self) == *old(self)
                } else {
                    mint_post(
                        *old(self),
                        *final(self),
                        minted_part(r),
                        env,
                        user->Ok_0,
                        c,
                        amount,
                        last_mint,
                        *inputs,
                        *supply_query,
                    )
                },
                Some(HookMsg::Redeem { collateral_type: c }) => if sender@
                    != old(self).config.eutc_token@ {
                    r == Err::<ReceiveOutcome, ContractError>(ContractError::NotEutc) && *final(self)
                        == *old(self)
                } else {
                    redeem_post(
                        *old(self),
                        *final(self),
                        redeemed_part(r),
                        env,
                        user->Ok_0,
                        c,
                        amount,
                        addr_used,
                        last_mint,
                        *inputs,
                        *supply_query,
                    )
                },
                None => true,
            },
    {
        if amount == 0 {
            return Err(ContractError::ZeroAmount);
        }
        let hook = match hook {
            Some(h) => h,
            None => {
                return Err(ContractError::UnsupportedHook);
            },
        };
        let user = match user {
            Ok(u) => u,
            Err(e) => {
                return Err(ContractError::Std(e));
            },
        };
        match hook {
            HookMsg::Mint { collateral_type: c } => {
                let registered = match self.tokens.get(c) {
                    Some(t) => *t == *sender,
                    None => false,
                };
                if !registered {
                    return Err(ContractError::CollateralNotRegistered { collateral: c });
                }
                match self.mint(env, &user, c, amount, last_mint, inputs, supply_query) {
                    Ok(o) => Ok(ReceiveOutcome::Minted(o)),
                    Err(e) => Err(e),
                }
            },
            HookMsg::Redeem { collateral_type: c } => {
                if self.config.eutc_token != *sender {
                    return Err(ContractError::NotEutc);
                }
                match self.redeem(env, &user, c, amount, addr_used, last_mint, inputs, supply_query) {
                    Ok(o) => Ok(ReceiveOutcome::Redeemed(o)),
                    Err(e) => Err(e),
                }
            },
        }
    }
}

/// The present slots as (collateral type, value) pairs, EURC first.
pub open spec fn slot_pairs<T>(s: Slots<T>) -> Seq<(CollateralType, T)> {
    let e = match s.eurc {
        Some(v) => seq![(CollateralType::Eurc, v)],
        None => Seq::<(CollateralType, T)>::empty(),
    };
    let u = match s.usdc {
        Some(v) => seq![(CollateralType::Usdc, v)],
        None => Seq::<(CollateralType, T)>::empty(),
    };
    e + u
}

/// Sum of the amounts of a balance list.
pub open spec fn sum_amounts(s: Seq<(CollateralType, u128)>) -> int
    decreases s.len(),
{
    if s.len() == 0 {
        0
    } else {
        sum_amounts(s.drop_last()) + s.last().1
    }
}

/// A prefix of a balance list never sums to more than the whole list.
proof fn lemma_sum_prefix_le(s: Seq<(CollateralType, u128)>, i: int)
    requires
        0 <= i <= s.len(),
    ensures
        0 <= sum_amounts(s.take(i)) <= sum_amounts(s),
    decreases s.len(),
{
    if s.len() > 0 {
        if i == s.len() {
            assert(s.take(i) =~= s);
            lemma_sum_prefix_le(s.drop_last(), s.len() - 1);
            assert(s.drop_last().take(s.len() - 1) =~= s.drop_last());
        } else {
            lemma_sum_prefix_le(s.drop_last(), i);
            assert(s.drop_last().take(i) =~= s.take(i));
            lemma_sum_prefix_le(s.drop_last(), s.len() - 1);
            assert(s.drop_last().take(s.len() - 1) =~= s.drop_last());
        }
    } else {
        assert(s.take(i) =~= s);
    }
}

/// Sums a balance list; `None` when the sum leaves the 128-bit range.
fn sum_balances(v: &Vec<(CollateralType, u128)>) -> (r: Option<u128>)
    ensures
        r is None <==> sum_amounts(v@) > u128::MAX,
        r matches Some(x) ==> x == sum_amounts(v@),
{
    let mut acc: u128 = 0;
    let mut i: usize = 0;
    assert(v@.take(0) =~= Seq::<(CollateralType, u128)>::empty());
    while i < v.len()
        invariant
            0 <= i <= v@.len(),
            acc == sum_amounts(v@.take(i as int)),
        decreases v@.len() - i,
    {
        assert(v@.take(i + 1).drop_last() =~= v@.take(i as int));
        let x = v[i].1;
        match acc.checked_add(x) {
            Some(a) => {
                acc = a;
            },
            None => {
                proof {
                    lemma_sum_prefix_le(v@, i + 1);
                }
                return None;
            },
        }
        i = i + 1;
    }
    assert(v@.take(v@.len() as int) =~= v@);
    Some(acc)
}

/// The answer of the diagnostics query, when the sums stay in range.
pub open spec fn protocol_info_ok(
    s: CoreState,
    now: u64,
    supply: u128,
    reserve: Seq<(CollateralType, u128)>,
    lunc: u128,
    healthy: bool,
    info: ProtocolInfo,
) -> bool {
    let window_day = match s.redeem_window {
        Some(w) => w.0,
        None => 0,
    };
    let cap = bps_of(supply as int, s.params.daily_redeem_cap_bps as int);
    let today = s.redeemed_today(day_of(now));
    &&& info.status == s.status
    &&& info.params == s.params
    &&& info.eutc_denom == s.config.eutc_token
    &&& info.eutc_total_supply == supply
    &&& info.eutc_minted_total == s.total_minted()
    &&& info.collateral@ == slot_pairs(s.collateral)
    &&& info.collateral_ratio_pct == (if s.total_minted() == 0 {
        0
    } else {
        mul_div(s.total_primary() + sum_amounts(reserve), 100, s.total_minted())
    })
    &&& info.daily_redeem_remaining == (if cap >= today {
        cap - today
    } else {
        0
    })
    &&& info.redeem_window_day == window_day
    &&& info.secondary_reserve@ == reserve
    &&& info.reserve_lunc_vault == lunc
    &&& info.oracle_healthy == (s.config.oracle is Some && healthy)
}

impl CoreState {
    /// The registered collateral tokens, EURC first.
    pub fn collateral_tokens(&self) -> (r: Vec<(CollateralType, String)>)
        ensures
            r@ == slot_pairs(self.tokens),
    {
        let mut out: Vec<(CollateralType, String)> = Vec::new();
        if let Some(t) = &self.tokens.eurc {
            out.push((CollateralType::Eurc, t.clone()));
        }
        if let Some(t) = &self.tokens.usdc {
            out.push((CollateralType::Usdc, t.clone()));
        }
        assert(out@ =~= slot_pairs(self.tokens));
        out
    }

    /// The per-collateral ledgers present, EURC first.
    pub fn collect_collateral(&self) -> (r: Vec<(CollateralType, CollateralState)>)
        ensures
            r@ == slot_pairs(self.collateral),
    {
        let mut out: Vec<(CollateralType, CollateralState)> = Vec::new();
        if let Some(st) = self.collateral.eurc {
            out.push((CollateralType::Eurc, st));
        }
        if let Some(st) = self.collateral.usdc {
            out.push((CollateralType::Usdc, st));
        }
        assert(out@ =~= slot_pairs(self.collateral));
        out
    }

    /// Config query.
    pub fn query_config(&self) -> (r: ConfigResponse)
        ensures
            r.admin == self.config.admin,
            r.eutc_token == self.config.eutc_token,
            r.vault == self.config.vault,
            r.reserve == self.config.reserve,
            r.oracle == self.config.oracle,
            r.oracle_mode == self.config.oracle_mode,
            r.collateral_tokens@ == slot_pairs(self.tokens),
    {
        let oracle = match &self.config.oracle {
            Some(o) => Some(o.clone()),
            None => None,
        };
        ConfigResponse {
            admin: self.config.admin.clone(),
            eutc_token: self.config.eutc_token.clone(),
            vault: self.config.vault.clone(),
            reserve: self.config.reserve.clone(),
            oracle,
            oracle_mode: self.config.oracle_mode,
            collateral_tokens: self.collateral_tokens(),
        }
    }

    /// State query: switches, parameters, ledgers and the stored redemption
    /// window (day 0, nothing redeemed, when none is stored).
    pub fn query_state(&self) -> (r: StateResponse)
        ensures
            r.status == self.status,
            r.params == self.params,
            r.collateral@ == slot_pairs(self.collateral),
            r.redeem_window_day == (match self.redeem_window {
                Some(w) => w.0,
                None => 0,
            }),
            r.redeemed_today == (match self.redeem_window {
                Some(w) => w.1,
                None => 0,
            }),
    {
        let window: (u64, u128) = match self.redeem_window {
            Some(w) => w,
            None => (0, 0),
        };
        StateResponse {
            status: self.status,
            params: self.params,
            collateral: self.collect_collateral(),
            redeem_window_day: window.0,
            redeemed_today: window.1,
        }
    }

    /// Price query: the rate the oracle rule gives at `now`, or zero and
    /// not fresh when it refuses.
    pub fn query_price(&self, now: u64, quote: CollateralType, inputs: &RateInputs) -> (r:
        PriceResponse)
        ensures
            r.quote == quote,
            match oracle_rate_spec(self.config, self.params, quote, *inputs, now) {
                Ok(rate) => r.fresh && r.rate@ == decimal_text(rate),
                Err(_) => !r.fresh && r.rate@ == decimal_text(0),
            },
    {
        let (rate, fresh): (u128, bool) = match oracle_rate(&self.config, &self.params, quote, inputs, now) {
            Ok(v) => (v, true),
            Err(_) => (0, false),
        };
        PriceResponse { quote, rate: decimal_to_string(rate), fresh }
    }

    /// Diagnostics query. `supply` is the EUTC total supply; the reserve's
    /// balances and LUNC vault, and the adapter's health verdict, are
    /// `None` when those queries failed (they then count as empty, zero and
    /// unhealthy). Refused only when a sum leaves the 128-bit range.
    pub fn query_protocol_info(
        &self,
        now: u64,
        supply: u128,
        reserve_balances: Option<Vec<(CollateralType, u128)>>,
        reserve_lunc: Option<u128>,
        oracle_healthy: Option<bool>,
    ) -> (r: Result<ProtocolInfo, ContractError>)
        requires
            self.wf(),
        ensures
            ({
                let reserve = match reserve_balances {
                    Some(v) => v@,
                    None => Seq::<(CollateralType, u128)>::empty(),
                };
                let lunc = match reserve_lunc {
                    Some(l) => l,
                    None => 0,
                };
                let healthy = match oracle_healthy {
                    Some(h) => h,
                    None => false,
                };
                let aborts = self.total_primary() > u128::MAX || self.total_minted() > u128::MAX
                    || sum_amounts(reserve) > u128::MAX || (self.total_minted() != 0 && (
                self.total_primary() + sum_amounts(reserve) > u128::MAX || mul_div(
                    self.total_primary() + sum_amounts(reserve),
                    100,
                    self.total_minted(),
                ) > u128::MAX));
                &&& aborts ==> r == Err::<ProtocolInfo, ContractError>(
                    ContractError::Abort(AbortAt::Diagnostics),
                )
                &&& !aborts ==> (r matches Ok(info) && protocol_info_ok(
                    *self,
                    now,
                    supply,
                    reserve,
                    lunc,
                    healthy,
                    info,
                ))
            }),
    {
        let window: (u64, u128) = match self.redeem_window {
            Some(w) => w,
            None => (0, 0),
        };
        let day = current_day(now);
        let today = if window.0 == day {
            window.1
        } else {
            0
        };
        proof {
            lemma_mul_div_share_le(supply as int, self.params.daily_redeem_cap_bps as int, 10_000);
        }
        let cap = match checked_multiply_ratio(supply, self.params.daily_redeem_cap_bps as u128, BPS) {
            Some(v) => v,
            None => 0,
        };
        let collateral = self.collect_collateral();
        let e = ledger_of(&self.collateral.eurc);
        let u = ledger_of(&self.collateral.usdc);
        let primary_total = match e.primary_balance.checked_add(u.primary_balance) {
            Some(v) => v,
            None => {
                return Err(ContractError::Abort(AbortAt::Diagnostics));
            },
        };
        let minted_total = match e.eutc_minted.checked_add(u.eutc_minted) {
            Some(v) => v,
            None => {
                return Err(ContractError::Abort(AbortAt::Diagnostics));
            },
        };
        let secondary: Vec<(CollateralType, u128)> = match reserve_balances {
            Some(v) => v,
            None => Vec::new(),
        };
        let lunc: u128 = match reserve_lunc {
            Some(l) => l,
            None => 0,
        };
        let stable_total = match sum_balances(&secondary) {
            Some(v) => v,
            None => {
                return Err(ContractError::Abort(AbortAt::Diagnostics));
            },
        };
        let ratio: u128 = if minted_total == 0 {
            0
        } else {
            let backing = match primary_total.checked_add(stable_total) {
                Some(v) => v,
                None => {
                    return Err(ContractError::Abort(AbortAt::Diagnostics));
                },
            };
            match checked_multiply_ratio(backing, 100, minted_total) {
                Some(v) => v,
                None => {
                    return Err(ContractError::Abort(AbortAt::Diagnostics));
                },
            }
        };
        let healthy = match &self.config.oracle {
            Some(_) => match oracle_healthy {
                Some(h) => h,
                None => false,
            },
            None => false,
        };
        Ok(
            ProtocolInfo {
                status: self.status,
                params: self.params,
                eutc_denom: self.config.eutc_token.clone(),
                eutc_total_supply: supply,
                eutc_minted_total: minted_total,
                collateral,
                collateral_ratio_pct: ratio,
                daily_redeem_remaining: cap.saturating_sub(today),
                redeem_window_day: window.0,
                secondary_reserve: secondary,
                reserve_lunc_vault: lunc,
                oracle_healthy: healthy,
            },
        )
    }
}


/// The two pause gates are independent: the mint gate never changes the
/// outcome of a redemption, and the redeem gate never changes the outcome
/// of a mint.
pub proof fn lemma_pause_gates_independent(
    s: CoreState,
    mint_paused: bool,
    redeem_paused: bool,
    env: BlockEnv,
    c: CollateralType,
    amount: u128,
    addr_used: Option<u128>,
    last_mint: Option<(u64, u128)>,
    inputs: RateInputs,
    supply_query: Result<u128, String>,
)
    ensures
        (CoreState { status: ProtocolStatus { mint_paused, ..s.status }, ..s }).redeem_quote(
            env,
            c,
            amount,
            addr_used,
            last_mint,
            inputs,
            supply_query,
        ) == s.redeem_quote(env, c, amount, addr_used, last_mint, inputs, supply_query),
        (CoreState { status: ProtocolStatus { redeem_paused, ..s.status }, ..s }).mint_quote(
            env,
            c,
            amount,
            inputs,
            supply_query,
        ) == s.mint_quote(env, c, amount, inputs, supply_query),
{
}

/// A mint followed by a redemption of everything it minted, both at the
/// same rate, never returns more collateral than was deposited: the
/// mint→redeem loop cannot profit (before fees, which only lower the
/// payout further).
pub proof fn lemma_round_trip_never_profits(amount: u128, rate: u128, premium: u64)
    requires
        rate > 0,
        premium <= 10_000,
    ensures
        mul_div(
            bps_of(mint_gross(amount, rate), 10_000 - premium),
            rate as int,
            DECIMAL_FRACTIONAL as int,
        ) <= amount,
{
    let d = DECIMAL_FRACTIONAL as int;
    let gross = mint_gross(amount, rate);
    lemma_mul_div_floor(amount as int, d, rate as int);
    lemma_mul_div_share_le(gross, 10_000 - premium, 10_000);
    let minted = bps_of(gross, 10_000 - premium);
    lemma_mul_div_monotonic(minted, gross, rate as int, d);
    lemma_mul_div_floor(gross, rate as int, d);
    assert(mul_div(gross, rate as int, d) <= amount) by (nonlinear_arith)
        requires
            mul_div(gross, rate as int, d) * d <= gross * rate,
            gross * rate <= amount * d,
            d > 0,
    ;
}


/// The daily windows reset: what was minted or redeemed on one accounting
/// day counts as nothing on any other day.
pub proof fn lemma_windows_reset(s: CoreState, c: CollateralType, day: u64, other: u64)
    requires
        day != other,
    ensures
        s.redeem_window matches Some(w) && w.0 == day ==> s.redeemed_today(other) == 0,
        s.mint_windows.at(c) matches Some(w) && w.0 == day ==> s.minted_today(c, other) == 0,
{
}

/// The day-start snapshot is stable: once a day's supply has been taken
/// (and stored), every later lookup on the same day returns that same
/// supply and stores nothing, whatever the supply query answers then.
pub proof fn lemma_day_snapshot_stable(
    s: CoreState,
    day: u64,
    first_query: Result<u128, String>,
    later_query: Result<u128, String>,
)
    ensures
        s.day_supply_for(day, first_query) matches Ok((supply, snap)) ==> (CoreState {
            day_supply: if snap is Some {
                snap
            } else {
                s.day_supply
            },
            ..s
        }).day_supply_for(day, later_query) == Ok::<(u128, Option<DaySnapshot>), ContractError>(
            (supply, None),
        ),
{
}

/// The rate rule fails closed in both price-source modes. An accepted rate
/// is non-zero and is either the usable consensus rate (consensus-primary
/// mode only) or the configured adapter's answer, at most
/// `oracle_stale_secs` old at `now`. Whenever the adapter is the source
/// (adapter-only mode, or no usable consensus rate) and its price is zero
/// or older than that, the answer is `OracleStale`. The consensus rate of
/// EURC is exactly 1, and that of USDC is the chain's non-zero USD quote.
pub proof fn lemma_oracle_rate_fail_closed(
    config: Config,
    params: Params,
    c: CollateralType,
    inputs: RateInputs,
    now: u64,
)
    ensures
        oracle_rate_spec(config, params, c, inputs, now) matches Ok(rate) ==> rate != 0 && ((
        config.oracle_mode == OracleMode::ConsensusPrimary && consensus_rate_spec(
            c,
            inputs.consensus_usd,
        ) == Some(rate)) || (inputs.adapter_price matches Ok(p) && config.oracle is Some
            && p.units_per_eutc.0 == rate && now <= p.updated_at + params.oracle_stale_secs)),
        inputs.adapter_price matches Ok(p) ==> ((!(config.oracle_mode == OracleMode::ConsensusPrimary
            && consensus_rate_spec(c, inputs.consensus_usd) is Some) && config.oracle is Some && (
        p.units_per_eutc.0 == 0 || now > p.updated_at + params.oracle_stale_secs))
            ==> oracle_rate_spec(config, params, c, inputs, now) == Err::<u128, ContractError>(
            ContractError::OracleStale { collateral: c },
        )),
        consensus_rate_spec(c, inputs.consensus_usd) matches Some(x) ==> (config.oracle_mode
            == OracleMode::ConsensusPrimary ==> oracle_rate_spec(config, params, c, inputs, now)
            == Ok::<u128, ContractError>(x)),
        consensus_rate_spec(CollateralType::Eurc, inputs.consensus_usd) == Some(
            1_000_000_000_000_000_000u128,
        ),
        consensus_rate_spec(CollateralType::Usdc, inputs.consensus_usd) matches Some(x) ==> x != 0
            && (inputs.consensus_usd matches Some(resp) && cross_rate_spec(
            resp.exchange_rates@,
            "uusd"@,
        ) == Some(x)),
{
}

/// The mint-velocity cap is measured against the day-start supply. For an
/// accepted mint on day `time / 86 400`: the supply is the stored snapshot
/// when it is of that day (the live supply answer is then ignored),
/// otherwise the live answer, which becomes the day's snapshot; what was
/// already minted today is the stored window of that day (zero for an
/// older window); and the day's minted total stays within
/// max(supply x daily_mint_cap_bps / 10 000, min_daily_mint_floor).
/// The deposit splits into the floored mint fee and the vaulted rest.
pub proof fn lemma_mint_cap_on_day_start_supply(
    s: CoreState,
    env: BlockEnv,
    c: CollateralType,
    amount: u128,
    inputs: RateInputs,
    supply_query: Result<u128, String>,
)
    requires
        s.wf(),
    ensures
        s.mint_quote(env, c, amount, inputs, supply_query) matches Ok(q) ==> {
            let day = env.time / 86_400;
            let current = s.day_supply is Some && s.day_supply->0.day == day;
            &&& q.day == day
            &&& current ==> q.supply == s.day_supply->0.supply && q.snapshot is None
            &&& !current ==> supply_query == Ok::<u128, String>(q.supply) && q.snapshot == Some(
                DaySnapshot { day, supply: q.supply },
            )
            &&& q.minted_today == (match s.mint_windows.at(c) {
                Some(w) => if w.0 == day {
                    w.1
                } else {
                    0
                },
                None => 0,
            })
            &&& (q.minted_today + q.eutc_minted <= q.supply * s.params.daily_mint_cap_bps / 10_000
                || q.minted_today + q.eutc_minted <= s.params.min_daily_mint_floor)
            &&& q.fee == amount * s.params.mint_fee_bps / 10_000
            &&& q.to_vault == amount - q.fee
        },
{
    lemma_mint_quote_laws(s, env, c, amount, inputs, supply_query);
}

/// The redemption fee adds its three parts. For an accepted redemption on
/// day `time / 86 400`, with `today` the EUTC already redeemed that day,
/// `cap` = supply x daily_redeem_cap_bps / 10 000 on the day-start supply,
/// utilization = min(today x 10 000 / cap, 10 000) (zero for a zero cap),
/// and the flash window open when the redeemer's last mint is at most
/// `flash_fee_window_blocks` old: the fee rate is
/// min(redeem_fee_bps + max_dynamic_spread_bps x utilization / 10 000
/// + (flash_fee_bps when the window is open), 10 000), the fee is that
/// share of the released collateral, and the payout is the rest.
pub proof fn lemma_redeem_fee_adds_up(
    s: CoreState,
    env: BlockEnv,
    c: CollateralType,
    amount: u128,
    addr_used: Option<u128>,
    last_mint: Option<(u64, u128)>,
    inputs: RateInputs,
    supply_query: Result<u128, String>,
)
    requires
        s.wf(),
    ensures
        s.redeem_quote(env, c, amount, addr_used, last_mint, inputs, supply_query) matches Ok(q) ==> {
            let day = env.time / 86_400;
            let current = s.day_supply is Some && s.day_supply->0.day == day;
            let today: int = match s.redeem_window {
                Some(w) => if w.0 == day {
                    w.1 as int
                } else {
                    0
                },
                None => 0,
            };
            let cap: int = q.supply * s.params.daily_redeem_cap_bps / 10_000;
            let util: int = if cap == 0 {
                0
            } else if today * 10_000 / cap <= 10_000 {
                today * 10_000 / cap
            } else {
                10_000
            };
            let open = match last_mint {
                Some(m) => (if env.height >= m.0 {
                    env.height - m.0
                } else {
                    0
                }) <= s.params.flash_fee_window_blocks,
                None => false,
            };
            let sum: int = s.params.redeem_fee_bps + s.params.max_dynamic_spread_bps * util / 10_000
                + (if open {
                s.params.flash_fee_bps as int
            } else {
                0
            });
            &&& current ==> q.supply == s.day_supply->0.supply
            &&& !current ==> supply_query == Ok::<u128, String>(q.supply)
            &&& q.redeemed_today == today
            &&& q.daily_cap == cap
            &&& q.flash_fee == open
            &&& q.effective_fee_bps == (if sum <= 10_000 {
                sum
            } else {
                10_000
            })
            &&& q.collateral_units == amount * q.rate / 1_000_000_000_000_000_000
            &&& q.fee == q.collateral_units * q.effective_fee_bps / 10_000
            &&& q.payout == q.collateral_units - q.fee
        },
{
    lemma_redeem_quote_laws(s, env, c, amount, addr_used, last_mint, inputs, supply_query);
}

/// The diagnostics' daily redemption headroom is the daily cap on the
/// given supply less what was already redeemed on the day of `now`
/// (never below zero).
pub proof fn lemma_diagnostics_headroom(
    s: CoreState,
    now: u64,
    supply: u128,
    reserve: Seq<(CollateralType, u128)>,
    lunc: u128,
    healthy: bool,
    info: ProtocolInfo,
)
    ensures
        protocol_info_ok(s, now, supply, reserve, lunc, healthy, info) ==> {
            let today: int = match s.redeem_window {
                Some(w) => if w.0 == now / 86_400 {
                    w.1 as int
                } else {
                    0
                },
                None => 0,
            };
            let cap: int = supply * s.params.daily_redeem_cap_bps / 10_000;
            info.daily_redeem_remaining == (if cap >= today {
                cap - today
            } else {
                0
            })
        },
{
}

/// The diagnostics' headroom is the one redemptions are held to: when the
/// day's snapshot is the supply the diagnostics were computed on, every
/// redemption at that time of more than the reported headroom is refused.
pub proof fn lemma_headroom_bounds_redemptions(
    s: CoreState,
    env: BlockEnv,
    supply: u128,
    reserve: Seq<(CollateralType, u128)>,
    lunc: u128,
    healthy: bool,
    info: ProtocolInfo,
    c: CollateralType,
    amount: u128,
    addr_used: Option<u128>,
    last_mint: Option<(u64, u128)>,
    inputs: RateInputs,
    supply_query: Result<u128, String>,
)
    requires
        s.wf(),
        s.day_supply == Some(DaySnapshot { day: env.time / 86_400, supply }),
        protocol_info_ok(s, env.time, supply, reserve, lunc, healthy, info),
        amount > info.daily_redeem_remaining,
    ensures
        s.redeem_quote(env, c, amount, addr_used, last_mint, inputs, supply_query) is Err,
{
}

/// A pause sets each gate from its own flag: the mint gate from `mint`
/// alone and the redeem gate from `redeem` alone.
pub proof fn lemma_pause_sets_each_gate(s: CoreState, mint: bool, redeem: bool)
    ensures
        admin_effect(s, AdminAction::Pause { mint, redeem }) matches Ok(t) && t.status.mint_paused
            == mint && t.status.redeem_paused == redeem && t.params == s.params && t.config
            == s.config,
{
}

} // verus!
