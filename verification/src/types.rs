//! Shared protocol types: collateral kinds, pause switches, price-source
//! selection, protocol parameters and per-collateral accounting.

use vstd::prelude::*;

verus! {

/// Collateral types accepted for EUTC minting: EURC is the primary
/// collateral at 1:1, USDC is accepted with a premium.
#[derive(Clone, Copy, Debug, PartialEq, Eq, Structural, PartialOrd, Ord, Hash)]
pub enum CollateralType {
    Eurc,
    Usdc,
}

/// The storage key of a collateral type.
pub open spec fn collateral_key(c: CollateralType) -> Seq<char> {
    match c {
        CollateralType::Eurc => "eurc"@,
        CollateralType::Usdc => "usdc"@,
    }
}

/// Whether two string slices hold the same characters.
pub fn str_eq(a: &str, b: &str) -> (r: bool)
    ensures
        r == (a@ == b@),
{
    let x: String = a.to_owned();
    let y: String = b.to_owned();
    x == y
}

impl CollateralType {
    /// The storage key of this collateral type.
    pub fn as_str(&self) -> (r: &'static str)
        ensures
            r@ == collateral_key(*self),
    {
        match self {
            CollateralType::Eurc => "eurc",
            CollateralType::Usdc => "usdc",
        }
    }

    /// Inverse of `as_str`: the collateral type whose key is `s`, if any.
    pub fn from_str_key(s: &str) -> (r: Option<CollateralType>)
        ensures
            r == (if s@ == "eurc"@ {
                Some(CollateralType::Eurc)
            } else if s@ == "usdc"@ {
                Some(CollateralType::Usdc)
            } else {
                None::<CollateralType>
            }),
    {
        if str_eq(s, "eurc") {
            Some(CollateralType::Eurc)
        } else if str_eq(s, "usdc") {
            Some(CollateralType::Usdc)
        } else {
            None
        }
    }
}

/// The two keys are distinct strings.
pub proof fn lemma_keys_distinct()
    ensures
        "eurc"@ != "usdc"@,
        collateral_key(CollateralType::Eurc) != collateral_key(CollateralType::Usdc),
{
    reveal_strlit("eurc");
    reveal_strlit("usdc");
    assert("eurc"@[0] != "usdc"@[0]);
}

/// `from_str_key` inverts `as_str`: decoding the key of any collateral type
/// gives that collateral type back.
pub proof fn lemma_key_round_trip(c: CollateralType)
    ensures
        (if collateral_key(c) == "eurc"@ {
            Some(CollateralType::Eurc)
        } else if collateral_key(c) == "usdc"@ {
            Some(CollateralType::Usdc)
        } else {
            None::<CollateralType>
        }) == Some(c),
{
    lemma_keys_distinct();
}

/// One value per collateral type, each possibly absent.
#[derive(Clone, Debug, PartialEq, Eq)]
pub struct Slots<T> {
    pub eurc: Option<T>,
    pub usdc: Option<T>,
}

impl<T> Slots<T> {
    pub open spec fn at(self, c: CollateralType) -> Option<T> {
        match c {
            CollateralType::Eurc => self.eurc,
            CollateralType::Usdc => self.usdc,
        }
    }

    /// Both slots empty.
    pub fn empty() -> (r: Slots<T>)
        ensures
            r.eurc is None,
            r.usdc is None,
    {
        Slots { eurc: None, usdc: None }
    }

    pub fn get(&self, c: CollateralType) -> (r: &Option<T>)
        ensures
            *r == self.at(c),
    {
        match c {
            CollateralType::Eurc => &self.eurc,
            CollateralType::Usdc => &self.usdc,
        }
    }

    pub fn set(&mut self, c: CollateralType, v: Option<T>)
        ensures
            final(self).at(c) == v,
            forall|d: CollateralType| d != c ==> #[trigger] final(self).at(d) == old(self).at(d),
    {
        match c {
            CollateralType::Eurc => {
                self.eurc = v;
            },
            CollateralType::Usdc => {
                self.usdc = v;
            },
        }
    }
}

/// Kill-switch granularity: mint and redemption pause independently.
#[derive(Clone, Copy, Debug, PartialEq, Eq, Structural)]
pub struct ProtocolStatus {
    pub mint_paused: bool,
    pub redeem_paused: bool,
}

impl ProtocolStatus {
    /// Both gates open.
    pub fn active() -> (r: ProtocolStatus)
        ensures
            !r.mint_paused,
            !r.redeem_paused,
    {
        ProtocolStatus { mint_paused: false, redeem_paused: false }
    }
}

/// Price-source selection: chain consensus rates first (falling back to the
/// feeder adapter), or the feeder adapter alone.
#[derive(Clone, Copy, Debug, PartialEq, Eq, Structural)]
pub enum OracleMode {
    ConsensusPrimary,
    AdapterOnly,
}

/// Number of atomics in one unit of a `Decimal`.
pub const DECIMAL_FRACTIONAL: u128 = 1_000_000_000_000_000_000u128;

/// A fixed-point number with 18 fractional digits, held as its atomics
/// (value times 10^18).
#[derive(Clone, Copy, Debug, PartialEq, Eq, Structural)]
pub struct Decimal(pub u128);

impl Decimal {
    /// The value 0.
    pub fn zero() -> (r: Decimal)
        ensures
            r.0 == 0,
    {
        Decimal(0)
    }

    /// The value 1.
    pub fn one() -> (r: Decimal)
        ensures
            r.0 == DECIMAL_FRACTIONAL,
    {
        Decimal(DECIMAL_FRACTIONAL)
    }

    pub fn is_zero(&self) -> (r: bool)
        ensures
            r == (self.0 == 0),
    {
        self.0 == 0
    }

    /// The 18-decimal atomics of this value.
    pub fn atomics(&self) -> (r: u128)
        ensures
            r == self.0,
    {
        self.0
    }
}

/// A native coin amount of one denom, in micro-units.
#[derive(Clone, Debug, PartialEq, Eq)]
pub struct Coin {
    pub denom: String,
    pub amount: u128,
}

/// Protocol parameters. Fee and cap values are in basis points (1.5% = 150).
#[derive(Clone, Copy, Debug, PartialEq, Eq, Structural)]
pub struct Params {
    /// Fee taken in the collateral used, on mint.
    pub mint_fee_bps: u64,
    /// Fee taken in the collateral withdrawn, on redemption.
    pub redeem_fee_bps: u64,
    /// USDC mint premium.
    pub usdc_premium_bps: u64,
    /// Maximum share of day-start supply redeemable per day.
    pub daily_redeem_cap_bps: u64,
    /// Reserved: USDC/EURC value differential for reserve rebalancing; not enforced.
    pub rebalance_threshold_bps: u64,
    /// Minimum seconds between oracle price updates.
    pub oracle_min_interval_secs: u64,
    /// Price older than this is stale; mints fail closed.
    pub oracle_stale_secs: u64,
    /// Per-address share of day-start supply redeemable per day.
    pub per_addr_redeem_cap_bps: u64,
    /// Maximum new supply mintable per day, per collateral.
    pub daily_mint_cap_bps: u64,
    /// Absolute floor on the daily mint allowance per collateral.
    pub min_daily_mint_floor: u64,
    /// Redeem-spread headroom added linearly with daily-window utilization.
    pub max_dynamic_spread_bps: u64,
    /// Extra redeem fee for units minted to the sender within the flash window.
    pub flash_fee_bps: u64,
    pub flash_fee_window_blocks: u64,
    /// Mints revert while the aggregate primary ratio is below this.
    pub min_primary_ratio_bps: u64,
}

/// The first rule that `p` breaks, as the message `validate` reports, or
/// `None` when `p` is acceptable.
pub open spec fn params_error(p: Params) -> Option<Seq<char>> {
    if p.mint_fee_bps > 5_000 || p.redeem_fee_bps > 5_000 {
        Some("fees above 50% are rejected"@)
    } else if p.usdc_premium_bps > 5_000 {
        Some("USDC premium above 50% is rejected"@)
    } else if p.daily_redeem_cap_bps == 0 || p.daily_redeem_cap_bps > 10_000 {
        Some("daily redeem cap must be between 0.01% and 100%"@)
    } else if p.oracle_min_interval_secs == 0 || p.oracle_stale_secs < p.oracle_min_interval_secs {
        Some("stale threshold must be >= min feed interval"@)
    } else if p.per_addr_redeem_cap_bps == 0 || p.per_addr_redeem_cap_bps
        > p.daily_redeem_cap_bps {
        Some("per-address redeem cap must be in (0, daily_redeem_cap]"@)
    } else if p.daily_mint_cap_bps == 0 || p.daily_mint_cap_bps > 10_000 {
        Some("daily mint cap must be between 0.01% and 100%"@)
    } else if p.min_daily_mint_floor == 0 {
        Some("min daily mint floor must be positive"@)
    } else if p.max_dynamic_spread_bps > 5_000 {
        Some("dynamic spread headroom above 50% is rejected"@)
    } else if p.flash_fee_bps > 5_000 || p.flash_fee_window_blocks > 500 {
        Some("flash fee above 50% or window above 500 blocks is rejected"@)
    } else if p.min_primary_ratio_bps > 30_000 {
        Some("min primary ratio above 300% is rejected"@)
    } else {
        None
    }
}

impl Params {
    /// `validate` accepts these parameters.
    pub open spec fn valid(self) -> bool {
        params_error(self) is None
    }

    /// Checks the parameter bounds; the error names the first rule broken.
    pub fn validate(&self) -> (r: Result<(), String>)
        ensures
            r is Ok <==> params_error(*self) is None,
            r matches Err(s) ==> params_error(*self) == Some(s@),
    {
        if self.mint_fee_bps > 5_000 || self.redeem_fee_bps > 5_000 {
            return Err("fees above 50% are rejected".to_string());
        }
        if self.usdc_premium_bps > 5_000 {
            return Err("USDC premium above 50% is rejected".to_string());
        }
        if self.daily_redeem_cap_bps == 0 || self.daily_redeem_cap_bps > 10_000 {
            return Err("daily redeem cap must be between 0.01% and 100%".to_string());
        }
        if self.oracle_min_interval_secs == 0 || self.oracle_stale_secs
            < self.oracle_min_interval_secs {
            return Err("stale threshold must be >= min feed interval".to_string());
        }
        if self.per_addr_redeem_cap_bps == 0 || self.per_addr_redeem_cap_bps
            > self.daily_redeem_cap_bps {
            return Err("per-address redeem cap must be in (0, daily_redeem_cap]".to_string());
        }
        if self.daily_mint_cap_bps == 0 || self.daily_mint_cap_bps > 10_000 {
            return Err("daily mint cap must be between 0.01% and 100%".to_string());
        }
        if self.min_daily_mint_floor == 0 {
            return Err("min daily mint floor must be positive".to_string());
        }
        if self.max_dynamic_spread_bps > 5_000 {
            return Err("dynamic spread headroom above 50% is rejected".to_string());
        }
        if self.flash_fee_bps > 5_000 || self.flash_fee_window_blocks > 500 {
            return Err(
                "flash fee above 50% or window above 500 blocks is rejected".to_string(),
            );
        }
        if self.min_primary_ratio_bps > 30_000 {
            return Err("min primary ratio above 300% is rejected".to_string());
        }
        Ok(())
    }
}

/// The protocol's default parameters.
pub open spec fn default_params() -> Params {
    Params {
        mint_fee_bps: 150,
        redeem_fee_bps: 150,
        usdc_premium_bps: 50,
        daily_redeem_cap_bps: 1000,
        rebalance_threshold_bps: 500,
        oracle_min_interval_secs: 30,
        oracle_stale_secs: 300,
        per_addr_redeem_cap_bps: 100,
        daily_mint_cap_bps: 2000,
        min_daily_mint_floor: 100_000_000,
        max_dynamic_spread_bps: 1000,
        flash_fee_bps: 300,
        flash_fee_window_blocks: 30,
        min_primary_ratio_bps: 9_500,
    }
}

impl Default for Params {
    fn default() -> (r: Self)
        ensures
            r == default_params(),
    {
        Params {
            mint_fee_bps: 150,
            redeem_fee_bps: 150,
            usdc_premium_bps: 50,
            daily_redeem_cap_bps: 1000,
            rebalance_threshold_bps: 500,
            oracle_min_interval_secs: 30,
            oracle_stale_secs: 300,
            per_addr_redeem_cap_bps: 100,
            daily_mint_cap_bps: 2000,
            min_daily_mint_floor: 100_000_000,
            max_dynamic_spread_bps: 1000,
            flash_fee_bps: 300,
            flash_fee_window_blocks: 30,
            min_primary_ratio_bps: 9_500,
        }
    }
}

/// The default parameters pass validation.
pub proof fn lemma_default_params_valid()
    ensures
        default_params().valid(),
{
}

/// Valid parameters bound every fee and cap: no fee exceeds 50%, the caps
/// lie in (0%, 100%], the per-address cap never exceeds the daily cap, and
/// the staleness threshold is at least the feed interval.
pub proof fn lemma_valid_params_bounds(p: Params)
    requires
        p.valid(),
    ensures
        p.mint_fee_bps <= 5_000,
        p.redeem_fee_bps <= 5_000,
        p.usdc_premium_bps <= 5_000,
        0 < p.daily_redeem_cap_bps <= 10_000,
        0 < p.per_addr_redeem_cap_bps <= p.daily_redeem_cap_bps,
        0 < p.daily_mint_cap_bps <= 10_000,
        p.min_daily_mint_floor > 0,
        p.max_dynamic_spread_bps <= 5_000,
        p.flash_fee_bps <= 5_000,
        p.flash_fee_window_blocks <= 500,
        p.min_primary_ratio_bps <= 30_000,
        0 < p.oracle_min_interval_secs <= p.oracle_stale_secs,
{
}

/// Per-collateral accounting: the four ledgers stay separate.
#[derive(Clone, Copy, Debug, PartialEq, Eq, Structural)]
pub struct CollateralState {
    /// EUTC minted against this collateral type, gross of premiums.
    pub eutc_minted: u128,
    /// Collateral currently custodied by the module.
    pub primary_balance: u128,
    /// Fees routed to the secondary reserve from this collateral type.
    pub fees_collected: u128,
    /// Lifetime collateral returned to redeemers.
    pub collateral_returned: u128,
}

impl Default for CollateralState {
    fn default() -> (r: Self)
        ensures
            r == (CollateralState {
                eutc_minted: 0,
                primary_balance: 0,
                fees_collected: 0,
                collateral_returned: 0,
            }),
    {
        CollateralState { eutc_minted: 0, primary_balance: 0, fees_collected: 0, collateral_returned: 0 }
    }
}


/// Queries the core answers.
#[derive(Clone, Copy, Debug, PartialEq, Eq, Structural)]
pub enum QueryMsg {
    Config {},
    State {},
    Price { quote: CollateralType },
    ProtocolInfo {},
}

/// The core's wiring.
#[derive(Clone, Debug, PartialEq, Eq)]
pub struct ConfigResponse {
    pub admin: String,
    pub eutc_token: String,
    pub vault: String,
    pub reserve: String,
    pub oracle: Option<String>,
    pub oracle_mode: OracleMode,
    pub collateral_tokens: Vec<(CollateralType, String)>,
}

/// The core's switches, parameters and ledgers.
#[derive(Debug, PartialEq, Eq)]
pub struct StateResponse {
    pub status: ProtocolStatus,
    pub params: Params,
    pub collateral: Vec<(CollateralType, CollateralState)>,
    pub redeem_window_day: u64,
    pub redeemed_today: u128,
}

/// Collateral units per 1 EUTC for a quote, as decimal text, and whether a
/// usable price exists.
#[derive(Clone, Debug, PartialEq, Eq)]
pub struct PriceResponse {
    pub quote: CollateralType,
    pub rate: String,
    pub fresh: bool,
}

/// Public diagnostics answer.
#[derive(Debug, PartialEq, Eq)]
pub struct ProtocolInfo {
    pub status: ProtocolStatus,
    pub params: Params,
    pub eutc_denom: String,
    pub eutc_total_supply: u128,
    pub eutc_minted_total: u128,
    pub collateral: Vec<(CollateralType, CollateralState)>,
    /// (custody + reserve stable balances) / minted, in percent; 0 when nothing minted.
    pub collateral_ratio_pct: u128,
    pub daily_redeem_remaining: u128,
    pub redeem_window_day: u64,
    pub secondary_reserve: Vec<(CollateralType, u128)>,
    pub reserve_lunc_vault: u128,
    pub oracle_healthy: bool,
}

} // verus!
