//! The legacy-unit conversion bridge: holders of the legacy fiat denoms
//! attach them to a conversion, which records a capped, linearly vesting
//! claim and forwards the coins to a sink; claims are acknowledged as they
//! vest.

use vstd::prelude::*;
use crate::types::{Coin, str_eq};
use crate::consensus::{is_legacy_forex_denom, legacy_forex_denoms_spec};
use crate::math::{multiply_ratio, mul_div, lemma_mul_div_share_le, lemma_mul_div_monotonic};

verus! {

/// Blocks per vesting day.
pub const BLOCKS_PER_DAY: u64 = 7_200u64;

/// Default global per-denom conversion cap (micro-units).
pub const DEFAULT_GLOBAL_CAP: u128 = 1_000_000_000_000u128;

/// Default per-address per-denom conversion cap (micro-units).
pub const DEFAULT_PER_ADDRESS_CAP: u128 = 10_000_000u128;

/// The disclosure every conversion carries: eligibility is no promise of value.
pub const CONVERSION_NOTICE: &'static str = "Conversion eligibility is NOT a promise of value; legacy units have no guaranteed redemption, and vested claims are exchangeable only for collateralized units against fresh collateral, subject to program terms and liquidity.";

/// Bridge instantiation message.
#[derive(Clone, Debug, PartialEq, Eq)]
pub struct InstantiateMsg {
    pub admin: String,
    pub sink_address: String,
    pub vesting_days: u64,
    pub open: bool,
}

/// Migration message (carries nothing).
#[derive(Clone, Copy, Debug, PartialEq, Eq, Structural)]
pub struct MigrateMsg {}

/// Bridge queries.
#[derive(Clone, Debug, PartialEq, Eq)]
pub enum QueryMsg {
    Config {},
    Claim { address: String, denom: String },
    ConvertedTotals { denom: String },
}

/// Bridge configuration answer; caps as decimal text.
#[derive(Clone, Debug, PartialEq, Eq)]
pub struct ConfigResponse {
    pub admin: String,
    pub sink_address: String,
    pub vesting_days: u64,
    pub open: bool,
    pub global_cap: String,
    pub per_address_cap: String,
}

/// A holder's claim (if any), the vested amount and the program state.
#[derive(Clone, Debug, PartialEq, Eq)]
pub struct ClaimResponse {
    pub claim: Option<ClaimInfo>,
    pub vested: String,
    pub program_open: bool,
}

/// A claim, amounts as decimal text.
#[derive(Clone, Debug, PartialEq, Eq)]
pub struct ClaimInfo {
    pub denom: String,
    pub total: String,
    pub claimed: String,
    pub start_block: u64,
    pub end_block: u64,
}

/// Lifetime converted total of a denom, as decimal text.
#[derive(Clone, Debug, PartialEq, Eq)]
pub struct TotalsResponse {
    pub denom: String,
    pub converted: String,
}

/// Bridge configuration.
#[derive(Clone, Debug, PartialEq, Eq)]
pub struct Config {
    pub admin: String,
    pub sink_address: String,
    pub vesting_days: u64,
    pub open: bool,
    /// Global per-denom conversion cap in micro-units.
    pub global_cap: u128,
    /// Per-address per-denom conversion cap in micro-units.
    pub per_address_cap: u128,
}

/// A vesting claim.
#[derive(Clone, Debug, PartialEq, Eq)]
pub struct Claim {
    pub denom: String,
    pub total: u128,
    pub claimed: u128,
    pub start_block: u64,
    pub end_block: u64,
}

/// Why the bridge refused a message.
#[derive(Clone, Debug, PartialEq, Eq)]
pub enum ContractError {
    /// An address failed validation; the text is the validator's message.
    Std(String),
    Unauthorized,
    NotConvertible { denom: String },
    FundsMismatch { sent: u128, declared: u128, denom: String },
    NoFunds,
    ProgramClosed,
    GlobalCapExceeded { cap: u128, used: u128, denom: String },
    AddressCapExceeded { cap: u128, used: u128, denom: String },
    NothingToClaim,
    /// The attached funds repeat a denom.
    InvalidFunds,
    /// The attached funds do not hold exactly one denom.
    NotOneDenom,
    /// The per-address cap would exceed the global cap.
    CapsInverted,
    /// The vesting period is zero days.
    ZeroVesting,
    /// A total or a block height leaves its range; the contract aborts.
    Overflow,
}

/// An admin action, with each address already put through validation.
#[derive(Debug, PartialEq, Eq)]
pub enum BridgeAdminAction {
    SetOpen { open: bool },
    SetCaps { global: u128, per_address: u128 },
    SetAdmin { admin: Result<String, String> },
}

/// A bank transfer the bridge emits.
#[derive(Clone, Debug, PartialEq, Eq)]
pub struct BankSend {
    pub to_address: String,
    pub amount: Vec<Coin>,
}

/// An accepted conversion: the storage to write and the transfer to make.
#[derive(Debug, PartialEq, Eq)]
pub struct ConvertOutcome {
    pub denom: String,
    pub amount: u128,
    /// The holder's claim after the conversion.
    pub claim: Claim,
    /// New lifetime total of the denom.
    pub converted_total: u128,
    /// New lifetime total of the denom for the holder.
    pub converted_by_holder: u128,
    pub vesting_end_block: u64,
    /// The coins forwarded to the sink.
    pub send: BankSend,
    /// The no-promise-of-value disclosure.
    pub disclosure: &'static str,
}

/// An accepted claim acknowledgement.
#[derive(Debug, PartialEq, Eq)]
pub struct ClaimOutcome {
    pub claimable: u128,
    /// The claim to store, `None` when it is complete and removed.
    pub remaining: Option<Claim>,
}

/// The attached coins with a non-zero amount, in order.
pub open spec fn nonzero_coins(s: Seq<Coin>) -> Seq<Coin>
    decreases s.len(),
{
    if s.len() == 0 {
        s
    } else if s.last().amount == 0 {
        nonzero_coins(s.drop_last())
    } else {
        nonzero_coins(s.drop_last()).push(s.last())
    }
}

/// No two coins share a denom.
pub open spec fn distinct_denoms(s: Seq<Coin>) -> bool {
    forall|i: int, j: int| 0 <= i < j < s.len() ==> #[trigger] s[i].denom@ != #[trigger] s[j].denom@
}

/// Calls `cosmwasm_std::Coins::try_from(Vec<Coin>)` and returns the coin
/// set as a vector (`Coins::into_vec`). The source skips zero amounts and
/// fails on a repeated denom; the result holds exactly the non-zero coins.
/// Their order (sorted by denom) is not stated.
#[verifier::external_body]
fn coins_try_from(funds: Vec<Coin>) -> (r: Result<Vec<Coin>, ()>)
    ensures
        r is Ok <==> distinct_denoms(nonzero_coins(funds@)),
        r matches Ok(v) ==> v@.to_multiset() == nonzero_coins(funds@).to_multiset(),
{
    let v: Vec<cosmwasm_std::Coin> = funds.into_iter().map(|c| cosmwasm_std::Coin {
        denom: c.denom,
        amount: cosmwasm_std::Uint128::new(c.amount),
    }).collect();
    match cosmwasm_std::Coins::try_from(v) {
        Ok(coins) => Ok(coins.into_vec().into_iter().map(|c| Coin {
            denom: c.denom,
            amount: c.amount.u128(),
        }).collect()),
        Err(_) => Err(()),
    }
}

/// Vested amount of a claim at `height`: nothing before the start, all of
/// it from the end block on, linear in between (floored).
pub open spec fn vested_spec(c: Claim, height: u64) -> int {
    if height >= c.end_block {
        c.total as int
    } else if height <= c.start_block {
        0
    } else {
        mul_div(c.total as int, height - c.start_block, c.end_block - c.start_block)
    }
}

/// Vested amount of a claim at `height`.
pub fn vested_amount(c: &Claim, height: u64) -> (r: u128)
    ensures
        r == vested_spec(*c, height),
{
    if height >= c.end_block {
        c.total
    } else if height <= c.start_block {
        0
    } else {
        let elapsed = (height - c.start_block) as u128;
        let span_raw = c.end_block.saturating_sub(c.start_block) as u128;
        let span: u128 = if span_raw >= 1 {
            span_raw
        } else {
            1
        };
        proof {
            lemma_mul_div_share_le(c.total as int, elapsed as int, span as int);
        }
        multiply_ratio(c.total, elapsed, span)
    }
}

/// Vesting laws: the vested amount never exceeds the claim's total and
/// never decreases as blocks pass.
pub proof fn lemma_vesting_bounded_monotonic(c: Claim, h1: u64, h2: u64)
    requires
        h1 <= h2,
    ensures
        0 <= vested_spec(c, h1) <= c.total,
        vested_spec(c, h1) <= vested_spec(c, h2),
{
    if h1 > c.start_block && h1 < c.end_block {
        lemma_mul_div_share_le(c.total as int, h1 - c.start_block, c.end_block - c.start_block);
        if h2 < c.end_block {
            let span = c.end_block - c.start_block;
            lemma_mul_div_monotonic(h1 - c.start_block, h2 - c.start_block, c.total as int, span);
            assert(mul_div(c.total as int, h1 - c.start_block, span) == mul_div(
                h1 - c.start_block,
                c.total as int,
                span,
            )) by {
                assert(c.total as int * (h1 - c.start_block) == (h1 - c.start_block) * c.total as int) by (nonlinear_arith);
            }
            assert(mul_div(c.total as int, h2 - c.start_block, span) == mul_div(
                h2 - c.start_block,
                c.total as int,
                span,
            )) by {
                assert(c.total as int * (h2 - c.start_block) == (h2 - c.start_block) * c.total as int) by (nonlinear_arith);
            }
        }
    }
}

impl Config {
    /// A fresh bridge with the default caps: the vesting period must be
    /// positive, then the admin and sink addresses must validate.
    pub fn instantiate(
        admin: Result<String, String>,
        sink_address: Result<String, String>,
        vesting_days: u64,
        open: bool,
    ) -> (r: Result<Config, ContractError>)
        ensures
            vesting_days == 0 ==> r == Err::<Config, ContractError>(ContractError::ZeroVesting),
            vesting_days != 0 && admin is Err ==> r == Err::<Config, ContractError>(
                ContractError::Std(admin->Err_0),
            ),
            vesting_days != 0 && admin is Ok && sink_address is Err ==> r == Err::<
                Config,
                ContractError,
            >(ContractError::Std(sink_address->Err_0)),
            vesting_days != 0 && admin is Ok && sink_address is Ok ==> r == Ok::<
                Config,
                ContractError,
            >(
                Config {
                    admin: admin->Ok_0,
                    sink_address: sink_address->Ok_0,
                    vesting_days,
                    open,
                    global_cap: DEFAULT_GLOBAL_CAP,
                    per_address_cap: DEFAULT_PER_ADDRESS_CAP,
                },
            ),
    {
        if vesting_days == 0 {
            return Err(ContractError::ZeroVesting);
        }
        let admin = match admin {
            Ok(a) => a,
            Err(e) => {
                return Err(ContractError::Std(e));
            },
        };
        let sink_address = match sink_address {
            Ok(a) => a,
            Err(e) => {
                return Err(ContractError::Std(e));
            },
        };
        Ok(
            Config {
                admin,
                sink_address,
                vesting_days,
                open,
                global_cap: DEFAULT_GLOBAL_CAP,
                per_address_cap: DEFAULT_PER_ADDRESS_CAP,
            },
        )
    }

    /// Executes an admin action sent by `sender`. Only the admin may act;
    /// the per-address cap may not exceed the global cap. A refused action
    /// changes nothing.
    pub fn execute_admin(&mut self, sender: &String, action: BridgeAdminAction) -> (r: Result<
        (),
        ContractError,
    >)
        ensures
            r is Err ==> *final(self) == *old(self),
            sender@ != old(self).admin@ ==> r == Err::<(), ContractError>(ContractError::Unauthorized),
            sender@ == old(self).admin@ ==> match action {
                BridgeAdminAction::SetOpen { open } => r is Ok && *final(self) == Config {
                    open,
                    ..*old(self)
                },
                BridgeAdminAction::SetCaps { global, per_address } => if per_address > global {
                    r == Err::<(), ContractError>(ContractError::CapsInverted)
                } else {
                    r is Ok && *final(self) == Config {
                        global_cap: global,
                        per_address_cap: per_address,
                        ..*old(self)
                    }
                },
                BridgeAdminAction::SetAdmin { admin } => match admin {
                    Err(e) => r == Err::<(), ContractError>(ContractError::Std(e)),
                    Ok(a) => r is Ok && *final(self) == Config { admin: a, ..*old(self) },
                },
            },
    {
        if self.admin != *sender {
            return Err(ContractError::Unauthorized);
        }
        match action {
            BridgeAdminAction::SetOpen { open } => {
                self.open = open;
            },
            BridgeAdminAction::SetCaps { global, per_address } => {
                if per_address > global {
                    return Err(ContractError::CapsInverted);
                }
                self.global_cap = global;
                self.per_address_cap = per_address;
            },
            BridgeAdminAction::SetAdmin { admin } => {
                match admin {
                    Ok(a) => {
                        self.admin = a;
                    },
                    Err(e) => {
                        return Err(ContractError::Std(e));
                    },
                }
            },
        }
        Ok(())
    }
}

/// Whether a denom is convertible (a legacy fiat denom).
pub fn ensure_convertible(denom: &str) -> (r: bool)
    ensures
        r == legacy_forex_denoms_spec().contains(denom@),
{
    is_legacy_forex_denom(denom)
}


/// How the bridge answers a conversion's funds: the program must be open,
/// the funds must form a coin set (no repeated denom) of exactly one denom,
/// and that denom must be a legacy fiat denom.
pub open spec fn funds_decision(open: bool, funds: Seq<Coin>) -> Result<Coin, ContractError> {
    let nz = nonzero_coins(funds);
    if !open {
        Err(ContractError::ProgramClosed)
    } else if !distinct_denoms(nz) {
        Err(ContractError::InvalidFunds)
    } else if nz.len() != 1 {
        Err(ContractError::NotOneDenom)
    } else if !legacy_forex_denoms_spec().contains(nz[0].denom@) {
        Err(ContractError::NotConvertible { denom: nz[0].denom })
    } else {
        Ok(nz[0])
    }
}

/// What `nonzero_coins` keeps: exactly the attached coins with a non-zero
/// amount.
proof fn lemma_nonzero_coins_members(s: Seq<Coin>)
    ensures
        forall|i: int| 0 <= i < s.len() && s[i].amount != 0 ==> nonzero_coins(s).contains(#[trigger] s[i]),
        forall|j: int|
            0 <= j < nonzero_coins(s).len() ==> (#[trigger] nonzero_coins(s)[j]).amount != 0
                && s.contains(nonzero_coins(s)[j]),
    decreases s.len(),
{
    if s.len() > 0 {
        let init = s.drop_last();
        lemma_nonzero_coins_members(init);
        assert forall|i: int| 0 <= i < s.len() && s[i].amount != 0 implies nonzero_coins(s).contains(
            #[trigger] s[i],
        ) by {
            if i < s.len() - 1 {
                assert(init[i] == s[i]);
                let k = choose|k: int| 0 <= k < nonzero_coins(init).len() && nonzero_coins(init)[k] == init[i];
                if s.last().amount != 0 {
                    assert(nonzero_coins(s)[k] == init[i]);
                }
            } else {
                assert(nonzero_coins(s)[nonzero_coins(s).len() - 1] == s[i]);
            }
        }
        assert forall|j: int| 0 <= j < nonzero_coins(s).len() implies (#[trigger] nonzero_coins(
            s,
        )[j]).amount != 0 && s.contains(nonzero_coins(s)[j]) by {
            if j < nonzero_coins(init).len() {
                assert(nonzero_coins(s)[j] == nonzero_coins(init)[j]);
                let k = choose|k: int| 0 <= k < init.len() && init[k] == nonzero_coins(init)[j];
                assert(s[k] == init[k]);
            } else {
                assert(nonzero_coins(s)[j] == s.last());
                assert(s[s.len() - 1] == s.last());
            }
        }
    }
}

/// The funds rule of a conversion. A closed program refuses. An open one
/// refuses repeated denoms (among the non-zero coins) as invalid funds,
/// refuses anything but exactly one non-zero denom, and refuses a denom
/// outside the legacy registry. Otherwise the converted coin is the one
/// non-zero attached coin: every attached coin of non-zero amount is that
/// coin, so the full attached amount converts.
pub proof fn lemma_conversion_funds(open: bool, funds: Seq<Coin>)
    ensures
        !open ==> funds_decision(open, funds) == Err::<Coin, ContractError>(ContractError::ProgramClosed),
        open && !distinct_denoms(nonzero_coins(funds)) ==> funds_decision(open, funds) == Err::<
            Coin,
            ContractError,
        >(ContractError::InvalidFunds),
        open && distinct_denoms(nonzero_coins(funds)) && nonzero_coins(funds).len() != 1
            ==> funds_decision(open, funds) == Err::<Coin, ContractError>(ContractError::NotOneDenom),
        funds_decision(open, funds) matches Ok(c) ==> {
            &&& open
            &&& c.amount > 0
            &&& funds.contains(c)
            &&& legacy_forex_denoms_spec().contains(c.denom@)
            &&& forall|i: int| 0 <= i < funds.len() && funds[i].amount != 0 ==> #[trigger] funds[i] == c
        },
{
    lemma_nonzero_coins_members(funds);
    let nz = nonzero_coins(funds);
    if funds_decision(open, funds) is Ok {
        assert(nz.len() == 1);
        assert(nz[0].amount != 0 && funds.contains(nz[0]));
        assert forall|i: int| 0 <= i < funds.len() && funds[i].amount != 0 implies #[trigger] funds[i]
            == nz[0] by {
            assert(nz.contains(funds[i]));
        }
    }
}

/// The claim a conversion builds on: the holder's stored claim, or a new
/// empty one of the converted denom starting at `height`.
pub open spec fn claim_base(existing: Option<Claim>, coin: Coin, height: u64, end: int) -> Claim {
    match existing {
        Some(c) => c,
        None => Claim { denom: coin.denom, total: 0, claimed: 0, start_block: height, end_block: end as u64 },
    }
}

/// The claim after converting `coin`: the amount is added to the total and
/// the vesting end moves to `end`; everything else is kept.
pub open spec fn converted_claim(existing: Option<Claim>, coin: Coin, height: u64, end: int) -> Claim {
    let base = claim_base(existing, coin, height, end);
    Claim { total: (base.total + coin.amount) as u128, end_block: end as u64, ..base }
}

/// The claim a conversion stores. For a holder whose stored claim (if any)
/// is of the converted denom, as the claim registry keyed by (denom,
/// holder) keeps it: the claim is of that denom, its total grows by the
/// converted amount, what was claimed and the vesting start stay (a new
/// claim starts empty at `height`), and the vesting end becomes `end`.
pub proof fn lemma_converted_claim(existing: Option<Claim>, coin: Coin, height: u64, end: int)
    requires
        existing matches Some(c) ==> c.denom@ == coin.denom@,
        0 <= end <= u64::MAX,
        or_zero_claim_total(existing) + coin.amount <= u128::MAX,
    ensures
        converted_claim(existing, coin, height, end).denom@ == coin.denom@,
        converted_claim(existing, coin, height, end).total == or_zero_claim_total(existing) + coin.amount,
        converted_claim(existing, coin, height, end).claimed == (match existing {
            Some(c) => c.claimed,
            None => 0,
        }),
        converted_claim(existing, coin, height, end).start_block == (match existing {
            Some(c) => c.start_block,
            None => height,
        }),
        converted_claim(existing, coin, height, end).end_block == end,
{
}

/// The total of a stored claim, zero when there is none.
pub open spec fn or_zero_claim_total(existing: Option<Claim>) -> int {
    match existing {
        Some(c) => c.total as int,
        None => 0,
    }
}

/// An entry that is absent counts as zero.
pub open spec fn or_zero(x: Option<u128>) -> int {
    match x {
        Some(v) => v as int,
        None => 0,
    }
}

impl Config {
    /// First step of a conversion: checks that the program is open and that
    /// the attached funds are exactly one legacy denom; returns that coin.
    pub fn conversion_coin(&self, funds: Vec<Coin>) -> (r: Result<Coin, ContractError>)
        ensures
            r == funds_decision(self.open, funds@),
    {
        if !self.open {
            return Err(ContractError::ProgramClosed);
        }
        let ghost nz = nonzero_coins(funds@);
        let mut parsed = match coins_try_from(funds) {
            Ok(v) => v,
            Err(_) => {
                return Err(ContractError::InvalidFunds);
            },
        };
        proof {
            parsed@.to_multiset_ensures();
            nz.to_multiset_ensures();
        }
        if parsed.len() != 1 {
            return Err(ContractError::NotOneDenom);
        }
        proof {
            assert(nz.contains(nz[0]));
            assert(nz.to_multiset().count(nz[0]) > 0);
            assert(parsed@.contains(nz[0]));
            assert(parsed@[0] == nz[0]);
        }
        let coin = match parsed.pop() {
            Some(c) => c,
            None => {
                return Err(ContractError::NoFunds);
            },
        };
        if !ensure_convertible(coin.denom.as_str()) {
            return Err(ContractError::NotConvertible { denom: coin.denom });
        }
        Ok(coin)
    }

    /// Second step of a conversion of `coin` by a holder at `height`:
    /// `used_global` and `used_by_holder` are the lifetime converted totals
    /// of the denom and `existing` the holder's claim. The lifetime totals
    /// stay within the global and per-address caps; the claim grows by the
    /// amount and its vesting end moves to `height + vesting_days` days; the
    /// coins go to the sink.
    pub fn convert(
        &self,
        height: u64,
        coin: Coin,
        used_global: Option<u128>,
        used_by_holder: Option<u128>,
        existing: Option<Claim>,
    ) -> (r: Result<ConvertOutcome, ContractError>)
        ensures
            ({
                let ug = or_zero(used_global);
                let ua = or_zero(used_by_holder);
                let end = height + self.vesting_days * BLOCKS_PER_DAY;
                let base = claim_base(existing, coin, height, end);
                if ug + coin.amount > u128::MAX || ua + coin.amount > u128::MAX {
                    r == Err::<ConvertOutcome, ContractError>(ContractError::Overflow)
                } else if ug + coin.amount > self.global_cap {
                    r == Err::<ConvertOutcome, ContractError>(
                        ContractError::GlobalCapExceeded {
                            cap: self.global_cap,
                            used: ug as u128,
                            denom: coin.denom,
                        },
                    )
                } else if ua + coin.amount > self.per_address_cap {
                    r == Err::<ConvertOutcome, ContractError>(
                        ContractError::AddressCapExceeded {
                            cap: self.per_address_cap,
                            used: ua as u128,
                            denom: coin.denom,
                        },
                    )
                } else if end > u64::MAX || base.total + coin.amount > u128::MAX {
                    r == Err::<ConvertOutcome, ContractError>(ContractError::Overflow)
                } else {
                    &&& r matches Ok(o)
                    &&& o.denom == coin.denom
                    &&& o.amount == coin.amount
                    &&& o.converted_total == ug + coin.amount
                    &&& o.converted_by_holder == ua + coin.amount
                    &&& o.converted_total <= self.global_cap
                    &&& o.converted_by_holder <= self.per_address_cap
                    &&& o.vesting_end_block == end
                    &&& o.claim == converted_claim(existing, coin, height, end)
                    &&& o.send.to_address == self.sink_address
                    &&& o.send.amount@ == seq![coin]
                    &&& o.disclosure@ == CONVERSION_NOTICE@
                }
            }),
    {
        let ug: u128 = match used_global {
            Some(v) => v,
            None => 0,
        };
        let ua: u128 = match used_by_holder {
            Some(v) => v,
            None => 0,
        };
        let new_global = match ug.checked_add(coin.amount) {
            Some(v) => v,
            None => {
                return Err(ContractError::Overflow);
            },
        };
        let new_addr = match ua.checked_add(coin.amount) {
            Some(v) => v,
            None => {
                return Err(ContractError::Overflow);
            },
        };
        if new_global > self.global_cap {
            return Err(
                ContractError::GlobalCapExceeded { cap: self.global_cap, used: ug, denom: coin.denom },
            );
        }
        if new_addr > self.per_address_cap {
            return Err(
                ContractError::AddressCapExceeded {
                    cap: self.per_address_cap,
                    used: ua,
                    denom: coin.denom,
                },
            );
        }
        let span = match self.vesting_days.checked_mul(BLOCKS_PER_DAY) {
            Some(v) => v,
            None => {
                return Err(ContractError::Overflow);
            },
        };
        let end = match height.checked_add(span) {
            Some(v) => v,
            None => {
                return Err(ContractError::Overflow);
            },
        };
        let base = match existing {
            Some(c) => c,
            None => Claim {
                denom: coin.denom.clone(),
                total: 0,
                claimed: 0,
                start_block: height,
                end_block: end,
            },
        };
        let total = match base.total.checked_add(coin.amount) {
            Some(v) => v,
            None => {
                return Err(ContractError::Overflow);
            },
        };
        let claim = Claim { total, end_block: end, ..base };
        let amount = coin.amount;
        let denom = coin.denom.clone();
        let mut coins: Vec<Coin> = Vec::new();
        coins.push(coin);
        Ok(
            ConvertOutcome {
                denom,
                amount,
                claim,
                converted_total: new_global,
                converted_by_holder: new_addr,
                vesting_end_block: end,
                send: BankSend { to_address: self.sink_address.clone(), amount: coins },
                disclosure: CONVERSION_NOTICE,
            },
        )
    }
}

/// Acknowledges the vested, unclaimed part of a holder's claim at
/// `height`. The claim is removed once fully claimed. Refused when there is
/// no claim or nothing new has vested; aborts when the vested amount has
/// fallen below what was already claimed (possible after a top-up extends
/// the vesting period).
pub fn claim(height: u64, existing: Option<Claim>) -> (r: Result<ClaimOutcome, ContractError>)
    ensures
        match existing {
            None => r == Err::<ClaimOutcome, ContractError>(ContractError::NothingToClaim),
            Some(c) => {
                let v = vested_spec(c, height);
                if v < c.claimed {
                    r == Err::<ClaimOutcome, ContractError>(ContractError::Overflow)
                } else if v == c.claimed {
                    r == Err::<ClaimOutcome, ContractError>(ContractError::NothingToClaim)
                } else {
                    &&& r matches Ok(o)
                    &&& o.claimable == v - c.claimed
                    &&& o.claimable > 0
                    &&& if v >= c.total {
                        o.remaining is None
                    } else {
                        o.remaining == Some(Claim { claimed: v as u128, ..c })
                    }
                }
            },
        },
{
    let c = match existing {
        Some(c) => c,
        None => {
            return Err(ContractError::NothingToClaim);
        },
    };
    let v = vested_amount(&c, height);
    if v < c.claimed {
        return Err(ContractError::Overflow);
    }
    let claimable = v - c.claimed;
    if claimable == 0 {
        return Err(ContractError::NothingToClaim);
    }
    let total = c.total;
    let updated = Claim { claimed: v, ..c };
    if v >= total {
        Ok(ClaimOutcome { claimable, remaining: None })
    } else {
        Ok(ClaimOutcome { claimable, remaining: Some(updated) })
    }
}

impl Config {
    /// Config query; caps as decimal text.
    pub fn query_config(&self) -> (r: ConfigResponse)
        ensures
            r.admin == self.admin,
            r.sink_address == self.sink_address,
            r.vesting_days == self.vesting_days,
            r.open == self.open,
            vstd::string::to_string_from_display_ensures::<u128>(&self.global_cap, r.global_cap),
            vstd::string::to_string_from_display_ensures::<u128>(&self.per_address_cap, r.per_address_cap),
    {
        ConfigResponse {
            admin: self.admin.clone(),
            sink_address: self.sink_address.clone(),
            vesting_days: self.vesting_days,
            open: self.open,
            global_cap: self.global_cap.to_string(),
            per_address_cap: self.per_address_cap.to_string(),
        }
    }
}

/// Claim query: the holder's claim (if any), its vested amount at
/// `height` (zero without a claim) and whether the program is open.
pub fn query_claim(existing: Option<Claim>, height: u64, program_open: bool) -> (r: ClaimResponse)
    ensures
        r.program_open == program_open,
        r.claim is Some == existing is Some,
        vstd::string::to_string_from_display_ensures::<u128>(
            &(match existing {
                Some(c) => vested_spec(c, height) as u128,
                None => 0u128,
            }),
            r.vested,
        ),
        r.claim matches Some(info) ==> {
            let c = existing->0;
            &&& info.denom == c.denom
            &&& vstd::string::to_string_from_display_ensures::<u128>(&c.total, info.total)
            &&& vstd::string::to_string_from_display_ensures::<u128>(&c.claimed, info.claimed)
            &&& info.start_block == c.start_block
            &&& info.end_block == c.end_block
        },
{
    let vested: u128 = match &existing {
        Some(c) => vested_amount(c, height),
        None => 0,
    };
    let info = match existing {
        Some(c) => Some(
            ClaimInfo {
                denom: c.denom,
                total: c.total.to_string(),
                claimed: c.claimed.to_string(),
                start_block: c.start_block,
                end_block: c.end_block,
            },
        ),
        None => None,
    };
    ClaimResponse { claim: info, vested: vested.to_string(), program_open }
}

/// Converted-totals query: the lifetime total of a denom (zero when none).
pub fn query_totals(denom: String, converted: Option<u128>) -> (r: TotalsResponse)
    ensures
        r.denom == denom,
        vstd::string::to_string_from_display_ensures::<u128>(&(or_zero(converted) as u128), r.converted),
{
    let total: u128 = match converted {
        Some(v) => v,
        None => 0,
    };
    TotalsResponse { denom, converted: total.to_string() }
}

} // verus!
