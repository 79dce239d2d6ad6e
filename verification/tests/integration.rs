//! End-to-end scenarios for the CSM contract suite: the core, vault,
//! reserve, oracle adapter and router state machines wired together with
//! simple cw20 and bank ledgers that carry out the messages they emit.

use std::collections::HashMap;

use csm::adapter::{AdapterState, ContractError as AdapterError};
use csm::mint_redeem::{
    current_day, AdminAction, BlockEnv, ContractError as CoreError, CoreMsg, CoreState, HookMsg,
    RateInputs, ReceiveOutcome, SendHook,
};
use csm::reserve::{
    BuybackStatus, ContractError as ReserveError, ReserveAdminAction, ReserveCallbackMsg,
    ReserveState, RouterExecuteMsg,
};
use csm::router::{ContractError as RouterError, RouterMsg, RouterState};
use csm::types::{CollateralType, Decimal, OracleMode, Params, ProtocolInfo};
use csm::vault::{Config as VaultConfig, ContractError as VaultError, VaultHook, VaultMsg};

const LUNC_DENOM: &str = "ulunc";
const DEPOSIT_HOOK: &[u8] = b"{\"deposit\":{}}";

#[derive(Clone, Default)]
struct Token {
    minter: String,
    supply: u128,
    balances: HashMap<String, u128>,
}

#[derive(Debug)]
#[allow(dead_code)]
enum Error {
    Core(CoreError),
    Vault(VaultError),
    Reserve(ReserveError),
    Adapter(AdapterError),
    Router(RouterError),
    Token(String),
}

#[derive(Clone, Copy)]
enum Hook {
    Core(HookMsg),
    VaultDeposit,
    ReserveDeposit,
    Swap(RouterExecuteMsg),
}

/// What the last redemption reported.
#[derive(Clone, Copy, Debug, PartialEq)]
struct RedeemReport {
    effective_fee_bps: u64,
    flash_fee: bool,
}

#[derive(Clone)]
struct Chain {
    height: u64,
    time: u64,
    core: CoreState,
    last_mint: HashMap<String, (u64, u128)>,
    redeemed_by: HashMap<(u64, String), u128>,
    vault: VaultConfig,
    vault_balances: HashMap<String, u128>,
    reserve: ReserveState,
    adapter: AdapterState,
    feeders: HashMap<String, bool>,
    router: RouterState,
    tokens: HashMap<String, Token>,
    bank: HashMap<(String, String), u128>,
    last_redeem: Option<RedeemReport>,
}

fn s(x: &str) -> String {
    x.to_string()
}

/// 18-decimal atomics of a decimal literal such as "1.05".
fn decimal_atomics(text: &str) -> u128 {
    let (whole, frac) = match text.split_once('.') {
        Some((w, f)) => (w, f),
        None => (text, ""),
    };
    let mut atomics: u128 = whole.parse::<u128>().unwrap() * 1_000_000_000_000_000_000;
    let mut scale: u128 = 100_000_000_000_000_000;
    for ch in frac.chars() {
        atomics += (ch.to_digit(10).unwrap() as u128) * scale;
        scale /= 10;
    }
    atomics
}

impl Chain {
    fn env(&self) -> BlockEnv {
        BlockEnv { height: self.height, time: self.time }
    }

    fn tx<T>(&mut self, f: impl FnOnce(&mut Chain) -> Result<T, Error>) -> Result<T, Error> {
        let saved = self.clone();
        let r = f(self);
        if r.is_err() {
            *self = saved;
        }
        r
    }

    fn token_balance(&self, token: &str, addr: &str) -> u128 {
        self.tokens[token].balances.get(addr).copied().unwrap_or(0)
    }

    fn bank_balance(&self, addr: &str, denom: &str) -> u128 {
        self.bank.get(&(s(addr), s(denom))).copied().unwrap_or(0)
    }

    fn transfer(&mut self, token: &str, from: &str, to: &str, amount: u128) -> Result<(), Error> {
        if amount == 0 {
            return Err(Error::Token(s("Invalid zero amount")));
        }
        let t = self.tokens.get_mut(token).ok_or(Error::Token(s("no such token")))?;
        let from_bal = t.balances.get(from).copied().unwrap_or(0);
        if from_bal < amount {
            return Err(Error::Token(s("insufficient funds")));
        }
        t.balances.insert(s(from), from_bal - amount);
        *t.balances.entry(s(to)).or_insert(0) += amount;
        Ok(())
    }

    fn cw20_mint(&mut self, token: &str, minter: &str, to: &str, amount: u128) -> Result<(), Error> {
        if amount == 0 {
            return Err(Error::Token(s("Invalid zero amount")));
        }
        let t = self.tokens.get_mut(token).ok_or(Error::Token(s("no such token")))?;
        if t.minter != minter {
            return Err(Error::Token(s("Unauthorized")));
        }
        t.supply += amount;
        *t.balances.entry(s(to)).or_insert(0) += amount;
        Ok(())
    }

    fn cw20_burn(&mut self, token: &str, from: &str, amount: u128) -> Result<(), Error> {
        if amount == 0 {
            return Err(Error::Token(s("Invalid zero amount")));
        }
        let t = self.tokens.get_mut(token).ok_or(Error::Token(s("no such token")))?;
        let bal = t.balances.get(from).copied().unwrap_or(0);
        if bal < amount {
            return Err(Error::Token(s("insufficient funds")));
        }
        t.balances.insert(s(from), bal - amount);
        t.supply -= amount;
        Ok(())
    }

    fn bank_send(&mut self, from: &str, to: &str, denom: &str, amount: u128) -> Result<(), Error> {
        let bal = self.bank_balance(from, denom);
        if bal < amount {
            return Err(Error::Token(s("insufficient bank funds")));
        }
        self.bank.insert((s(from), s(denom)), bal - amount);
        *self.bank.entry((s(to), s(denom))).or_insert(0) += amount;
        Ok(())
    }

    /// cw20 Send: move the tokens, then run the receiving contract's hook.
    fn cw20_send(&mut self, token: &str, from: &str, contract: &str, amount: u128, hook: Hook) -> Result<(), Error> {
        self.transfer(token, from, contract, amount)?;
        match contract {
            "core" => {
                let msg = match hook {
                    Hook::Core(h) => Some(h),
                    _ => None,
                };
                self.core_receive(token, from, amount, msg)
            }
            "vault" => {
                let msg = match hook {
                    Hook::VaultDeposit => Some(VaultHook::Deposit {}),
                    _ => None,
                };
                let bal = self.vault_balances.get(token).copied();
                let nb = VaultConfig::receive(msg, amount, bal).map_err(Error::Vault)?;
                self.vault_balances.insert(s(token), nb);
                Ok(())
            }
            "reserve" => {
                let msg = match hook {
                    Hook::ReserveDeposit => Some(csm::reserve::ReserveExecuteMsg::Deposit {}),
                    _ => None,
                };
                self.reserve.receive(&s(token), Ok(s(from)), amount, msg).map_err(Error::Reserve)?;
                Ok(())
            }
            "router" => {
                let msg = match hook {
                    Hook::Swap(m) => Some(m),
                    _ => None,
                };
                let msgs = self.router.receive(&s(token), &s(from), amount, msg).map_err(Error::Router)?;
                for m in msgs {
                    match m {
                        RouterMsg::Refund { token, recipient, amount } => {
                            self.transfer(&token, "router", &recipient, amount)?;
                        }
                        RouterMsg::PayLunc { to_address, denom, amount } => {
                            self.bank_send("router", &to_address, &denom, amount)?;
                        }
                        RouterMsg::Report { reserve, result } => {
                            assert_eq!(reserve, "reserve");
                            let ReserveCallbackMsg::BuybackResult { success, purchased, reason } = result;
                            self.reserve
                                .buyback_result(&s("router"), success, purchased, reason)
                                .map_err(Error::Reserve)?;
                        }
                    }
                }
                Ok(())
            }
            _ => Ok(()),
        }
    }

    fn rate_inputs(&self, c: CollateralType) -> RateInputs {
        let adapter_price = match &self.core.config.oracle {
            Some(o) if o == "oracle" => match self.adapter.price(c, self.time) {
                Some(q) => Ok(q.price),
                None => Err(s("price not found")),
            },
            _ => Err(s("no oracle contract")),
        };
        // The test chain has no terra wasmbinding: consensus lookups fail.
        RateInputs { consensus_usd: None, adapter_price }
    }

    fn supply_query(&self) -> Result<u128, String> {
        if self.core.config.eutc_token == "eutc" {
            Ok(self.tokens["eutc"].supply)
        } else {
            Err(s("not a cw20 token"))
        }
    }

    fn core_receive(&mut self, token: &str, from: &str, amount: u128, hook: Option<HookMsg>) -> Result<(), Error> {
        let c = match hook {
            Some(HookMsg::Mint { collateral_type }) => collateral_type,
            Some(HookMsg::Redeem { collateral_type }) => collateral_type,
            None => CollateralType::Eurc,
        };
        let inputs = self.rate_inputs(c);
        let supply = self.supply_query();
        let day = current_day(self.time);
        let last_mint = self.last_mint.get(from).copied();
        let addr_used = self.redeemed_by.get(&(day, s(from))).copied();
        let env = self.env();
        let out = self
            .core
            .receive(env, &s(token), amount, hook, Ok(s(from)), last_mint, addr_used, &inputs, &supply)
            .map_err(Error::Core)?;
        let messages = match out {
            ReceiveOutcome::Minted(o) => {
                self.last_mint.insert(s(from), o.last_mint);
                o.messages
            }
            ReceiveOutcome::Redeemed(o) => {
                self.redeemed_by.insert((o.day, s(from)), o.addr_redeemed);
                self.last_redeem = Some(RedeemReport { effective_fee_bps: o.effective_fee_bps, flash_fee: o.flash_fee });
                o.messages
            }
        };
        for m in messages {
            match m {
                CoreMsg::Send { token, contract, amount, hook } => {
                    let h = match hook {
                        SendHook::VaultDeposit => Hook::VaultDeposit,
                        SendHook::ReserveDeposit => Hook::ReserveDeposit,
                    };
                    self.cw20_send(&token, "core", &contract, amount, h)?;
                }
                CoreMsg::Mint { token, recipient, amount } => {
                    self.cw20_mint(&token, "core", &recipient, amount)?;
                }
                CoreMsg::Burn { token, amount } => {
                    self.cw20_burn(&token, "core", amount)?;
                }
                CoreMsg::Withdraw { vault, to, token, amount, to_reserve } => {
                    assert_eq!(vault, "vault");
                    let hook = if to_reserve { Some(DEPOSIT_HOOK.to_vec()) } else { None };
                    self.vault_withdraw("core", &to, &token, amount, hook)?;
                }
            }
        }
        Ok(())
    }

    fn vault_withdraw(&mut self, sender: &str, to: &str, token: &str, amount: u128, hook: Option<Vec<u8>>) -> Result<(), Error> {
        let bal = self.vault_balances.get(token).copied();
        let o = self.vault.withdraw(&s(sender), Ok(s(to)), s(token), amount, hook, bal).map_err(Error::Vault)?;
        self.vault_balances.insert(s(token), o.balance);
        match o.message {
            VaultMsg::Transfer { token, recipient, amount } => self.transfer(&token, "vault", &recipient, amount),
            VaultMsg::Send { token, contract, amount, msg } => {
                let h = if msg == DEPOSIT_HOOK { Hook::ReserveDeposit } else { Hook::VaultDeposit };
                self.cw20_send(&token, "vault", &contract, amount, h)
            }
        }
    }

    // ---- user-level actions (each one transaction) ----

    fn send(&mut self, from: &str, token: &str, contract: &str, amount: u128, hook: Hook) -> Result<(), Error> {
        self.tx(|c| c.cw20_send(token, from, contract, amount, hook))
    }

    fn mint_via_send(&mut self, from: &str, c: CollateralType, amount: u128) -> Result<(), Error> {
        let token = match c {
            CollateralType::Eurc => "eurc",
            CollateralType::Usdc => "usdc",
        };
        self.send(from, token, "core", amount, Hook::Core(HookMsg::Mint { collateral_type: c }))
    }

    fn redeem(&mut self, from: &str, c: CollateralType, amount: u128) -> Result<RedeemReport, Error> {
        self.last_redeem = None;
        self.send(from, "eutc", "core", amount, Hook::Core(HookMsg::Redeem { collateral_type: c }))?;
        Ok(self.last_redeem.unwrap())
    }

    fn core_admin(&mut self, sender: &str, action: AdminAction) -> Result<(), Error> {
        self.tx(|c| c.core.execute_admin(&s(sender), action).map_err(Error::Core))
    }

    fn set_params(&mut self, params: Params) {
        self.core_admin("owner", AdminAction::SetParams { params }).unwrap();
    }

    fn post_price(&mut self, quote: CollateralType, price: &str) {
        let feeder = self.feeders.get("feeder").copied().unwrap_or(false);
        let atomics = decimal_atomics(price);
        let now = self.time;
        self.adapter.post_price(feeder, quote, Decimal(atomics), now).unwrap();
    }

    fn buyback(&mut self, sender: &str, offer: CollateralType, max_slippage_bps: u64) -> Result<(), Error> {
        self.tx(|c| {
            let o = c.reserve.buyback(&s(sender), offer, max_slippage_bps).map_err(Error::Reserve)?;
            c.cw20_send(&o.token, "reserve", &o.router, o.amount, Hook::Swap(o.swap))
        })
    }

    fn next_day(&mut self) {
        self.height += 1;
        self.time += 86_400;
    }

    fn protocol_info(&self) -> ProtocolInfo {
        let healthy = match &self.core.config.oracle {
            Some(o) if o == "oracle" => Some(self.adapter.status(self.time, self.feeders.values().filter(|a| **a).count() as u64).healthy),
            _ => None,
        };
        self.core
            .query_protocol_info(
                self.time,
                self.tokens["eutc"].supply,
                Some(self.reserve.query_balances().balances),
                Some(self.bank_balance("reserve", &self.reserve.config.lunc_denom)),
                healthy,
            )
            .unwrap()
    }

    fn reserve_balance(&self, c: CollateralType) -> u128 {
        self.reserve
            .query_balances()
            .balances
            .iter()
            .find(|(ct, _)| *ct == c)
            .map(|(_, b)| *b)
            .unwrap_or(0)
    }
}

fn instantiate_chain(fail_swaps: bool) -> Chain {
    let core = CoreState::instantiate(
        None,
        Ok(s("owner")),
        Ok(s("owner")),
        Ok(s("vault")),
        Ok(s("reserve")),
        Some(Ok(s("oracle"))),
        None,
    )
    .unwrap();
    let vault = VaultConfig::instantiate(Ok(s("owner"))).unwrap();
    let adapter = AdapterState::instantiate(Ok(s("owner")), 300, None).unwrap();
    let reserve = ReserveState::instantiate(Ok(s("owner")), Ok(s("owner")), Ok(s("vault")), s(LUNC_DENOM)).unwrap();
    let router = RouterState::instantiate("1000", fail_swaps).unwrap();
    let mut tokens = HashMap::new();
    tokens.insert(s("eutc"), Token { minter: s("core"), ..Default::default() });
    tokens.insert(s("eurc"), Token { minter: s("owner"), ..Default::default() });
    tokens.insert(s("usdc"), Token { minter: s("owner"), ..Default::default() });
    let mut c = Chain {
        height: 12_345,
        time: 1_571_797_419,
        core,
        last_mint: HashMap::new(),
        redeemed_by: HashMap::new(),
        vault,
        vault_balances: HashMap::new(),
        reserve,
        adapter,
        feeders: HashMap::new(),
        router,
        tokens,
        bank: HashMap::new(),
        last_redeem: None,
    };
    c.core_admin("owner", AdminAction::SetEutc { eutc: Ok(s("eutc")) }).unwrap();
    c.core_admin("owner", AdminAction::RegisterCollateral { collateral_type: CollateralType::Eurc, token: Ok(s("eurc")) }).unwrap();
    c.core_admin("owner", AdminAction::RegisterCollateral { collateral_type: CollateralType::Usdc, token: Ok(s("usdc")) }).unwrap();
    c.vault.register_core(&s("owner"), Ok(s("core"))).unwrap();
    c.reserve
        .execute_admin(&s("owner"), ReserveAdminAction::RegisterToken { collateral_type: CollateralType::Eurc, token: Ok(s("eurc")) })
        .unwrap();
    c.reserve
        .execute_admin(&s("owner"), ReserveAdminAction::RegisterToken { collateral_type: CollateralType::Usdc, token: Ok(s("usdc")) })
        .unwrap();
    let update = c.adapter.set_feeder(&s("owner"), Ok(s("feeder")), true).unwrap();
    c.feeders.insert(update.feeder, update.authorized);
    c.reserve.execute_admin(&s("owner"), ReserveAdminAction::SetRouter { router: Ok(s("router")) }).unwrap();
    c.reserve.execute_admin(&s("owner"), ReserveAdminAction::SetCore { core: Ok(s("core")) }).unwrap();
    c.bank.insert((s("router"), s(LUNC_DENOM)), 1_000_000_000_000);
    c
}

fn fund(c: &mut Chain, token: &str, to: &str, amount: u128) {
    c.cw20_mint(token, "owner", to, amount).unwrap();
}

fn ledger(c: &Chain, ct: CollateralType) -> csm::types::CollateralState {
    c.protocol_info().collateral.iter().find(|(t, _)| *t == ct).map(|(_, st)| *st).unwrap()
}

// EURC minting at 1:1 with the 1.5% fee routed to the reserve.
#[test]
fn mint_eurc_one_to_one_with_fee() {
    let mut c = instantiate_chain(false);
    c.post_price(CollateralType::Eurc, "1.0");
    fund(&mut c, "eurc", "user", 10_000_000);
    c.mint_via_send("user", CollateralType::Eurc, 10_000_000).unwrap();

    assert_eq!(c.token_balance("eutc", "user"), 10_000_000);
    let st = ledger(&c, CollateralType::Eurc);
    assert_eq!(st.primary_balance, 9_850_000);
    assert_eq!(st.fees_collected, 150_000);
    assert_eq!(c.reserve_balance(CollateralType::Eurc), 150_000);
}

// USDC minting applies the 0.5% premium: EUTC = USDC x 0.995.
#[test]
fn mint_usdc_applies_premium() {
    let mut c = instantiate_chain(false);
    c.post_price(CollateralType::Usdc, "1.0");
    fund(&mut c, "usdc", "user", 1_000_000);
    c.mint_via_send("user", CollateralType::Usdc, 1_000_000).unwrap();
    assert_eq!(c.token_balance("eutc", "user"), 995_000);
}

// Oracle rate changes flow through to mint math.
#[test]
fn mint_uses_current_oracle_rate() {
    let mut c = instantiate_chain(false);
    c.post_price(CollateralType::Usdc, "1.05");
    fund(&mut c, "usdc", "user", 1_050_000);
    c.mint_via_send("user", CollateralType::Usdc, 1_050_000).unwrap();
    assert_eq!(c.token_balance("eutc", "user"), 995_000);
}

// Stale oracle data fails minting closed (adapter-only mode).
#[test]
fn mint_fails_when_oracle_stale() {
    let mut c = instantiate_chain(false);
    c.core_admin("owner", AdminAction::SetOracleMode { mode: OracleMode::AdapterOnly }).unwrap();
    c.post_price(CollateralType::Eurc, "1.0");
    fund(&mut c, "eurc", "user", 1_000_000);
    c.time += 600;

    let err = c.mint_via_send("user", CollateralType::Eurc, 1_000_000).unwrap_err();
    assert!(matches!(err, Error::Core(CoreError::OracleStale { collateral: CollateralType::Eurc })), "actual: {:?}", err);

    c.post_price(CollateralType::Eurc, "1.0");
    c.mint_via_send("user", CollateralType::Eurc, 1_000_000).unwrap();
    assert_eq!(c.token_balance("eutc", "user"), 1_000_000);
}

// Redemption burns EUTC, pays the same collateral minus the fee, and leaves
// other collateral pools untouched.
#[test]
fn redeem_eurc_burns_and_returns_same_collateral() {
    let mut c = instantiate_chain(false);
    c.post_price(CollateralType::Eurc, "1.0");
    c.post_price(CollateralType::Usdc, "1.0");
    fund(&mut c, "eurc", "user", 10_000_000);
    c.mint_via_send("user", CollateralType::Eurc, 10_000_000).unwrap();
    c.set_params(Params { daily_redeem_cap_bps: 10_000, per_addr_redeem_cap_bps: 10_000, flash_fee_bps: 0, ..Default::default() });
    c.next_day();
    c.post_price(CollateralType::Eurc, "1.0");

    c.redeem("user", CollateralType::Eurc, 5_000_000).unwrap();

    assert_eq!(c.token_balance("eutc", "user"), 5_000_000);
    assert_eq!(c.token_balance("eurc", "user"), 4_925_000);
    assert_eq!(c.token_balance("usdc", "user"), 0);
    let info = c.protocol_info();
    assert_eq!(info.eutc_total_supply, 5_000_000);
    assert_eq!(info.reserve_lunc_vault, 0);
    let st = ledger(&c, CollateralType::Eurc);
    assert_eq!(st.primary_balance, 4_850_000);
    assert_eq!(c.reserve.query_balances().balances, vec![(CollateralType::Eurc, 225_000)]);
}

// No more than 10% of supply can be redeemed per day; the window resets
// after a day.
#[test]
fn daily_redemption_cap_enforced_and_resets() {
    let mut c = instantiate_chain(false);
    c.post_price(CollateralType::Eurc, "1.0");
    fund(&mut c, "eurc", "user", 10_000_000);
    c.mint_via_send("user", CollateralType::Eurc, 10_000_000).unwrap();
    c.set_params(Params { per_addr_redeem_cap_bps: 1_000, ..Default::default() });

    c.next_day();
    c.post_price(CollateralType::Eurc, "1.0");
    c.redeem("user", CollateralType::Eurc, 1_000_000).unwrap();
    let err = c.redeem("user", CollateralType::Eurc, 500_000).unwrap_err();
    assert!(matches!(err, Error::Core(CoreError::DailyCapExceeded { .. })), "actual: {:?}", err);

    c.next_day();
    c.post_price(CollateralType::Eurc, "1.0");
    c.redeem("user", CollateralType::Eurc, 500_000).unwrap();
    assert_eq!(c.token_balance("eutc", "user"), 8_500_000);
}

// Emergency pause/resume on both knobs independently.
#[test]
fn pause_blocks_mint_and_redeem_then_resume() {
    let mut c = instantiate_chain(false);
    c.post_price(CollateralType::Eurc, "1.0");
    fund(&mut c, "eurc", "user", 1_000_000);
    c.core_admin("owner", AdminAction::Pause { mint: true, redeem: false }).unwrap();
    let err = c.mint_via_send("user", CollateralType::Eurc, 500_000).unwrap_err();
    assert!(matches!(err, Error::Core(CoreError::MintPaused)), "actual: {:?}", err);

    c.core_admin("owner", AdminAction::Pause { mint: false, redeem: false }).unwrap();
    c.mint_via_send("user", CollateralType::Eurc, 500_000).unwrap();
    assert_eq!(c.token_balance("eutc", "user"), 500_000);
}

// Only the admin can change parameters; the vault only releases funds to
// the core.
#[test]
fn admin_and_core_permissions_enforced() {
    let mut c = instantiate_chain(false);
    let err = c.core_admin("user", AdminAction::SetParams { params: Params::default() }).unwrap_err();
    assert!(matches!(err, Error::Core(CoreError::Unauthorized)));

    let err = c.tx(|c| c.vault_withdraw("owner", "owner", "eurc", 1, None)).unwrap_err();
    assert!(matches!(err, Error::Vault(VaultError::NotCore)));
}

// The vault's balance mirror matches actual custody.
#[test]
fn vault_mirror_matches_custody() {
    let mut c = instantiate_chain(false);
    c.post_price(CollateralType::Eurc, "1.0");
    fund(&mut c, "eurc", "user", 2_000_000);
    c.mint_via_send("user", CollateralType::Eurc, 2_000_000).unwrap();

    let mirror = VaultConfig::query_balance(s("eurc"), c.vault_balances.get("eurc").copied());
    assert_eq!(mirror.balance, 1_970_000);
    assert_eq!(c.token_balance("eurc", "vault"), 1_970_000);
}

// Buyback execution: the reserve swaps fees for LUNC into its vault.
#[test]
fn buyback_success_updates_vault_and_ledger() {
    let mut c = instantiate_chain(false);
    c.post_price(CollateralType::Eurc, "1.0");
    fund(&mut c, "eurc", "user", 1_000_000);
    c.mint_via_send("user", CollateralType::Eurc, 1_000_000).unwrap();

    c.buyback("owner", CollateralType::Eurc, 500).unwrap();

    assert_eq!(c.bank_balance("reserve", LUNC_DENOM), 15_000_000);
    let status = c.reserve.query_buyback_status();
    assert_eq!(status.buybacks_executed, 1);
    assert_eq!(status.lunc_purchased_total, 15_000_000);
    assert_eq!(c.reserve_balance(CollateralType::Eurc), 0);
}

// Buyback route failure: funds return, state records the failure.
#[test]
fn buyback_failure_returns_funds_and_allows_retry() {
    let mut c = instantiate_chain(true);
    c.post_price(CollateralType::Eurc, "1.0");
    fund(&mut c, "eurc", "user", 1_000_000);
    c.mint_via_send("user", CollateralType::Eurc, 1_000_000).unwrap();

    c.buyback("owner", CollateralType::Eurc, 500).unwrap();

    let status = c.reserve.query_buyback_status();
    assert!(matches!(status.status, BuybackStatus::Failed { .. }));
    assert_eq!(status.buybacks_executed, 0);
    assert_eq!(c.reserve_balance(CollateralType::Eurc), 15_000);
}

// Slippage bounds must be sane; a zero bound is rejected.
#[test]
fn buyback_rejects_invalid_slippage() {
    let mut c = instantiate_chain(false);
    let err = c.buyback("owner", CollateralType::Eurc, 0).unwrap_err();
    assert!(matches!(err, Error::Reserve(ReserveError::InvalidSlippage)));
}

// Public diagnostics: ratio, daily cap remaining, oracle health.
#[test]
fn protocol_info_reports_diagnostics() {
    let mut c = instantiate_chain(false);
    let info = c.protocol_info();
    assert!(!info.oracle_healthy);

    c.post_price(CollateralType::Eurc, "1.0");
    c.post_price(CollateralType::Usdc, "1.05");
    fund(&mut c, "eurc", "user", 1_000_000);
    c.mint_via_send("user", CollateralType::Eurc, 1_000_000).unwrap();

    let info = c.protocol_info();
    assert!(info.oracle_healthy);
    assert_eq!(info.eutc_total_supply, 1_000_000);
    assert_eq!(info.collateral_ratio_pct, 100);
    assert_eq!(info.daily_redeem_remaining, 100_000);
    assert_eq!(info.eutc_denom, "eutc");
}

// The reserve rejects direct stablecoin sends from non-core senders.
#[test]
fn reserve_rejects_direct_user_deposits() {
    let mut c = instantiate_chain(false);
    fund(&mut c, "eurc", "user", 1_000);
    let err = c.send("user", "eurc", "reserve", 1_000, Hook::ReserveDeposit).unwrap_err();
    assert!(matches!(err, Error::Reserve(ReserveError::NotCore)), "actual: {:?}", err);
}

// One address cannot consume the whole daily window.
#[test]
fn per_address_redeem_cap_bounds_single_address() {
    let mut c = instantiate_chain(false);
    c.post_price(CollateralType::Eurc, "1.0");
    fund(&mut c, "eurc", "user", 5_000_000);
    fund(&mut c, "eurc", "user-b", 5_000_000);
    c.mint_via_send("user", CollateralType::Eurc, 5_000_000).unwrap();
    c.mint_via_send("user-b", CollateralType::Eurc, 5_000_000).unwrap();
    c.next_day();
    c.post_price(CollateralType::Eurc, "1.0");

    c.redeem("user", CollateralType::Eurc, 100_000).unwrap();
    let err = c.redeem("user", CollateralType::Eurc, 1).unwrap_err();
    assert!(matches!(err, Error::Core(CoreError::PerAddressCapExceeded { .. })), "actual: {:?}", err);
    c.redeem("user-b", CollateralType::Eurc, 100_000).unwrap();
}

// Same-day issuance is bounded, accumulates across mints, and resets next day.
#[test]
fn daily_mint_velocity_cap_blocks_and_resets() {
    let mut c = instantiate_chain(false);
    c.post_price(CollateralType::Eurc, "1.0");
    c.set_params(Params { min_daily_mint_floor: 1_000_000, ..Default::default() });
    fund(&mut c, "eurc", "user", 2_000_000);

    c.mint_via_send("user", CollateralType::Eurc, 600_000).unwrap();
    let err = c.mint_via_send("user", CollateralType::Eurc, 600_000).unwrap_err();
    assert!(matches!(err, Error::Core(CoreError::MintCapExceeded { .. })), "actual: {:?}", err);

    c.next_day();
    c.post_price(CollateralType::Eurc, "1.0");
    c.mint_via_send("user", CollateralType::Eurc, 600_000).unwrap();
    assert_eq!(c.token_balance("eutc", "user"), 1_200_000);
}

// The redeem spread rises with daily-window utilization.
#[test]
fn dynamic_spread_rises_with_window_utilization() {
    let mut c = instantiate_chain(false);
    c.post_price(CollateralType::Eurc, "1.0");
    fund(&mut c, "eurc", "user", 10_000_000);
    c.mint_via_send("user", CollateralType::Eurc, 10_000_000).unwrap();
    c.set_params(Params { daily_redeem_cap_bps: 10_000, per_addr_redeem_cap_bps: 10_000, flash_fee_bps: 0, ..Default::default() });
    c.next_day();
    c.post_price(CollateralType::Eurc, "1.0");

    let fee1 = c.redeem("user", CollateralType::Eurc, 4_000_000).unwrap().effective_fee_bps;
    assert_eq!(fee1, 150);
    let fee2 = c.redeem("user", CollateralType::Eurc, 4_000_000).unwrap().effective_fee_bps;
    assert_eq!(fee2, 550);
    assert!(fee2 > fee1);
}

// Redeeming freshly minted units pays the flash fee; after the window it is
// base plus spread only.
#[test]
fn flash_fee_punishes_immediate_redeem_loop() {
    let mut c = instantiate_chain(false);
    c.post_price(CollateralType::Eurc, "1.0");
    fund(&mut c, "eurc", "user", 2_000_000);
    c.mint_via_send("user", CollateralType::Eurc, 2_000_000).unwrap();
    c.set_params(Params { daily_redeem_cap_bps: 10_000, per_addr_redeem_cap_bps: 10_000, ..Default::default() });
    c.next_day();
    c.post_price(CollateralType::Eurc, "1.0");

    let r1 = c.redeem("user", CollateralType::Eurc, 500_000).unwrap();
    assert!(r1.flash_fee);
    assert_eq!(r1.effective_fee_bps, 450);

    c.height += 31;
    let r2 = c.redeem("user", CollateralType::Eurc, 500_000).unwrap();
    assert!(!r2.flash_fee);
    assert_eq!(r2.effective_fee_bps, 400);
}

// The solvency governor halts mints below the floor and releases them when
// the floor is lowered.
#[test]
fn ratio_governor_halts_mints_below_floor() {
    let mut c = instantiate_chain(false);
    c.post_price(CollateralType::Eurc, "1.0");
    fund(&mut c, "eurc", "user", 11_000_000);
    c.mint_via_send("user", CollateralType::Eurc, 10_000_000).unwrap();

    c.set_params(Params { min_primary_ratio_bps: 9_900, ..Default::default() });
    let err = c.mint_via_send("user", CollateralType::Eurc, 1_000_000).unwrap_err();
    assert!(matches!(err, Error::Core(CoreError::RatioBelowFloor { .. })), "actual: {:?}", err);

    c.set_params(Params { min_primary_ratio_bps: 9_800, ..Default::default() });
    c.mint_via_send("user", CollateralType::Eurc, 1_000_000).unwrap();
    assert_eq!(c.token_balance("eutc", "user"), 11_000_000);
}

// The mint→dump→redeem wash loop loses money even with no price movement.
#[test]
fn attack_scenario_mint_dump_redeem_loses_money() {
    let mut c = instantiate_chain(false);
    c.post_price(CollateralType::Eurc, "1.0");
    c.set_params(Params { daily_redeem_cap_bps: 10_000, per_addr_redeem_cap_bps: 10_000, ..Default::default() });

    let attacker_start = 1_000_000u128;
    fund(&mut c, "eurc", "user", attacker_start);
    c.mint_via_send("user", CollateralType::Eurc, attacker_start).unwrap();
    assert_eq!(c.token_balance("eutc", "user"), attacker_start);
    c.next_day();
    c.post_price(CollateralType::Eurc, "1.0");
    let r = c.redeem("user", CollateralType::Eurc, 985_000).unwrap();
    assert!(r.flash_fee);
    assert_eq!(r.effective_fee_bps, 450);

    assert_eq!(c.token_balance("eurc", "user"), 940_675);
    assert_eq!(c.token_balance("eutc", "user"), 15_000);
}
