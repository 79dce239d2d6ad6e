//! The secondary reserve: fee sink for the core and the vault, the LUNC
//! buyback state machine (escrow to the router, then settle on its report),
//! and the buyback ledger.

use vstd::prelude::*;
use crate::types::{CollateralType, Slots};

verus! {

/// Buyback state machine states.
#[derive(Clone, Debug, PartialEq, Eq)]
pub enum BuybackStatus {
    /// No buyback in flight.
    Idle,
    /// A buyback was routed to the DEX router.
    Pending,
    /// The route failed; a retry is allowed.
    Failed { reason: String },
    /// Swapped; proceeds sit in the LUNC vault.
    Completed,
}

/// Cross-contract hook sent into the reserve via cw20 Send.
#[derive(Clone, Copy, Debug, PartialEq, Eq, Structural)]
pub enum ReserveExecuteMsg {
    /// Fee deposit from the core or the vault.
    Deposit {},
}

/// Reserve interface queries.
#[derive(Clone, Copy, Debug, PartialEq, Eq, Structural)]
pub enum ReserveQueryMsg {
    Balances {},
    BuybackStatus {},
    Vault {},
}

/// Reserve queries.
#[derive(Clone, Copy, Debug, PartialEq, Eq, Structural)]
pub enum QueryMsg {
    Balances {},
    BuybackStatus {},
    Vault {},
}

/// Per-collateral reserve balances.
#[derive(Clone, Debug, PartialEq, Eq)]
pub struct ReserveBalancesResponse {
    pub balances: Vec<(CollateralType, u128)>,
}

/// Buyback state machine position and ledger.
#[derive(Debug, PartialEq, Eq)]
pub struct BuybackStatusResponse {
    pub status: BuybackStatus,
    pub buybacks_executed: u64,
    pub lunc_purchased_total: u128,
    pub last_route: Option<String>,
}

/// LUNC held in the non-spendable vault.
#[derive(Clone, Copy, Debug, PartialEq, Eq, Structural)]
pub struct VaultResponse {
    pub lunc: u128,
}

/// The router surface the reserve calls: swap `amount` of `offer` for
/// LUNC within `max_slippage_bps`.
#[derive(Clone, Copy, Debug, PartialEq, Eq, Structural)]
pub enum RouterExecuteMsg {
    SwapToLunc { offer: CollateralType, amount: u128, max_slippage_bps: u64 },
}

/// Outcome callback routers send to the reserve.
#[derive(Clone, Debug, PartialEq, Eq)]
pub enum ReserveCallbackMsg {
    BuybackResult { success: bool, purchased: u128, reason: Option<String> },
}

/// Reserve instantiation message.
#[derive(Clone, Debug, PartialEq, Eq)]
pub struct InstantiateMsg {
    pub admin: String,
    pub core: String,
    pub vault: String,
    pub lunc_denom: String,
}

/// Reserve wiring.
#[derive(Clone, Debug, PartialEq, Eq)]
pub struct ConfigResponse {
    pub admin: String,
    pub core: String,
    pub router: Option<String>,
    pub lunc_denom: String,
}

/// Reserve configuration.
#[derive(Clone, Debug, PartialEq, Eq)]
pub struct Config {
    pub admin: String,
    pub core: String,
    pub vault: String,
    pub router: Option<String>,
    pub lunc_denom: String,
}

/// Reserve state.
#[derive(Clone, Debug, PartialEq, Eq)]
pub struct ReserveState {
    pub config: Config,
    /// Accepted deposit token per collateral type.
    pub tokens: Slots<String>,
    /// Reserve balance per collateral type.
    pub balances: Slots<u128>,
    pub buyback_status: BuybackStatus,
    pub buybacks_executed: u64,
    pub lunc_purchased_total: u128,
    pub last_route: Option<String>,
    /// (collateral, amount) routed for the buyback in flight.
    pub last_offer: Option<(CollateralType, u128)>,
}

/// Why the reserve refused a message.
#[derive(Clone, Debug, PartialEq, Eq)]
pub enum ContractError {
    /// An address failed validation; the text is the validator's message.
    Std(String),
    Unauthorized,
    NotCore,
    UnsupportedHook,
    UnknownToken,
    RouterMissing,
    /// A buyback is already pending.
    BuybackInProgress,
    /// No funds of this collateral to buy back with.
    EmptyReserve(CollateralType),
    InvalidSlippage,
    /// No deposit token is registered for the offered collateral.
    TokenMissing(CollateralType),
    /// A balance or counter leaves its range; the contract aborts.
    Overflow,
}

/// An admin action, with each address already put through validation.
#[derive(Debug, PartialEq, Eq)]
pub enum ReserveAdminAction {
    RegisterToken { collateral_type: CollateralType, token: Result<String, String> },
    SetCore { core: Result<String, String> },
    SetVault { vault: Result<String, String> },
    SetRouter { router: Result<String, String> },
    SetAdmin { admin: Result<String, String> },
}

/// An accepted buyback: the cw20 Send of the whole reserve balance of the
/// offered collateral to the router, carrying the swap request.
#[derive(Debug, PartialEq, Eq)]
pub struct BuybackOutcome {
    pub token: String,
    pub router: String,
    pub amount: u128,
    pub swap: RouterExecuteMsg,
}

/// Reason recorded for a failure reported without one.
pub open spec fn default_failure_reason() -> Seq<char> {
    "router reported failure"@
}

/// Slot value or zero.
pub open spec fn amount_or_zero(b: Option<u128>) -> u128 {
    match b {
        Some(v) => v,
        None => 0,
    }
}

/// The first collateral type (in key order) whose registered token is `token`.
pub open spec fn collateral_of(tokens: Slots<String>, token: Seq<char>) -> Option<CollateralType> {
    if tokens.eurc is Some && tokens.eurc->0@ == token {
        Some(CollateralType::Eurc)
    } else if tokens.usdc is Some && tokens.usdc->0@ == token {
        Some(CollateralType::Usdc)
    } else {
        None
    }
}

/// Why a buyback request would be refused, checked in order: sender not
/// the admin, slippage bound outside 1..=5000 bps, no router, a buyback
/// pending, nothing to offer, no token registered for the offer.
pub open spec fn buyback_refusal(
    s: ReserveState,
    sender: String,
    offer: CollateralType,
    max_slippage_bps: u64,
) -> Option<ContractError> {
    if sender@ != s.config.admin@ {
        Some(ContractError::Unauthorized)
    } else if max_slippage_bps == 0 || max_slippage_bps > 5_000 {
        Some(ContractError::InvalidSlippage)
    } else if s.config.router is None {
        Some(ContractError::RouterMissing)
    } else if s.buyback_status == BuybackStatus::Pending {
        Some(ContractError::BuybackInProgress)
    } else if amount_or_zero(s.balances.at(offer)) == 0 {
        Some(ContractError::EmptyReserve(offer))
    } else if s.tokens.at(offer) is None {
        Some(ContractError::TokenMissing(offer))
    } else {
        None
    }
}

/// The state an admin action leads to (the sender check aside).
pub open spec fn reserve_admin_effect(s: ReserveState, action: ReserveAdminAction) -> Result<
    ReserveState,
    ContractError,
> {
    match action {
        ReserveAdminAction::RegisterToken { collateral_type, token } => match token {
            Err(e) => Err(ContractError::Std(e)),
            Ok(t) => Ok(
                ReserveState {
                    tokens: Slots {
                        eurc: if collateral_type == CollateralType::Eurc {
                            Some(t)
                        } else {
                            s.tokens.eurc
                        },
                        usdc: if collateral_type == CollateralType::Usdc {
                            Some(t)
                        } else {
                            s.tokens.usdc
                        },
                    },
                    ..s
                },
            ),
        },
        ReserveAdminAction::SetCore { core } => match core {
            Err(e) => Err(ContractError::Std(e)),
            Ok(a) => Ok(ReserveState { config: Config { core: a, ..s.config }, ..s }),
        },
        ReserveAdminAction::SetVault { vault } => match vault {
            Err(e) => Err(ContractError::Std(e)),
            Ok(a) => Ok(ReserveState { config: Config { vault: a, ..s.config }, ..s }),
        },
        ReserveAdminAction::SetRouter { router } => match router {
            Err(e) => Err(ContractError::Std(e)),
            Ok(a) => Ok(ReserveState { config: Config { router: Some(a), ..s.config }, ..s }),
        },
        ReserveAdminAction::SetAdmin { admin } => match admin {
            Err(e) => Err(ContractError::Std(e)),
            Ok(a) => Ok(ReserveState { config: Config { admin: a, ..s.config }, ..s }),
        },
    }
}

impl ReserveState {
    /// A fresh reserve: no router, no tokens, empty balances, idle buyback
    /// machine, zeroed ledger. Addresses are validated in message order.
    pub fn instantiate(
        admin: Result<String, String>,
        core: Result<String, String>,
        vault: Result<String, String>,
        lunc_denom: String,
    ) -> (r: Result<ReserveState, ContractError>)
        ensures
            admin is Err ==> r == Err::<ReserveState, ContractError>(ContractError::Std(admin->Err_0)),
            admin is Ok && core is Err ==> r == Err::<ReserveState, ContractError>(
                ContractError::Std(core->Err_0),
            ),
            admin is Ok && core is Ok && vault is Err ==> r == Err::<ReserveState, ContractError>(
                ContractError::Std(vault->Err_0),
            ),
            admin is Ok && core is Ok && vault is Ok ==> r == Ok::<ReserveState, ContractError>(
                ReserveState {
                    config: Config {
                        admin: admin->Ok_0,
                        core: core->Ok_0,
                        vault: vault->Ok_0,
                        router: None,
                        lunc_denom,
                    },
                    tokens: Slots { eurc: None, usdc: None },
                    balances: Slots { eurc: None, usdc: None },
                    buyback_status: BuybackStatus::Idle,
                    buybacks_executed: 0,
                    lunc_purchased_total: 0,
                    last_route: None,
                    last_offer: None,
                },
            ),
    {
        let admin = match admin {
            Ok(a) => a,
            Err(e) => {
                return Err(ContractError::Std(e));
            },
        };
        let core = match core {
            Ok(a) => a,
            Err(e) => {
                return Err(ContractError::Std(e));
            },
        };
        let vault = match vault {
            Ok(a) => a,
            Err(e) => {
                return Err(ContractError::Std(e));
            },
        };
        Ok(
            ReserveState {
                config: Config { admin, core, vault, router: None, lunc_denom },
                tokens: Slots::empty(),
                balances: Slots::empty(),
                buyback_status: BuybackStatus::Idle,
                buybacks_executed: 0,
                lunc_purchased_total: 0,
                last_route: None,
                last_offer: None,
            },
        )
    }

    /// Executes an admin action sent by `sender`. Only the admin may act; a
    /// refused action changes nothing.
    pub fn execute_admin(&mut self, sender: &String, action: ReserveAdminAction) -> (r: Result<
        (),
        ContractError,
    >)
        ensures
            sender@ != old(self).config.admin@ ==> r == Err::<(), ContractError>(
                ContractError::Unauthorized,
            ) && *final(self) == *old(self),
            sender@ == old(self).config.admin@ ==> match reserve_admin_effect(*old(self), action) {
                Ok(s2) => r is Ok && *final(self) == s2,
                Err(e) => r == Err::<(), ContractError>(e) && *final(self) == *old(self),
            },
    {
        if self.config.admin != *sender {
            return Err(ContractError::Unauthorized);
        }
        match action {
            ReserveAdminAction::RegisterToken { collateral_type, token } => {
                match token {
                    Ok(t) => {
                        let ghost eff = reserve_admin_effect(
                            *old(self),
                            ReserveAdminAction::RegisterToken { collateral_type, token: Ok(t) },
                        );
                        self.tokens.set(collateral_type, Some(t));
                        assert(self.tokens.at(CollateralType::Eurc) == eff->Ok_0.tokens.at(
                            CollateralType::Eurc,
                        ));
                        assert(self.tokens.at(CollateralType::Usdc) == eff->Ok_0.tokens.at(
                            CollateralType::Usdc,
                        ));
                    },
                    Err(e) => {
                        return Err(ContractError::Std(e));
                    },
                }
            },
            ReserveAdminAction::SetCore { core } => {
                match core {
                    Ok(a) => {
                        self.config.core = a;
                    },
                    Err(e) => {
                        return Err(ContractError::Std(e));
                    },
                }
            },
            ReserveAdminAction::SetVault { vault } => {
                match vault {
                    Ok(a) => {
                        self.config.vault = a;
                    },
                    Err(e) => {
                        return Err(ContractError::Std(e));
                    },
                }
            },
            ReserveAdminAction::SetRouter { router } => {
                match router {
                    Ok(a) => {
                        self.config.router = Some(a);
                    },
                    Err(e) => {
                        return Err(ContractError::Std(e));
                    },
                }
            },
            ReserveAdminAction::SetAdmin { admin } => {
                match admin {
                    Ok(a) => {
                        self.config.admin = a;
                    },
                    Err(e) => {
                        return Err(ContractError::Std(e));
                    },
                }
            },
        }
        Ok(())
    }

    /// The first collateral type whose registered token is `token`.
    pub fn collateral_of_token(&self, token: &String) -> (r: Option<CollateralType>)
        ensures
            r == collateral_of(self.tokens, token@),
    {
        if let Some(t) = &self.tokens.eurc {
            if *t == *token {
                return Some(CollateralType::Eurc);
            }
        }
        if let Some(t) = &self.tokens.usdc {
            if *t == *token {
                return Some(CollateralType::Usdc);
            }
        }
        None
    }

    /// A cw20 receive from token contract `token`: `holder` is the
    /// validated cw20 sender and `hook` the decoded hook. Only the core and
    /// the vault may deposit, and only registered tokens. Returns the
    /// credited collateral type; a refused deposit changes nothing.
    pub fn receive(
        &mut self,
        token: &String,
        holder: Result<String, String>,
        amount: u128,
        hook: Option<ReserveExecuteMsg>,
    ) -> (r: Result<CollateralType, ContractError>)
        ensures
            r is Err ==> *final(self) == *old(self),
            hook is None ==> r == Err::<CollateralType, ContractError>(ContractError::UnsupportedHook),
            hook is Some && holder is Err ==> r == Err::<CollateralType, ContractError>(
                ContractError::Std(holder->Err_0),
            ),
            hook is Some && holder is Ok ==> {
                let h = holder->Ok_0@;
                if h != old(self).config.core@ && h != old(self).config.vault@ {
                    r == Err::<CollateralType, ContractError>(ContractError::NotCore)
                } else {
                    match collateral_of(old(self).tokens, token@) {
                        None => r == Err::<CollateralType, ContractError>(ContractError::UnknownToken),
                        Some(c) => if amount_or_zero(old(self).balances.at(c)) + amount
                            > u128::MAX {
                            r == Err::<CollateralType, ContractError>(ContractError::Overflow)
                        } else {
                            &&& r == Ok::<CollateralType, ContractError>(c)
                            &&& final(self).balances.at(c) == Some(
                                (amount_or_zero(old(self).balances.at(c)) + amount) as u128,
                            )
                            &&& forall|d: CollateralType|
                                d != c ==> #[trigger] final(self).balances.at(d) == old(
                                    self,
                                ).balances.at(d)
                            &&& final(self).config == old(self).config
                            &&& final(self).tokens == old(self).tokens
                            &&& final(self).buyback_status == old(self).buyback_status
                            &&& final(self).buybacks_executed == old(self).buybacks_executed
                            &&& final(self).lunc_purchased_total == old(
                                self,
                            ).lunc_purchased_total
                            &&& final(self).last_route == old(self).last_route
                            &&& final(self).last_offer == old(self).last_offer
                        },
                    }
                }
            },
    {
        if hook.is_none() {
            return Err(ContractError::UnsupportedHook);
        }
        let holder = match holder {
            Ok(h) => h,
            Err(e) => {
                return Err(ContractError::Std(e));
            },
        };
        if holder != self.config.core && holder != self.config.vault {
            return Err(ContractError::NotCore);
        }
        let c = match self.collateral_of_token(token) {
            Some(c) => c,
            None => {
                return Err(ContractError::UnknownToken);
            },
        };
        let bal: u128 = match self.balances.get(c) {
            Some(b) => *b,
            None => 0,
        };
        let nb = match bal.checked_add(amount) {
            Some(v) => v,
            None => {
                return Err(ContractError::Overflow);
            },
        };
        self.balances.set(c, Some(nb));
        Ok(c)
    }

    /// The admin starts a buyback of the whole reserve balance of `offer`:
    /// the funds are escrowed to the router and the machine goes pending.
    /// A refused buyback changes nothing.
    pub fn buyback(&mut self, sender: &String, offer: CollateralType, max_slippage_bps: u64) -> (r:
        Result<BuybackOutcome, ContractError>)
        ensures
            r is Err ==> *final(self) == *old(self),
            match buyback_refusal(*old(self), *sender, offer, max_slippage_bps) {
                Some(e) => r == Err::<BuybackOutcome, ContractError>(e),
                None => {
                    let amount = amount_or_zero(old(self).balances.at(offer));
                    let router = old(self).config.router->0;
                    &&& r == Ok::<BuybackOutcome, ContractError>(
                        BuybackOutcome {
                            token: old(self).tokens.at(offer)->0,
                            router,
                            amount,
                            swap: RouterExecuteMsg::SwapToLunc { offer, amount, max_slippage_bps },
                        },
                    )
                    &&& *final(self) == ReserveState {
                        buyback_status: BuybackStatus::Pending,
                        last_offer: Some((offer, amount)),
                        last_route: Some(router),
                        ..*old(self)
                    }
                },
            },
    {
        if self.config.admin != *sender {
            return Err(ContractError::Unauthorized);
        }
        if max_slippage_bps == 0 || max_slippage_bps > 5_000 {
            return Err(ContractError::InvalidSlippage);
        }
        let router = match &self.config.router {
            Some(r) => r.clone(),
            None => {
                return Err(ContractError::RouterMissing);
            },
        };
        if let BuybackStatus::Pending = self.buyback_status {
            return Err(ContractError::BuybackInProgress);
        }
        let amount: u128 = match self.balances.get(offer) {
            Some(b) => *b,
            None => 0,
        };
        if amount == 0 {
            return Err(ContractError::EmptyReserve(offer));
        }
        let token = match self.tokens.get(offer) {
            Some(t) => t.clone(),
            None => {
                return Err(ContractError::TokenMissing(offer));
            },
        };
        self.buyback_status = BuybackStatus::Pending;
        self.last_offer = Some((offer, amount));
        self.last_route = Some(router.clone());
        Ok(
            BuybackOutcome {
                token,
                router,
                amount,
                swap: RouterExecuteMsg::SwapToLunc { offer, amount, max_slippage_bps },
            },
        )
    }

    /// The router reports the buyback outcome. Only the configured router
    /// may report. On success the offered amount leaves the ledger, the
    /// counters grow and the machine completes; on failure the ledger is
    /// untouched (the router returned the funds) and the machine records
    /// the reason, allowing a retry. A refused report changes nothing.
    pub fn buyback_result(
        &mut self,
        sender: &String,
        success: bool,
        purchased: u128,
        reason: Option<String>,
    ) -> (r: Result<(), ContractError>)
        ensures
            r is Err ==> *final(self) == *old(self),
            (old(self).config.router is None || old(self).config.router->0@ != sender@) ==> r
                == Err::<(), ContractError>(ContractError::Unauthorized),
            old(self).config.router is Some && old(self).config.router->0@ == sender@ ==> if success {
                if old(self).buybacks_executed == u64::MAX || old(self).lunc_purchased_total
                    + purchased > u128::MAX {
                    r == Err::<(), ContractError>(ContractError::Overflow)
                } else {
                    &&& r is Ok
                    &&& final(self).balances == match old(self).last_offer {
                        Some((c, offered)) => Slots {
                            eurc: if c == CollateralType::Eurc {
                                Some(
                                    (if amount_or_zero(old(self).balances.eurc) >= offered {
                                        amount_or_zero(old(self).balances.eurc) - offered
                                    } else {
                                        0
                                    }) as u128,
                                )
                            } else {
                                old(self).balances.eurc
                            },
                            usdc: if c == CollateralType::Usdc {
                                Some(
                                    (if amount_or_zero(old(self).balances.usdc) >= offered {
                                        amount_or_zero(old(self).balances.usdc) - offered
                                    } else {
                                        0
                                    }) as u128,
                                )
                            } else {
                                old(self).balances.usdc
                            },
                        },
                        None => old(self).balances,
                    }
                    &&& final(self).last_offer is None
                    &&& final(self).buybacks_executed == old(self).buybacks_executed + 1
                    &&& final(self).lunc_purchased_total == old(self).lunc_purchased_total + purchased
                    &&& final(self).buyback_status == BuybackStatus::Completed
                    &&& final(self).config == old(self).config
                    &&& final(self).tokens == old(self).tokens
                    &&& final(self).last_route == old(self).last_route
                }
            } else {
                &&& r is Ok
                &&& final(self).buyback_status matches BuybackStatus::Failed { reason: why }
                &&& why@ == match reason {
                    Some(s) => s@,
                    None => default_failure_reason(),
                }
                &&& *final(self) == ReserveState {
                    buyback_status: final(self).buyback_status,
                    ..*old(self)
                }
            },
    {
        let is_router = match &self.config.router {
            Some(r) => *r == *sender,
            None => false,
        };
        if !is_router {
            return Err(ContractError::Unauthorized);
        }
        if success {
            let executed = match self.buybacks_executed.checked_add(1) {
                Some(v) => v,
                None => {
                    return Err(ContractError::Overflow);
                },
            };
            let total = match self.lunc_purchased_total.checked_add(purchased) {
                Some(v) => v,
                None => {
                    return Err(ContractError::Overflow);
                },
            };
            if let Some((c, offered)) = self.last_offer {
                let bal: u128 = match self.balances.get(c) {
                    Some(b) => *b,
                    None => 0,
                };
                self.balances.set(c, Some(bal.saturating_sub(offered)));
                self.last_offer = None;
                assert(self.balances.eurc == self.balances.at(CollateralType::Eurc));
                assert(self.balances.usdc == self.balances.at(CollateralType::Usdc));
            }
            self.buybacks_executed = executed;
            self.lunc_purchased_total = total;
            self.buyback_status = BuybackStatus::Completed;
            Ok(())
        } else {
            let why = match reason {
                Some(s) => s,
                None => "router reported failure".to_string(),
            };
            self.buyback_status = BuybackStatus::Failed { reason: why };
            Ok(())
        }
    }

    /// Balances query: the balances present, EURC first.
    pub fn query_balances(&self) -> (r: ReserveBalancesResponse)
        ensures
            r.balances@ == crate::mint_redeem::slot_pairs(self.balances),
    {
        let mut out: Vec<(CollateralType, u128)> = Vec::new();
        if let Some(b) = self.balances.eurc {
            out.push((CollateralType::Eurc, b));
        }
        if let Some(b) = self.balances.usdc {
            out.push((CollateralType::Usdc, b));
        }
        assert(out@ =~= crate::mint_redeem::slot_pairs(self.balances));
        ReserveBalancesResponse { balances: out }
    }

    /// Buyback status query.
    pub fn query_buyback_status(&self) -> (r: BuybackStatusResponse)
        ensures
            r.status == self.buyback_status,
            r.buybacks_executed == self.buybacks_executed,
            r.lunc_purchased_total == self.lunc_purchased_total,
            r.last_route == self.last_route,
    {
        let status = match &self.buyback_status {
            BuybackStatus::Idle => BuybackStatus::Idle,
            BuybackStatus::Pending => BuybackStatus::Pending,
            BuybackStatus::Failed { reason } => BuybackStatus::Failed { reason: reason.clone() },
            BuybackStatus::Completed => BuybackStatus::Completed,
        };
        let last_route = match &self.last_route {
            Some(r) => Some(r.clone()),
            None => None,
        };
        BuybackStatusResponse {
            status,
            buybacks_executed: self.buybacks_executed,
            lunc_purchased_total: self.lunc_purchased_total,
            last_route,
        }
    }
}

/// Retry after failure: once the router has reported a failure, a new
/// buyback request is never refused as "in progress"; it is refused only
/// for the reasons that would refuse it from an idle reserve.
pub proof fn lemma_failure_allows_retry(
    s: ReserveState,
    reason: String,
    sender: String,
    offer: CollateralType,
    max_slippage_bps: u64,
)
    ensures
        buyback_refusal(
            ReserveState { buyback_status: BuybackStatus::Failed { reason }, ..s },
            sender,
            offer,
            max_slippage_bps,
        ) != Some(ContractError::BuybackInProgress),
        buyback_refusal(
            ReserveState { buyback_status: BuybackStatus::Failed { reason }, ..s },
            sender,
            offer,
            max_slippage_bps,
        ) == buyback_refusal(
            ReserveState { buyback_status: BuybackStatus::Idle, ..s },
            sender,
            offer,
            max_slippage_bps,
        ),
{
}

} // verus!
