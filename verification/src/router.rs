//! Deterministic DEX router test double: swaps offered stablecoins for LUNC
//! at a fixed rate, or fails on demand, and reports the outcome back to the
//! reserve.

use vstd::prelude::*;
use crate::types::DECIMAL_FRACTIONAL;
use crate::math::{checked_multiply_ratio, decimal_from_str, mul_div, parse_decimal};
use crate::reserve::{ReserveCallbackMsg, RouterExecuteMsg};

verus! {

/// Router instantiation message.
#[derive(Clone, Debug, PartialEq, Eq)]
pub struct InstantiateMsg {
    /// LUNC (micro) bought per offered stablecoin (micro), as decimal text.
    pub rate: String,
    /// When true, swaps fail regardless of price.
    pub fail_swaps: bool,
}

/// Router queries.
#[derive(Clone, Copy, Debug, PartialEq, Eq, Structural)]
pub enum RouterQuery {
    Swaps {},
    Offered {},
}

/// Router configuration.
#[derive(Clone, Copy, Debug, PartialEq, Eq, Structural)]
pub struct Config {
    /// LUNC bought per offered unit, as 18-decimal atomics.
    pub rate: u128,
    pub fail_swaps: bool,
}

/// Router state: configuration and counters.
#[derive(Clone, Copy, Debug, PartialEq, Eq, Structural)]
pub struct RouterState {
    pub config: Config,
    pub swaps_executed: u64,
    pub offered_total: u128,
}

/// Why the router refused a message.
#[derive(Clone, Debug, PartialEq, Eq)]
pub enum ContractError {
    /// The configured rate is not a decimal.
    InvalidRate,
    /// The cw20 hook is not a swap request.
    InvalidHook,
    /// The purchased amount leaves the 128-bit range.
    RateOverflow,
    /// A counter leaves its range; the contract aborts.
    Overflow,
}

/// The LUNC denom the router pays out.
pub const ROUTER_LUNC_DENOM: &'static str = "ulunc";

/// Reason the router reports when failing on demand.
pub open spec fn mock_failure_reason() -> Seq<char> {
    "mock: failing router"@
}

/// A message the router emits.
#[derive(Clone, Debug, PartialEq, Eq)]
pub enum RouterMsg {
    /// Return the offered cw20 tokens.
    Refund { token: String, recipient: String, amount: u128 },
    /// Pay LUNC from the router's bank balance.
    PayLunc { to_address: String, denom: String, amount: u128 },
    /// Report the outcome to the reserve.
    Report { reserve: String, result: ReserveCallbackMsg },
}

impl RouterState {
    /// A fresh router at the given rate text.
    pub fn instantiate(rate: &str, fail_swaps: bool) -> (r: Result<RouterState, ContractError>)
        ensures
            match decimal_from_str(rate@) {
                None => r == Err::<RouterState, ContractError>(ContractError::InvalidRate),
                Some(a) => r == Ok::<RouterState, ContractError>(
                    RouterState { config: Config { rate: a, fail_swaps }, swaps_executed: 0, offered_total: 0 },
                ),
            },
    {
        match parse_decimal(rate) {
            None => Err(ContractError::InvalidRate),
            Some(a) => Ok(RouterState { config: Config { rate: a, fail_swaps }, swaps_executed: 0, offered_total: 0 }),
        }
    }

    /// Flip the failure switch.
    pub fn set_fail_swaps(&mut self, fail_swaps: bool)
        ensures
            *final(self) == (RouterState { config: Config { fail_swaps, ..old(self).config }, ..*old(self) }),
    {
        self.config.fail_swaps = fail_swaps;
    }

    /// A cw20 receive of `amount` of `token` from `reserve` carrying the
    /// decoded swap request (`None` when it did not decode). Counts the
    /// swap and the offered amount; when failing, refunds the tokens and
    /// reports failure, otherwise pays `amount * rate` LUNC and reports it.
    /// A refused receive changes nothing.
    pub fn receive(
        &mut self,
        token: &String,
        reserve: &String,
        amount: u128,
        swap: Option<RouterExecuteMsg>,
    ) -> (r: Result<Vec<RouterMsg>, ContractError>)
        ensures
            r is Err ==> *final(self) == *old(self),
            swap is None ==> r == Err::<Vec<RouterMsg>, ContractError>(ContractError::InvalidHook),
            swap is Some ==> if old(self).swaps_executed == u64::MAX || old(self).offered_total
                + amount > u128::MAX {
                r == Err::<Vec<RouterMsg>, ContractError>(ContractError::Overflow)
            } else if old(self).config.fail_swaps {
                &&& r matches Ok(msgs)
                &&& msgs@.len() == 2
                &&& msgs@[0] == (RouterMsg::Refund { token: *token, recipient: *reserve, amount })
                &&& (msgs@[1] matches RouterMsg::Report {
                    reserve: to,
                    result: ReserveCallbackMsg::BuybackResult { success, purchased, reason },
                } && to == *reserve && !success && purchased == 0 && reason is Some
                    && reason->0@ == mock_failure_reason())
                &&& *final(self) == (RouterState {
                    swaps_executed: (old(self).swaps_executed + 1) as u64,
                    offered_total: (old(self).offered_total + amount) as u128,
                    ..*old(self)
                })
            } else if mul_div(amount as int, old(self).config.rate as int, DECIMAL_FRACTIONAL as int)
                > u128::MAX {
                r == Err::<Vec<RouterMsg>, ContractError>(ContractError::RateOverflow)
            } else {
                let purchased = mul_div(amount as int, old(self).config.rate as int, DECIMAL_FRACTIONAL as int) as u128;
                &&& r matches Ok(msgs)
                &&& msgs@.len() == 2
                &&& (msgs@[0] matches RouterMsg::PayLunc { to_address, denom, amount: paid }
                    && to_address == *reserve && denom@ == ROUTER_LUNC_DENOM@ && paid == purchased)
                &&& msgs@[1] == (RouterMsg::Report {
                    reserve: *reserve,
                    result: ReserveCallbackMsg::BuybackResult { success: true, purchased, reason: None },
                })
                &&& *final(self) == (RouterState {
                    swaps_executed: (old(self).swaps_executed + 1) as u64,
                    offered_total: (old(self).offered_total + amount) as u128,
                    ..*old(self)
                })
            },
    {
        if swap.is_none() {
            return Err(ContractError::InvalidHook);
        }
        let executed = match self.swaps_executed.checked_add(1) {
            Some(v) => v,
            None => {
                return Err(ContractError::Overflow);
            },
        };
        let offered = match self.offered_total.checked_add(amount) {
            Some(v) => v,
            None => {
                return Err(ContractError::Overflow);
            },
        };
        let mut msgs: Vec<RouterMsg> = Vec::new();
        if self.config.fail_swaps {
            msgs.push(RouterMsg::Refund { token: token.clone(), recipient: reserve.clone(), amount });
            msgs.push(
                RouterMsg::Report {
                    reserve: reserve.clone(),
                    result: ReserveCallbackMsg::BuybackResult {
                        success: false,
                        purchased: 0,
                        reason: Some("mock: failing router".to_string()),
                    },
                },
            );
        } else {
            let purchased = match checked_multiply_ratio(amount, self.config.rate, DECIMAL_FRACTIONAL) {
                Some(v) => v,
                None => {
                    return Err(ContractError::RateOverflow);
                },
            };
            msgs.push(
                RouterMsg::PayLunc {
                    to_address: reserve.clone(),
                    denom: ROUTER_LUNC_DENOM.to_string(),
                    amount: purchased,
                },
            );
            msgs.push(
                RouterMsg::Report {
                    reserve: reserve.clone(),
                    result: ReserveCallbackMsg::BuybackResult { success: true, purchased, reason: None },
                },
            );
        }
        self.swaps_executed = executed;
        self.offered_total = offered;
        Ok(msgs)
    }
}

} // verus!
