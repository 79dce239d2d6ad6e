//! The collateral vault: custody of collateral cw20s with a per-token
//! balance mirror. Anyone may deposit; only the bound core may withdraw.

use vstd::prelude::*;

verus! {

/// Vault instantiation message.
#[derive(Clone, Debug, PartialEq, Eq)]
pub struct VaultInstantiateMsg {
    pub admin: String,
}

/// Hook delivered via cw20 Send when custodying collateral.
#[derive(Clone, Copy, Debug, PartialEq, Eq, Structural)]
pub enum VaultHook {
    Deposit {},
}

/// Queries the vault answers.
#[derive(Clone, Debug, PartialEq, Eq)]
pub enum VaultQueryMsg {
    Config {},
    Balance { token: String },
}

/// The vault's admin and bound core.
#[derive(Clone, Debug, PartialEq, Eq)]
pub struct VaultConfigResponse {
    pub admin: String,
    pub core: Option<String>,
}

/// The mirrored custody balance of a token.
#[derive(Clone, Debug, PartialEq, Eq)]
pub struct VaultBalanceResponse {
    pub token: String,
    pub balance: u128,
}

/// Vault configuration. (The balance mirror is keyed by token address and
/// supplied per call.)
#[derive(Clone, Debug, PartialEq, Eq)]
pub struct Config {
    pub admin: String,
    pub core: Option<String>,
}

/// Why the vault refused a message.
#[derive(Clone, Debug, PartialEq, Eq)]
pub enum ContractError {
    /// An address failed validation; the text is the validator's message.
    Std(String),
    Unauthorized,
    NotCore,
    UnsupportedHook,
    /// The mirrored balance is smaller than the withdrawal.
    InsufficientBalance,
    /// The balance mirror leaves the 128-bit range; the contract aborts.
    Overflow,
}

/// The cw20 transfer a withdrawal emits.
#[derive(Clone, Debug, PartialEq, Eq)]
pub enum VaultMsg {
    /// Plain cw20 `Transfer` to the recipient.
    Transfer { token: String, recipient: String, amount: u128 },
    /// cw20 `Send` to the recipient contract, carrying `msg`.
    Send { token: String, contract: String, amount: u128, msg: Vec<u8> },
}

/// A successful withdrawal.
#[derive(Debug, PartialEq, Eq)]
pub struct WithdrawOutcome {
    /// The token's mirrored balance after the withdrawal.
    pub balance: u128,
    pub message: VaultMsg,
}

/// The mirrored balance after depositing `amount`, or `None` when it would
/// leave the 128-bit range.
pub open spec fn deposited(balance: Option<u128>, amount: u128) -> Option<u128> {
    if balance_of(balance) + amount > u128::MAX {
        None
    } else {
        Some((balance_of(balance) + amount) as u128)
    }
}

/// A mirrored balance entry, absent meaning zero.
pub open spec fn balance_of(entry: Option<u128>) -> int {
    match entry {
        Some(b) => b as int,
        None => 0,
    }
}

impl Config {
    /// A fresh vault with no core bound. `admin` is the validated admin.
    pub fn instantiate(admin: Result<String, String>) -> (r: Result<Config, ContractError>)
        ensures
            match admin {
                Ok(a) => r == Ok::<Config, ContractError>(Config { admin: a, core: None }),
                Err(e) => r == Err::<Config, ContractError>(ContractError::Std(e)),
            },
    {
        match admin {
            Ok(a) => Ok(Config { admin: a, core: None }),
            Err(e) => Err(ContractError::Std(e)),
        }
    }

    /// A cw20 receive: `hook` is the decoded hook (`None` when it did not
    /// decode) and `balance` the mirror entry of the sending token. Returns
    /// the token's new mirrored balance.
    pub fn receive(hook: Option<VaultHook>, amount: u128, balance: Option<u128>) -> (r: Result<
        u128,
        ContractError,
    >)
        ensures
            hook is None ==> r == Err::<u128, ContractError>(ContractError::UnsupportedHook),
            hook is Some ==> match deposited(balance, amount) {
                None => r == Err::<u128, ContractError>(ContractError::Overflow),
                Some(b) => r == Ok::<u128, ContractError>(b),
            },
    {
        match hook {
            None => Err(ContractError::UnsupportedHook),
            Some(VaultHook::Deposit {  }) => {
                let b: u128 = match balance {
                    Some(b) => b,
                    None => 0,
                };
                match b.checked_add(amount) {
                    Some(v) => Ok(v),
                    None => Err(ContractError::Overflow),
                }
            },
        }
    }

    /// Releases `amount` of `token` to `to` (validated), on the core's
    /// instruction. With `hook`, the tokens go by cw20 Send carrying it;
    /// otherwise by plain transfer. `balance` is the token's mirror entry.
    pub fn withdraw(
        &self,
        sender: &String,
        to: Result<String, String>,
        token: String,
        amount: u128,
        hook: Option<Vec<u8>>,
        balance: Option<u128>,
    ) -> (r: Result<WithdrawOutcome, ContractError>)
        ensures
            (self.core is None || self.core->0@ != sender@) ==> r == Err::<
                WithdrawOutcome,
                ContractError,
            >(ContractError::NotCore),
            self.core is Some && self.core->0@ == sender@ ==> match to {
                Err(e) => r == Err::<WithdrawOutcome, ContractError>(ContractError::Std(e)),
                Ok(recipient) => if balance_of(balance) < amount {
                    r == Err::<WithdrawOutcome, ContractError>(ContractError::InsufficientBalance)
                } else {
                    &&& r matches Ok(o)
                    &&& o.balance == balance_of(balance) - amount
                    &&& o.message == match hook {
                        Some(m) => VaultMsg::Send { token, contract: recipient, amount, msg: m },
                        None => VaultMsg::Transfer { token, recipient, amount },
                    }
                },
            },
    {
        let is_core = match &self.core {
            Some(c) => *c == *sender,
            None => false,
        };
        if !is_core {
            return Err(ContractError::NotCore);
        }
        let recipient = match to {
            Ok(a) => a,
            Err(e) => {
                return Err(ContractError::Std(e));
            },
        };
        let b: u128 = match balance {
            Some(b) => b,
            None => 0,
        };
        if b < amount {
            return Err(ContractError::InsufficientBalance);
        }
        let message = match hook {
            Some(m) => VaultMsg::Send { token, contract: recipient, amount, msg: m },
            None => VaultMsg::Transfer { token, recipient, amount },
        };
        Ok(WithdrawOutcome { balance: b - amount, message })
    }

    /// The admin binds the core allowed to withdraw (`core` validated after
    /// the admin check). A refused call changes nothing.
    pub fn register_core(&mut self, sender: &String, core: Result<String, String>) -> (r: Result<
        (),
        ContractError,
    >)
        ensures
            sender@ != old(self).admin@ ==> r == Err::<(), ContractError>(ContractError::Unauthorized)
                && *final(self) == *old(self),
            sender@ == old(self).admin@ ==> match core {
                Err(e) => r == Err::<(), ContractError>(ContractError::Std(e)) && *final(self) == *old(self),
                Ok(c) => r is Ok && *final(self) == Config { core: Some(c), ..*old(self) },
            },
    {
        if self.admin != *sender {
            return Err(ContractError::Unauthorized);
        }
        match core {
            Ok(c) => {
                self.core = Some(c);
                Ok(())
            },
            Err(e) => Err(ContractError::Std(e)),
        }
    }

    /// Config query.
    pub fn query_config(&self) -> (r: VaultConfigResponse)
        ensures
            r.admin == self.admin,
            r.core == self.core,
    {
        let core = match &self.core {
            Some(c) => Some(c.clone()),
            None => None,
        };
        VaultConfigResponse { admin: self.admin.clone(), core }
    }

    /// Balance query: the mirror entry, zero when absent.
    pub fn query_balance(token: String, balance: Option<u128>) -> (r: VaultBalanceResponse)
        ensures
            r.token == token,
            r.balance == balance_of(balance),
    {
        let b: u128 = match balance {
            Some(b) => b,
            None => 0,
        };
        VaultBalanceResponse { token, balance: b }
    }
}

/// Custody round trip: after a deposit of `amount`, a withdrawal of the
/// same amount is covered by the mirror and restores the balance it had
/// before the deposit.
pub proof fn lemma_deposit_withdraw_restores(before: Option<u128>, amount: u128)
    ensures
        deposited(before, amount) matches Some(after) ==> balance_of(Some(after)) >= amount
            && balance_of(Some(after)) - amount == balance_of(before),
{
}

} // verus!
