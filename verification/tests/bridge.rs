//! The legacy-unit conversion bridge: conversions (caps, sink delivery,
//! disclosure), vesting, and admin controls, run against a bank ledger.

use std::collections::HashMap;

use csm::bridge::{
    claim, query_claim, query_totals, BridgeAdminAction, Claim, ClaimResponse, Config, ContractError,
    TotalsResponse,
};
use csm::types::Coin;

#[derive(Clone)]
struct Chain {
    height: u64,
    config: Config,
    bank: HashMap<(String, String), u128>,
    claims: HashMap<(String, String), Claim>,
    converted: HashMap<String, u128>,
    converted_by: HashMap<(String, String), u128>,
}

fn s(x: &str) -> String {
    x.to_string()
}

impl Chain {
    fn balance(&self, addr: &str, denom: &str) -> u128 {
        self.bank.get(&(s(addr), s(denom))).copied().unwrap_or(0)
    }

    fn move_coins(&mut self, from: &str, to: &str, denom: &str, amount: u128) {
        let b = self.balance(from, denom);
        assert!(b >= amount, "insufficient bank funds");
        self.bank.insert((s(from), s(denom)), b - amount);
        *self.bank.entry((s(to), s(denom))).or_insert(0) += amount;
    }

    /// Convert with attached funds; returns the disclosure on success.
    fn convert(&mut self, amount: u128, denom: &str) -> Result<&'static str, ContractError> {
        let saved = self.clone();
        // The bank moves attached funds to the contract before it runs.
        self.move_coins("user", "bridge", denom, amount);
        let r = (|| {
            let coin = self.config.conversion_coin(vec![Coin { denom: s(denom), amount }])?;
            let d = coin.denom.clone();
            let out = self.config.convert(
                self.height,
                coin,
                self.converted.get(&d).copied(),
                self.converted_by.get(&(d.clone(), s("user"))).copied(),
                self.claims.get(&(d.clone(), s("user"))).cloned(),
            )?;
            self.claims.insert((d.clone(), s("user")), out.claim.clone());
            self.converted.insert(d.clone(), out.converted_total);
            self.converted_by.insert((d.clone(), s("user")), out.converted_by_holder);
            for c in &out.send.amount {
                let to = out.send.to_address.clone();
                self.move_coins("bridge", &to, &c.denom, c.amount);
            }
            Ok(out.disclosure)
        })();
        if r.is_err() {
            *self = saved;
        }
        r
    }

    fn claim(&mut self, denom: &str) -> Result<u128, ContractError> {
        let key = (s(denom), s("user"));
        let out = claim(self.height, self.claims.get(&key).cloned())?;
        match out.remaining {
            Some(c) => {
                self.claims.insert(key, c);
            }
            None => {
                self.claims.remove(&key);
            }
        }
        Ok(out.claimable)
    }

    fn claim_response(&self) -> ClaimResponse {
        query_claim(self.claims.get(&(s("ueur"), s("user"))).cloned(), self.height, self.config.open)
    }

    fn admin(&mut self, sender: &str, action: BridgeAdminAction) -> Result<(), ContractError> {
        self.config.execute_admin(&s(sender), action)
    }
}

fn instantiate_chain(open: bool) -> Chain {
    let config = Config::instantiate(Ok(s("owner")), Ok(s("sink")), 1, open).unwrap();
    let mut bank = HashMap::new();
    bank.insert((s("user"), s("ueur")), 10_000_000u128);
    bank.insert((s("user"), s("ibc/ABCDEF")), 1_000_000u128);
    Chain {
        height: 12_345,
        config,
        bank,
        claims: HashMap::new(),
        converted: HashMap::new(),
        converted_by: HashMap::new(),
    }
}

// A conversion records a vesting claim, forwards the coins to the sink
// permanently, and carries the no-promise-of-value disclosure.
#[test]
fn convert_records_claim_forwards_to_sink_and_discloses() {
    let mut c = instantiate_chain(true);
    let disclosure = c.convert(5_000_000, "ueur").unwrap();

    assert_eq!(c.balance("sink", "ueur"), 5_000_000);
    assert_eq!(c.balance("bridge", "ueur"), 0);
    assert!(disclosure.contains("NOT a promise of value"));

    let claim = c.claim_response();
    let info = claim.claim.expect("claim recorded");
    assert_eq!(info.total, "5000000");
    assert_eq!(info.claimed, "0");
    assert!(claim.program_open);

    let totals: TotalsResponse = query_totals(s("ueur"), c.converted.get("ueur").copied());
    assert_eq!(totals.converted, "5000000");
}

// Only legacy forex denoms are convertible, and the program switch gates it.
#[test]
fn convert_rejects_closed_program_and_foreign_denom() {
    let mut c = instantiate_chain(false);
    let err = c.convert(1_000_000, "ueur").unwrap_err();
    assert!(matches!(err, ContractError::ProgramClosed), "actual: {err:?}");

    c.admin("owner", BridgeAdminAction::SetOpen { open: true }).unwrap();

    let err = c.convert(1_000_000, "ibc/ABCDEF").unwrap_err();
    assert!(matches!(err, ContractError::NotConvertible { .. }), "actual: {err:?}");
}

// The per-address cap bounds one holder's total conversion.
#[test]
fn per_address_cap_blocks_excess() {
    let mut c = instantiate_chain(true);
    c.admin("owner", BridgeAdminAction::SetCaps { global: 100_000_000, per_address: 6_000_000 }).unwrap();

    c.convert(5_000_000, "ueur").unwrap();
    let err = c.convert(2_000_000, "ueur").unwrap_err();
    assert!(matches!(err, ContractError::AddressCapExceeded { .. }), "actual: {err:?}");
}

// Claims vest linearly and are consumable exactly once.
#[test]
fn claim_vests_linearly_and_completes() {
    let mut c = instantiate_chain(true);
    c.convert(4_000_000, "ueur").unwrap();

    c.height += 3_600;
    let mid = c.claim_response();
    assert_eq!(mid.vested, "2000000");

    c.claim("ueur").unwrap();

    c.height += 7_200;
    c.claim("ueur").unwrap();

    let err = c.claim("ueur").unwrap_err();
    assert!(matches!(err, ContractError::NothingToClaim), "actual: {err:?}");
    let done = c.claim_response();
    assert!(done.claim.is_none());
}

// Admin-only controls.
#[test]
fn admin_ops_require_admin() {
    let mut c = instantiate_chain(true);
    let err = c.admin("user", BridgeAdminAction::SetOpen { open: false }).unwrap_err();
    assert!(matches!(err, ContractError::Unauthorized), "actual: {err:?}");
}
