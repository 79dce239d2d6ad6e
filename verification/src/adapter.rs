//! The feeder oracle adapter: authorized feeders post per-quote prices; the
//! adapter answers the latest price and an aggregate freshness verdict.

use vstd::prelude::*;
use crate::types::{str_eq, CollateralType, Decimal};
use crate::oracle::{fresh, is_fresh, OraclePrice, OracleStatusResponse, QuotedPrice};

verus! {

/// Minimum seconds between two posts for one quote when the instantiation
/// message names none (the protocol's default feed interval).
pub const DEFAULT_MIN_INTERVAL_SECS: u64 = 30u64;

/// Adapter instantiation message.
#[derive(Clone, Debug, PartialEq, Eq)]
pub struct InstantiateMsg {
    pub admin: String,
    /// Price older than this many seconds is reported stale.
    pub stale_secs: u64,
    /// Minimum seconds between two posts for one quote; the default
    /// interval when omitted.
    pub min_interval_secs: Option<u64>,
}

/// Adapter configuration.
#[derive(Clone, Debug, PartialEq, Eq)]
pub struct Config {
    pub admin: String,
    /// Price older than this many seconds is reported stale.
    pub stale_secs: u64,
    /// Posts for a quote closer than this to its stored price are rejected.
    pub min_interval_secs: u64,
}

/// Adapter state: the configuration and the latest price per quote.
/// (The feeder registry is keyed by address and supplied per call.)
#[derive(Clone, Debug, PartialEq, Eq)]
pub struct AdapterState {
    pub config: Config,
    pub eurc_price: Option<OraclePrice>,
    pub usdc_price: Option<OraclePrice>,
}

/// Why the adapter refused a message.
#[derive(Clone, Debug, PartialEq, Eq)]
pub enum ContractError {
    /// An address failed validation; the text is the validator's message.
    Std(String),
    UnauthorizedFeeder,
    Unauthorized,
    /// A zero price was posted.
    NoPrice,
    InvalidConfig,
    /// A post came sooner than the minimum interval after the stored price.
    TooFrequent,
}

/// A change to the feeder registry.
#[derive(Clone, Debug, PartialEq, Eq)]
pub struct FeederUpdate {
    pub feeder: String,
    pub authorized: bool,
}

/// A post for a quote whose stored price is `p` comes too soon at `now`.
pub open spec fn too_soon(p: Option<OraclePrice>, now: u64, min_interval_secs: u64) -> bool {
    match p {
        Some(p) => now < p.updated_at + min_interval_secs,
        None => false,
    }
}

impl AdapterState {
    /// The latest price posted for `quote`.
    pub open spec fn price_of(self, quote: CollateralType) -> Option<OraclePrice> {
        match quote {
            CollateralType::Eurc => self.eurc_price,
            CollateralType::Usdc => self.usdc_price,
        }
    }

    /// A fresh adapter with no prices. `admin` is the validated admin and
    /// the staleness threshold must be positive.
    pub fn instantiate(admin: Result<String, String>, stale_secs: u64, min_interval_secs: Option<u64>) -> (r: Result<
        AdapterState,
        ContractError,
    >)
        ensures
            ({
                let min = match min_interval_secs {
                    Some(m) => m,
                    None => DEFAULT_MIN_INTERVAL_SECS,
                };
                match admin {
                    Err(e) => r == Err::<AdapterState, ContractError>(ContractError::Std(e)),
                    Ok(a) => if stale_secs == 0 {
                        r == Err::<AdapterState, ContractError>(ContractError::InvalidConfig)
                    } else {
                        r == Ok::<AdapterState, ContractError>(
                            AdapterState {
                                config: Config { admin: a, stale_secs, min_interval_secs: min },
                                eurc_price: None,
                                usdc_price: None,
                            },
                        )
                    },
                }
            }),
    {
        let min: u64 = match min_interval_secs {
            Some(m) => m,
            None => DEFAULT_MIN_INTERVAL_SECS,
        };
        match admin {
            Err(e) => Err(ContractError::Std(e)),
            Ok(a) => {
                if stale_secs == 0 {
                    return Err(ContractError::InvalidConfig);
                }
                Ok(
                    AdapterState {
                        config: Config { admin: a, stale_secs, min_interval_secs: min },
                        eurc_price: None,
                        usdc_price: None,
                    },
                )
            },
        }
    }

    /// A post of `units_per_eutc` for `quote` at `now` by a sender that is
    /// (`sender_is_feeder`) or is not a registered feeder. Refused for a
    /// non-feeder, for a zero price, and when the stored price for the
    /// quote is younger than the minimum interval; a refused post changes
    /// nothing. An accepted post replaces the quote's price.
    pub fn post_price(
        &mut self,
        sender_is_feeder: bool,
        quote: CollateralType,
        units_per_eutc: Decimal,
        now: u64,
    ) -> (r: Result<OraclePrice, ContractError>)
        ensures
            !sender_is_feeder ==> r == Err::<OraclePrice, ContractError>(
                ContractError::UnauthorizedFeeder,
            ),
            sender_is_feeder && units_per_eutc.0 == 0 ==> r == Err::<OraclePrice, ContractError>(
                ContractError::NoPrice,
            ),
            sender_is_feeder && units_per_eutc.0 != 0 && too_soon(
                old(self).price_of(quote),
                now,
                old(self).config.min_interval_secs,
            ) ==> r == Err::<OraclePrice, ContractError>(ContractError::TooFrequent),
            r is Err ==> *final(self) == *old(self),
            r is Ok <==> sender_is_feeder && units_per_eutc.0 != 0 && !too_soon(
                old(self).price_of(quote),
                now,
                old(self).config.min_interval_secs,
            ),
            r matches Ok(p) ==> {
                &&& p == OraclePrice { quote, units_per_eutc, updated_at: now }
                &&& final(self).price_of(quote) == Some(p)
                &&& final(self).config == old(self).config
                &&& (forall|q: CollateralType|
                    q != quote ==> #[trigger] final(self).price_of(q) == old(self).price_of(q))
            },
    {
        if !sender_is_feeder {
            return Err(ContractError::UnauthorizedFeeder);
        }
        if units_per_eutc.is_zero() {
            return Err(ContractError::NoPrice);
        }
        let stored = match quote {
            CollateralType::Eurc => self.eurc_price,
            CollateralType::Usdc => self.usdc_price,
        };
        if let Some(prev) = stored {
            if now < prev.updated_at || now - prev.updated_at < self.config.min_interval_secs {
                return Err(ContractError::TooFrequent);
            }
        }
        let p = OraclePrice { quote, units_per_eutc, updated_at: now };
        match quote {
            CollateralType::Eurc => {
                self.eurc_price = Some(p);
            },
            CollateralType::Usdc => {
                self.usdc_price = Some(p);
            },
        }
        Ok(p)
    }

    /// The admin authorizes or revokes a feeder. `feeder` is the outcome of
    /// validating the feeder address, which is checked first.
    pub fn set_feeder(&self, sender: &str, feeder: Result<String, String>, authorized: bool) -> (r:
        Result<FeederUpdate, ContractError>)
        ensures
            match feeder {
                Err(e) => r == Err::<FeederUpdate, ContractError>(ContractError::Std(e)),
                Ok(f) => if sender@ != self.config.admin@ {
                    r == Err::<FeederUpdate, ContractError>(ContractError::Unauthorized)
                } else {
                    r == Ok::<FeederUpdate, ContractError>(FeederUpdate { feeder: f, authorized })
                },
            },
    {
        match feeder {
            Err(e) => Err(ContractError::Std(e)),
            Ok(f) => {
                if !str_eq(sender, self.config.admin.as_str()) {
                    return Err(ContractError::Unauthorized);
                }
                Ok(FeederUpdate { feeder: f, authorized })
            },
        }
    }

    /// The latest observation for a quote, if one was posted, with whether
    /// it is fresh at `now`.
    pub fn price(&self, quote: CollateralType, now: u64) -> (r: Option<QuotedPrice>)
        ensures
            match self.price_of(quote) {
                Some(p) => r == Some(
                    QuotedPrice { price: p, fresh: fresh(p.updated_at, now, self.config.stale_secs) },
                ),
                None => r is None,
            },
    {
        let stored = match quote {
            CollateralType::Eurc => self.eurc_price,
            CollateralType::Usdc => self.usdc_price,
        };
        match stored {
            Some(p) => Some(
                QuotedPrice { price: p, fresh: is_fresh(p.updated_at, now, self.config.stale_secs) },
            ),
            None => None,
        }
    }

    /// Some quote has a price that is fresh at `now`.
    pub open spec fn any_fresh_at(self, now: u64) -> bool {
        exists|q: CollateralType|
            #[trigger] self.price_of(q) matches Some(p) && fresh(p.updated_at, now, self.config.stale_secs)
    }

    /// The posted prices in quote order (EURC, then USDC).
    pub open spec fn posted(self) -> Seq<OraclePrice> {
        let e = match self.eurc_price {
            Some(p) => seq![p],
            None => Seq::<OraclePrice>::empty(),
        };
        let u = match self.usdc_price {
            Some(p) => seq![p],
            None => Seq::<OraclePrice>::empty(),
        };
        e + u
    }

    /// Aggregate status at `now` with `feeder_count` registered feeders:
    /// the posted prices, each quote's freshness, whether some quote is
    /// fresh, and health (some quote fresh and at least one price posted).
    pub fn status(&self, now: u64, feeder_count: u64) -> (r: OracleStatusResponse)
        ensures
            r.prices@ == self.posted(),
            r.quote_fresh@ == self.posted().map_values(
                |p: OraclePrice| (p.quote, fresh(p.updated_at, now, self.config.stale_secs)),
            ),
            r.all_fresh == self.any_fresh_at(now),
            r.healthy == (self.any_fresh_at(now) && self.posted().len() > 0),
            r.feeder_count == feeder_count,
    {
        let stale = self.config.stale_secs;
        let mut prices: Vec<OraclePrice> = Vec::new();
        let mut quote_fresh: Vec<(CollateralType, bool)> = Vec::new();
        let mut any_fresh = false;
        match self.eurc_price {
            Some(p) => {
                let f = is_fresh(p.updated_at, now, stale);
                any_fresh = any_fresh || f;
                prices.push(p);
                quote_fresh.push((p.quote, f));
            },
            None => {},
        }
        match self.usdc_price {
            Some(p) => {
                let f = is_fresh(p.updated_at, now, stale);
                any_fresh = any_fresh || f;
                prices.push(p);
                quote_fresh.push((p.quote, f));
            },
            None => {},
        }
        proof {
            assert(prices@ =~= self.posted());
            assert(quote_fresh@ =~= self.posted().map_values(
                |p: OraclePrice| (p.quote, fresh(p.updated_at, now, stale)),
            ));
            if any_fresh {
                if self.eurc_price matches Some(p) && fresh(p.updated_at, now, stale) {
                    assert(self.price_of(CollateralType::Eurc) == self.eurc_price);
                } else {
                    assert(self.price_of(CollateralType::Usdc) == self.usdc_price);
                }
            } else {
                assert forall|q: CollateralType|
                    !(#[trigger] self.price_of(q) matches Some(p) && fresh(p.updated_at, now, stale)) by {
                    match q {
                        CollateralType::Eurc => {},
                        CollateralType::Usdc => {},
                    }
                }
            }
        }
        let healthy = any_fresh && prices.len() > 0;
        OracleStatusResponse { healthy, all_fresh: any_fresh, prices, quote_fresh, feeder_count }
    }
}

} // verus!
