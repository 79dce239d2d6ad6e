//! Oracle interface: fiat price observations and the freshness rule shared
//! by the core module and the feeder adapter.

use vstd::prelude::*;
use crate::types::{CollateralType, Decimal};

verus! {

/// A posted fiat price: units of the quote currency per 1 EUTC.
#[derive(Clone, Copy, Debug, PartialEq, Eq, Structural)]
pub struct OraclePrice {
    pub quote: CollateralType,
    pub units_per_eutc: Decimal,
    pub updated_at: u64,
}

/// Messages the feeder adapter executes.
#[derive(Clone, Debug, PartialEq, Eq)]
pub enum OracleExecuteMsg {
    /// Feeder posts a fresh price observation.
    PostPrice { quote: CollateralType, units_per_eutc: Decimal },
    /// Admin: authorize or revoke a feeder address.
    SetFeeder { feeder: String, authorized: bool },
}

/// Queries the feeder adapter answers.
#[derive(Clone, Copy, Debug, PartialEq, Eq, Structural)]
pub enum OracleQueryMsg {
    /// Latest price for a quote.
    Price { quote: CollateralType },
    /// Aggregated oracle status.
    Status {},
}

/// The adapter's answer to `Price { quote }`: the latest observation and
/// whether it is within the stale window.
#[derive(Clone, Copy, Debug, PartialEq, Eq, Structural)]
pub struct QuotedPrice {
    pub price: OraclePrice,
    pub fresh: bool,
}

/// Aggregated oracle status for public diagnostics.
#[derive(Clone, Debug, PartialEq, Eq)]
pub struct OracleStatusResponse {
    pub prices: Vec<OraclePrice>,
    /// Each posted quote with whether its price is within the stale window.
    pub quote_fresh: Vec<(CollateralType, bool)>,
    pub healthy: bool,
    /// True when any quote is within the stale window.
    pub all_fresh: bool,
    /// Number of registered feeders.
    pub feeder_count: u64,
}

/// A price stamped `updated_at` is fresh at `now` when it is at most
/// `stale_secs` old.
pub open spec fn fresh(updated_at: u64, now: u64, stale_secs: u64) -> bool {
    now <= updated_at + stale_secs
}

/// Freshness rule: a price is usable when `now - updated_at <= stale_secs`
/// (a price stamped in the future counts as zero seconds old).
pub fn is_fresh(updated_at: u64, now: u64, stale_secs: u64) -> (r: bool)
    ensures
        r == fresh(updated_at, now, stale_secs),
{
    now.saturating_sub(updated_at) <= stale_secs
}

/// A price that is fresh at some time stays fresh at every earlier time,
/// and becomes stale once more than `stale_secs` have passed.
pub proof fn lemma_freshness_window(updated_at: u64, t1: u64, t2: u64, stale_secs: u64)
    requires
        t1 <= t2,
    ensures
        fresh(updated_at, t2, stale_secs) ==> fresh(updated_at, t1, stale_secs),
        t2 > updated_at + stale_secs ==> !fresh(updated_at, t2, stale_secs),
{
}

} // verus!
