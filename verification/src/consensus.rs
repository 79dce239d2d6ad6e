//! Terra chain consensus rates: the legacy fiat denom registry, the custom
//! `exchange_rates` query shapes and the cross-rate lookup.

use vstd::prelude::*;
use crate::types::{str_eq, Coin};
use crate::math::{parse_decimal, decimal_from_str};

verus! {

/// Chain denom of the native LUNC token (buyback target).
pub const LUNC_DENOM: &'static str = "uluna";

/// Micro-units per unit for all legacy terra denoms.
pub const MICRO: u128 = 1_000_000u128;

/// The legacy fiat-pegged native denoms of the Terra Classic chain.
pub open spec fn legacy_forex_denoms_spec() -> Seq<Seq<char>> {
    seq![
        "uusd"@, "ueur"@, "ukrw"@, "ugbp"@, "ujpy"@, "ucny"@, "umnt"@, "uchf"@, "ucad"@,
        "uaud"@, "usdr"@, "udkk"@, "unok"@, "usek"@, "usgd"@, "uhkd"@, "umyr"@, "uphp"@,
        "uinr"@, "uthb"@,
    ]
}

/// The legacy fiat denom registry, in registry order.
pub fn legacy_forex_denoms() -> (r: Vec<&'static str>)
    ensures
        r@.len() == legacy_forex_denoms_spec().len(),
        forall|i: int| 0 <= i < r@.len() ==> #[trigger] r@[i]@ == legacy_forex_denoms_spec()[i],
{
    let r: Vec<&'static str> = vec![
        "uusd", "ueur", "ukrw", "ugbp", "ujpy", "ucny", "umnt", "uchf", "ucad", "uaud", "usdr",
        "udkk", "unok", "usek", "usgd", "uhkd", "umyr", "uphp", "uinr", "uthb",
    ];
    r
}

/// Whether a denom is part of the legacy fiat family (convertible through
/// the legacy bridge).
pub fn is_legacy_forex_denom(denom: &str) -> (r: bool)
    ensures
        r == legacy_forex_denoms_spec().contains(denom@),
{
    let list = legacy_forex_denoms();
    let n = list.len();
    let mut i: usize = 0;
    while i < n
        invariant
            n == list@.len(),
            n == legacy_forex_denoms_spec().len(),
            0 <= i <= n,
            forall|j: int| 0 <= j < list@.len() ==> #[trigger] list@[j]@ == legacy_forex_denoms_spec()[j],
            forall|j: int| 0 <= j < i ==> legacy_forex_denoms_spec()[j] != denom@,
        decreases n - i,
    {
        if str_eq(list[i], denom) {
            assert(legacy_forex_denoms_spec()[i as int] == denom@);
            return true;
        }
        i = i + 1;
    }
    assert(!legacy_forex_denoms_spec().contains(denom@)) by {
        if legacy_forex_denoms_spec().contains(denom@) {
            let k = choose|k: int| 0 <= k < legacy_forex_denoms_spec().len()
                && legacy_forex_denoms_spec()[k] == denom@;
            assert(legacy_forex_denoms_spec()[k] != denom@);
        }
    }
    false
}

/// The legacy registry holds exactly these twenty denoms, matched as whole
/// strings.
pub proof fn lemma_legacy_registry(d: Seq<char>)
    ensures
        legacy_forex_denoms_spec().contains(d) <==> (d == "uusd"@ || d == "ueur"@ || d == "ukrw"@
            || d == "ugbp"@ || d == "ujpy"@ || d == "ucny"@ || d == "umnt"@ || d == "uchf"@ || d
            == "ucad"@ || d == "uaud"@ || d == "usdr"@ || d == "udkk"@ || d == "unok"@ || d
            == "usek"@ || d == "usgd"@ || d == "uhkd"@ || d == "umyr"@ || d == "uphp"@ || d
            == "uinr"@ || d == "uthb"@),
{
    let r = legacy_forex_denoms_spec();
    assert(r.len() == 20);
    assert(r[0] == "uusd"@ && r[1] == "ueur"@ && r[2] == "ukrw"@ && r[3] == "ugbp"@ && r[4] == "ujpy"@
        && r[5] == "ucny"@ && r[6] == "umnt"@ && r[7] == "uchf"@ && r[8] == "ucad"@ && r[9] == "uaud"@
        && r[10] == "usdr"@ && r[11] == "udkk"@ && r[12] == "unok"@ && r[13] == "usek"@ && r[14]
        == "usgd"@ && r[15] == "uhkd"@ && r[16] == "umyr"@ && r[17] == "uphp"@ && r[18] == "uinr"@
        && r[19] == "uthb"@);
    if r.contains(d) {
        let k = choose|k: int| 0 <= k < r.len() && r[k] == d;
        assert(0 <= k < 20);
    }
}

/// Terra custom query envelope: cross exchange rates `quote/base` computed
/// by the chain from the oracle ballots.
#[derive(Clone, Debug, PartialEq, Eq)]
pub enum TerraQuery {
    ExchangeRates { base_denom: String, quote_denoms: Vec<String> },
}

/// Custom-query wrapper used by contracts on terra-classic chains.
#[derive(Clone, Debug, PartialEq, Eq)]
pub enum TerraQueryWrapper {
    Terra { terra: TerraQuery },
}

/// One rate of an `exchange_rates` answer.
#[derive(Clone, Debug, PartialEq, Eq)]
pub struct ExchangeRateItem {
    /// Decimal string, e.g. "1.092500000000000000".
    pub exchange_rate: String,
    pub quote_denom: String,
}

/// An `exchange_rates` answer.
#[derive(Clone, Debug, PartialEq, Eq)]
pub struct ExchangeRatesQueryResponse {
    pub exchange_rates: Vec<ExchangeRateItem>,
    pub base_denom: String,
}

/// The first item of `items` quoting `quote`, if any.
pub open spec fn first_quote(items: Seq<ExchangeRateItem>, quote: Seq<char>) -> Option<
    ExchangeRateItem,
>
    decreases items.len(),
{
    if items.len() == 0 {
        None
    } else if items[0].quote_denom@ == quote {
        Some(items[0])
    } else {
        first_quote(items.drop_first(), quote)
    }
}

/// The cross rate a consensus answer gives for `quote`: the decimal of the
/// first matching item, as 18-decimal atomics.
pub open spec fn cross_rate_spec(items: Seq<ExchangeRateItem>, quote: Seq<char>) -> Option<u128> {
    match first_quote(items, quote) {
        Some(item) => decimal_from_str(item.exchange_rate@),
        None => None,
    }
}

/// Cross rate for `quote_denom` from a consensus answer, in 18-decimal
/// atomics. `None` when the quote is absent (failed ballot) or its rate text
/// does not parse.
pub fn cross_rate(resp: &ExchangeRatesQueryResponse, quote_denom: &str) -> (r: Option<u128>)
    ensures
        r == cross_rate_spec(resp.exchange_rates@, quote_denom@),
{
    let items = &resp.exchange_rates;
    let n = items.len();
    let mut i: usize = 0;
    assert(items@.skip(0) =~= items@);
    while i < n
        invariant
            n == items@.len(),
            items@ == resp.exchange_rates@,
            0 <= i <= n,
            first_quote(items@, quote_denom@) == first_quote(items@.skip(i as int), quote_denom@),
        decreases n - i,
    {
        assert(items@.skip(i as int).drop_first() =~= items@.skip(i + 1));
        assert(items@.skip(i as int)[0] == items@[i as int]);
        if str_eq(items[i].quote_denom.as_str(), quote_denom) {
            assert(first_quote(items@.skip(i as int), quote_denom@) == Some(items@[i as int]));
            return parse_decimal(items[i].exchange_rate.as_str());
        }
        i = i + 1;
    }
    assert(items@.skip(n as int).len() == 0);
    None
}

/// The custom query asking the chain for the `quote_denom / base_denom`
/// cross rate.
pub fn consensus_cross_rate_query(base_denom: &str, quote_denom: &str) -> (r: TerraQueryWrapper)
    ensures
        r matches TerraQueryWrapper::Terra {
            terra: TerraQuery::ExchangeRates { base_denom: b, quote_denoms: q },
        } && b@ == base_denom@ && q@.len() == 1 && q@[0]@ == quote_denom@,
{
    let mut quotes: Vec<String> = Vec::new();
    quotes.push(quote_denom.to_string());
    TerraQueryWrapper::Terra {
        terra: TerraQuery::ExchangeRates { base_denom: base_denom.to_string(), quote_denoms: quotes },
    }
}

/// A native coin of a legacy denom, in micro-units.
pub fn legacy_coin(denom: &str, amount_micro: u128) -> (r: Coin)
    ensures
        r.denom@ == denom@,
        r.amount == amount_micro,
{
    Coin { denom: denom.to_string(), amount: amount_micro }
}

} // verus!
