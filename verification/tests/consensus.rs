//! Consensus rate lookup and the legacy denom registry.

use csm::consensus::{cross_rate, is_legacy_forex_denom, ExchangeRateItem, ExchangeRatesQueryResponse};

#[test]
fn parses_cross_rate() {
    let resp = ExchangeRatesQueryResponse {
        base_denom: "ueur".to_string(),
        exchange_rates: vec![ExchangeRateItem {
            quote_denom: "uusd".to_string(),
            exchange_rate: "1.0925".to_string(),
        }],
    };
    let atomics = cross_rate(&resp, "uusd").expect("rate present");
    // 18-decimal atomics for 1.0925
    assert_eq!(atomics.to_string(), "1092500000000000000");
}

#[test]
fn missing_quote_is_none() {
    let resp = ExchangeRatesQueryResponse { base_denom: "ueur".to_string(), exchange_rates: vec![] };
    assert!(cross_rate(&resp, "uusd").is_none());
}

#[test]
fn legacy_denom_registry() {
    assert!(is_legacy_forex_denom("ueur"));
    assert!(!is_legacy_forex_denom("uluna"));
    assert!(!is_legacy_forex_denom("ibc/ABC"));
}
