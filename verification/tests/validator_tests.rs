use gecko_client::errors::SimpleResponseError;
use gecko_client::simple::{SimplePrice, SimplePriceResponse, SimplePrices};

fn coins(ids: &[&str]) -> Vec<String> {
    ids.iter().map(|s| s.to_string()).collect()
}

fn price_map(pairs: &[(&str, &str)]) -> SimplePrice {
    let mut pm = SimplePrice::new();
    for (currency, price) in pairs {
        pm.insert(currency.to_string(), price.to_string());
    }
    pm
}

fn response(entries: &[(&str, &[(&str, &str)])]) -> SimplePriceResponse {
    let mut prices = SimplePrices::new();
    for (coin, pairs) in entries {
        prices.insert(coin.to_string(), price_map(pairs));
    }
    SimplePriceResponse {
        simple_response: prices,
    }
}

#[test]
fn test_validate_covering_response_succeeds() {
    // A response holding every requested coin with every requested currency
    // validates, and the map comes back with at least those entries.
    let r = response(&[
        ("bitcoin", &[("usd", "50000.0"), ("ils", "180000.0")]),
        ("ethereum", &[("usd", "4000.0"), ("ils", "14400.0")]),
    ]);
    let validated = r
        .validate_response(&coins(&["bitcoin", "ethereum"]), &coins(&["usd", "ils"]))
        .unwrap();
    assert_eq!(
        validated.get(&"bitcoin".to_string()).unwrap().get(&"usd".to_string()),
        Some(&"50000.0".to_string())
    );
    assert_eq!(
        validated.get(&"ethereum".to_string()).unwrap().get(&"ils".to_string()),
        Some(&"14400.0".to_string())
    );
}

#[test]
fn test_validate_first_missing_coin_named() {
    // Both requested coins are absent; the error names the first in the
    // order the caller supplied.
    let r = response(&[("bitcoin", &[("usd", "50000.0")])]);
    let outcome = r.validate_response(&coins(&["dogecoin", "solana"]), &coins(&["usd"]));
    assert_eq!(
        outcome,
        Err(SimpleResponseError::UnknownCoinError("dogecoin".to_string()))
    );
}

#[test]
fn test_validate_first_missing_currency_named() {
    // The first missing currency of the first failing coin is named.
    let r = response(&[("bitcoin", &[("usd", "50000.0")])]);
    let outcome = r.validate_response(&coins(&["bitcoin"]), &coins(&["usd", "eur", "ils"]));
    assert_eq!(
        outcome,
        Err(SimpleResponseError::UnknownCurrencyError("eur".to_string()))
    );
}

#[test]
fn test_validate_currency_failure_preempts_later_coins() {
    // The first coin lacks a currency, and a later coin is missing
    // entirely; the earlier failure is the one reported, so the later
    // coin's presence was never examined.
    let r = response(&[("bitcoin", &[("usd", "50000.0")])]);
    let outcome = r.validate_response(&coins(&["bitcoin", "dogecoin"]), &coins(&["eur"]));
    assert_eq!(
        outcome,
        Err(SimpleResponseError::UnknownCurrencyError("eur".to_string()))
    );
}

#[test]
fn test_validate_twice_same_outcome() {
    // Validation is a pure function of its inputs: the same response and
    // lists give the same outcome, and the response itself is not altered.
    let r = response(&[("bitcoin", &[("usd", "50000.0")])]);
    let c = coins(&["bitcoin"]);
    let x = coins(&["usd"]);
    let first = r.validate_response(&c, &x);
    let second = r.validate_response(&c, &x);
    assert_eq!(first, second);
    assert_eq!(
        r.simple_response.get(&"bitcoin".to_string()).unwrap().get(&"usd".to_string()),
        Some(&"50000.0".to_string())
    );

    let bad_c = coins(&["dogecoin"]);
    let first_err = r.validate_response(&bad_c, &x);
    let second_err = r.validate_response(&bad_c, &x);
    assert_eq!(first_err, second_err);
}

#[test]
fn test_validate_empty_request_vacuously_valid() {
    // The validator itself treats an empty coin list as vacuously
    // satisfied; rejecting empty input is the facade's job.
    let r = response(&[("bitcoin", &[("usd", "50000.0")])]);
    let validated = r.validate_response(&coins(&[]), &coins(&["usd"])).unwrap();
    assert!(validated.contains_key(&"bitcoin".to_string()));
}

#[test]
fn test_validate_extras_kept() {
    // Coins and currencies beyond what was requested are passed through.
    let r = response(&[
        ("bitcoin", &[("usd", "50000.0"), ("eur", "46000.0")]),
        ("cosmos", &[("usd", "30.0")]),
    ]);
    let validated = r.validate_response(&coins(&["bitcoin"]), &coins(&["usd"])).unwrap();
    assert!(validated.contains_key(&"cosmos".to_string()));
    assert_eq!(
        validated.get(&"bitcoin".to_string()).unwrap().get(&"eur".to_string()),
        Some(&"46000.0".to_string())
    );
}

#[test]
fn test_insert_replaces_existing_key() {
    let mut pm = SimplePrice::new();
    pm.insert("usd".to_string(), "1.0".to_string());
    pm.insert("usd".to_string(), "2.0".to_string());
    assert_eq!(pm.get(&"usd".to_string()), Some(&"2.0".to_string()));
    assert_eq!(pm.entries.len(), 1);
}

#[test]
fn test_contains_key_absent() {
    let prices = SimplePrices::new();
    assert!(!prices.contains_key(&"bitcoin".to_string()));
}
