use gecko_client::client::GeckoClient;
use gecko_client::errors::SimpleResponseError;

fn coins(ids: &[&str]) -> Vec<String> {
    ids.iter().map(|s| s.to_string()).collect()
}

const STUB_BODY: &str = "{\"bitcoin\":{\"usd\":50000.0}}";

const TRIO_BODY: &str = "{\
\"bitcoin\":{\"usd\":50000.0,\"ils\":180000.0,\"eur\":46000.0},\
\"ethereum\":{\"usd\":4000.0,\"ils\":14400.0,\"eur\":3700.0},\
\"cosmos\":{\"usd\":30.0,\"ils\":108.0,\"eur\":27.5}}";

#[test]
fn test_ping() {
    let client = GeckoClient::new();

    let response = client.ping("{\"gecko_says\":\"(V3) To the Moon!\"}");
    println!("Ping worked, the answer is: {:?}", response)
}

#[test]
fn test_ping_decoded_pairs() {
    let client = GeckoClient::new();
    let response = client.ping("{\"gecko_says\":\"(V3) To the Moon!\"}").unwrap();
    assert_eq!(
        response,
        vec![("gecko_says".to_string(), "(V3) To the Moon!".to_string())]
    );
}

#[test]
fn test_ping_bad_body() {
    let client = GeckoClient::new();
    let response = client.ping("not json at all");
    assert!(matches!(
        response,
        Err(SimpleResponseError::DeserializationError(_))
    ));
}

#[test]
fn test_gecko_client_simple_price() {
    let client = GeckoClient::new();
    let _response = match client.get_simple_prices(&coins(&["bitcoin"]), &coins(&["usd"]), STUB_BODY)
    {
        Ok(ans) => println!("The prices of of the supplied coins are: {:?}", ans),
        Err(e) => panic!("Error: {:?}", e),
    };
}

#[test]
fn test_gecko_client_simple_prices() {
    let client = GeckoClient::new();

    if let Ok(response) = client.get_simple_prices(
        &coins(&["bitcoin", "ethereum", "cosmos"]),
        &coins(&["usd", "ils", "eur"]),
        TRIO_BODY,
    ) {
        println!("The answer is: {:?}", response)
    }
}

#[test]
fn test_gecko_client_simple_prices_coin_not_found() {
    let client = GeckoClient::new();

    if let Ok(response) = client.get_simple_prices(&coins(&[""]), &coins(&["usd"]), STUB_BODY) {
        println!("The answer is: {:?}", response)
    }
}

#[test]
fn lib_test_get_simple_prices_response_error() {
    let client = GeckoClient::new();

    let response = client
        .get_simple_prices(&coins(&["bitcoin"]), &coins(&["usd"]), STUB_BODY)
        .map_err(|e| format!("Wrong inputs: {:?}", e));
    println!("The answer is: {:?}", response)
}

#[test]
fn test_get_simple_prices_correct() {
    let client = GeckoClient::new();

    let response = client.get_simple_prices(
        &coins(&["bitcoin", "ethereum", "cosmos"]),
        &coins(&["usd", "ils", "eur"]),
        TRIO_BODY,
    );
    println!("The answer is: {:?}", response)
}

#[test]
fn test_get_simple_prices_coin_not_found() {
    let client = GeckoClient::new();

    let response = client.get_simple_prices(&coins(&[""]), &coins(&["usd"]), STUB_BODY);
    println!("The answer is: {:?}", response)
}

#[test]
fn simple_test_get_simple_prices_response_error() {
    let client = GeckoClient::new();

    let response = client
        .get_simple_prices(&coins(&["jkhg", "bitcoin"]), &coins(&["usd"]), STUB_BODY)
        .map_err(|e| format!("Wrong inputs: {:?}", e));
    println!("The answer is: {:?}", response)
}

#[test]
fn test_get_simple_prices_currency_error() {
    let client = GeckoClient::new();

    let response = client
        .get_simple_prices(&coins(&["bitcoin"]), &coins(&["dfgfd"]), STUB_BODY)
        .map_err(|e| format!("Wrong inputs: {:?}", e));
    println!("The answer is: {:?}", response)
}

#[test]
fn test_get_prices_stub_success() {
    let client = GeckoClient::new();
    let prices = client
        .get_simple_prices(&coins(&["bitcoin"]), &coins(&["usd"]), STUB_BODY)
        .unwrap();
    assert_eq!(prices.coins.len(), 1);
    let pm = prices.get(&"bitcoin".to_string()).unwrap();
    assert_eq!(pm.entries.len(), 1);
    assert_eq!(pm.get(&"usd".to_string()).unwrap(), "50000.0");
}

#[test]
fn test_get_prices_unknown_coin() {
    let client = GeckoClient::new();
    let response = client.get_simple_prices(&coins(&["dogecoin"]), &coins(&["usd"]), STUB_BODY);
    assert_eq!(
        response,
        Err(SimpleResponseError::UnknownCoinError("dogecoin".to_string()))
    );
}

#[test]
fn test_get_prices_unknown_currency() {
    let client = GeckoClient::new();
    let response = client.get_simple_prices(&coins(&["bitcoin"]), &coins(&["eur"]), STUB_BODY);
    assert_eq!(
        response,
        Err(SimpleResponseError::UnknownCurrencyError("eur".to_string()))
    );
}

#[test]
fn test_get_prices_empty_coin_list() {
    // The chosen policy: an empty identifier list is rejected up front,
    // before any request would be sent.
    let client = GeckoClient::new();
    let response = client.get_simple_prices(&coins(&[]), &coins(&["usd"]), STUB_BODY);
    assert_eq!(response, Err(SimpleResponseError::EmptyInputError));
}

#[test]
fn test_get_prices_empty_currency_list() {
    let client = GeckoClient::new();
    let response = client.get_simple_prices(&coins(&["bitcoin"]), &coins(&[]), STUB_BODY);
    assert_eq!(response, Err(SimpleResponseError::EmptyInputError));
}

#[test]
fn test_get_prices_bad_body() {
    let client = GeckoClient::new();
    let response = client.get_simple_prices(&coins(&["bitcoin"]), &coins(&["usd"]), "{broken");
    assert!(matches!(
        response,
        Err(SimpleResponseError::DeserializationError(_))
    ));
}

#[test]
fn test_get_prices_extras_passed_through() {
    // The response may hold more coins and currencies than were asked for;
    // the full map comes back unaltered.
    let client = GeckoClient::new();
    let prices = client
        .get_simple_prices(&coins(&["bitcoin"]), &coins(&["usd"]), TRIO_BODY)
        .unwrap();
    let extra = prices.get(&"ethereum".to_string()).unwrap();
    assert_eq!(extra.get(&"ils".to_string()).unwrap(), "14400.0");
}
