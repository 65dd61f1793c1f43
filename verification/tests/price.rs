use holdcrypt::errors::{Field, InputError, PriceError, RefreshError};
use holdcrypt::price::{
    ask_prices, first_failure, market_query, refresh_entry, reply_prices, validate_coins,
    MarketReply, RefreshReport,
};
use holdcrypt::types::{BinancePrices, CoinPutRequest, PriceEntry};

fn book(asks: &[&[&str]]) -> BinancePrices {
    BinancePrices {
        last_update_id: 1,
        bids: vec![],
        asks: asks
            .iter()
            .map(|ask| ask.iter().map(|text| text.to_string()).collect())
            .collect(),
    }
}

fn coin(name: &str, symbol: &str) -> CoinPutRequest {
    CoinPutRequest { name: name.to_string(), symbol: symbol.to_string() }
}

/// The mean as the service takes it: the sum in the order of the asks,
/// divided by their number.
fn mean(prices: &[String]) -> f64 {
    let mut sum = 0f64;
    for price in prices {
        sum += price.parse::<f64>().unwrap();
    }
    sum / prices.len() as f64
}

#[test]
fn average_of_three_asks_is_their_mean() {
    let asks = book(&[&["100.0", "1"], &["200.0", "1"], &["300.0", "1"]]);
    let prices = ask_prices(&asks).unwrap();
    assert_eq!(prices, vec!["100.0", "200.0", "300.0"]);
    assert_eq!(mean(&prices), 200.0);
}

#[test]
fn average_of_an_empty_book_is_an_error() {
    assert_eq!(ask_prices(&book(&[])), Err(PriceError::EmptyBook));
}

#[test]
fn average_below_the_hundred_millionth_is_not_rounded() {
    let asks = book(&[&["0.00000001", "1"], &["0.00000002", "1"]]);
    let prices = ask_prices(&asks).unwrap();
    assert_eq!(mean(&prices), (0.00000001 + 0.00000002) / 2.0);
}

#[test]
fn prices_of_any_size_and_form_are_taken() {
    let asks = book(&[&["0.123456789", "1"], &["1e3", "1"], &["92233720369", "1"]]);
    assert_eq!(
        ask_prices(&asks),
        Ok(vec!["0.123456789".to_string(), "1e3".to_string(), "92233720369".to_string()])
    );
}

#[test]
fn volumes_and_bids_do_not_count() {
    let mut asks = book(&[&["1", "1000"], &["3", "junk"], &["5"]]);
    asks.bids = vec![vec!["junk".to_string()], vec![]];
    let prices = ask_prices(&asks).unwrap();
    assert_eq!(prices, vec!["1", "3", "5"]);
    assert_eq!(mean(&prices), 3.0);
}

#[test]
fn ask_without_a_price_is_refused() {
    assert_eq!(ask_prices(&book(&[&["-5", "1"]])), Err(PriceError::MalformedEntry));
    assert_eq!(ask_prices(&book(&[&["inf", "1"]])), Err(PriceError::MalformedEntry));
    assert_eq!(ask_prices(&book(&[&["1", "1"], &["NaN", "1"]])), Err(PriceError::MalformedEntry));
    assert_eq!(ask_prices(&book(&[&["-0", "1"]])), Ok(vec!["-0".to_string()]));
    assert_eq!(ask_prices(&book(&[&["1", "1"], &[]])), Err(PriceError::MalformedEntry));
    assert_eq!(ask_prices(&book(&[&["abc", "1"]])), Err(PriceError::MalformedEntry));
    assert_eq!(
        ask_prices(&book(&[&["1", "1"], &["2", "1"], &["", "1"]])),
        Err(PriceError::MalformedEntry)
    );
}

#[test]
fn market_query_asks_for_fifty_asks_of_the_symbol() {
    let query = market_query("ETHAUD");
    assert_eq!(query.url, "https://api.binance.com/api/v3/depth");
    assert_eq!(
        query.params,
        vec![
            ("symbol".to_string(), "ETHAUD".to_string()),
            ("limit".to_string(), "50".to_string())
        ]
    );
}

#[test]
fn reply_of_the_market_gives_prices_or_the_failure() {
    let reply = MarketReply::Book(book(&[&["4500.5", "2"], &["4501.5", "1"]]));
    assert_eq!(reply_prices(&reply), Ok(vec!["4500.5".to_string(), "4501.5".to_string()]));
    let down = MarketReply::Unavailable("connection refused".to_string());
    assert_eq!(
        reply_prices(&down),
        Err(RefreshError::MarketUnavailable("connection refused".to_string()))
    );
    let unreadable = MarketReply::Unreadable("expected value at line 1".to_string());
    assert_eq!(
        reply_prices(&unreadable),
        Err(RefreshError::MarketUnreadable("expected value at line 1".to_string()))
    );
    assert_eq!(
        reply_prices(&MarketReply::Book(book(&[]))),
        Err(RefreshError::PriceError(PriceError::EmptyBook))
    );
    assert_eq!(
        reply_prices(&MarketReply::Book(book(&[&["x"]]))),
        Err(RefreshError::PriceError(PriceError::MalformedEntry))
    );
}

#[test]
fn refresh_entry_carries_name_symbol_and_mean() {
    let reply = MarketReply::Book(book(&[&["4500.5", "2"], &["4501.5", "1"]]));
    let average = mean(&reply_prices(&reply).unwrap());
    let entry = refresh_entry(&coin("Ethereum", "ETHAUD"), Some(&average.to_string())).unwrap();
    assert_eq!(
        entry,
        PriceEntry {
            symbol: "ETHAUD".to_string(),
            name: "Ethereum".to_string(),
            price: "4501".to_string()
        }
    );
}

#[test]
fn refresh_entry_without_a_mean_is_a_malformed_entry() {
    assert_eq!(
        refresh_entry(&coin("Ethereum", "ETHAUD"), None),
        Err(RefreshError::PriceError(PriceError::MalformedEntry))
    );
    for mean in ["about five", "inf", "NaN", "-inf", "-1", "infinity", ""] {
        assert_eq!(
            refresh_entry(&coin("Ethereum", "ETHAUD"), Some(mean)),
            Err(RefreshError::PriceError(PriceError::MalformedEntry)),
            "mean {:?}",
            mean
        );
    }
    let overflowed = (1e308_f64 + 1e308) / 2.0;
    assert_eq!(
        refresh_entry(&coin("Ethereum", "ETHAUD"), Some(&overflowed.to_string())),
        Err(RefreshError::PriceError(PriceError::MalformedEntry))
    );
}

#[test]
fn coin_without_a_symbol_is_refused() {
    assert_eq!(validate_coins(&vec![coin("Ethereum", "ETHAUD"), coin("Bitcoin", "BTCAUD")]), Ok(()));
    assert_eq!(validate_coins(&vec![]), Ok(()));
    assert_eq!(
        validate_coins(&vec![coin("Ethereum", "ETHAUD"), coin("", "")]),
        Err(InputError::EmptyField(Field::Symbol))
    );
    assert_eq!(validate_coins(&vec![coin("", "X")]), Ok(()));
}

#[test]
fn first_failure_is_the_first_in_order() {
    let ok = |symbol: &str| RefreshReport {
        symbol: symbol.to_string(),
        outcome: Ok(PriceEntry {
            symbol: symbol.to_string(),
            name: symbol.to_string(),
            price: "1".to_string(),
        }),
    };
    let failed = |symbol: &str| RefreshReport {
        symbol: symbol.to_string(),
        outcome: Err(RefreshError::MarketUnavailable("timeout".to_string())),
    };
    assert_eq!(first_failure(&vec![ok("A"), failed("B"), ok("C"), failed("D")]), Some(1));
    assert_eq!(first_failure(&vec![ok("A"), ok("C")]), None);
    assert_eq!(first_failure(&vec![]), None);
    assert_eq!(first_failure(&vec![failed("A")]), Some(0));
}
