use holdcrypt::errors::{
    AggregationError, AppendError, DecodeError, Field, InputError, PriceError, RefreshError,
    StatusClass,
};
use holdcrypt::greetings::{greeting, hello_message};
use holdcrypt::handlers::{
    aggregation_error_response, append_response, body_text, decode_error_response,
    input_error_response, put_user_response, refresh_error_response, refresh_response,
    RequestBody,
};
use holdcrypt::price::RefreshReport;
use holdcrypt::requests::{
    append_request, conclude_append, conclude_refresh, entry_item, new_transaction,
    put_coin_request, put_user_request, record_item, StoreReply,
};
use holdcrypt::store::{decode_entry, decode_record, AttributeValue};
use holdcrypt::text::{owned, str_eq};
use holdcrypt::types::{is_default, is_default_text, PriceEntry, Transaction, UserPutRequest};

fn record() -> Transaction {
    Transaction {
        username: "testuser".to_string(),
        coin: "Ethereum".to_string(),
        amount: "10.1".to_string(),
        price: "12.5".to_string(),
    }
}

#[test]
fn new_transaction_reads_the_fields() {
    assert_eq!(new_transaction("testuser", "Ethereum", "10.1", "12.5"), Ok(record()));
    assert_eq!(
        new_transaction("u", "c", "0.30000000000000004", "1e3").unwrap().amount,
        "0.30000000000000004"
    );
    assert_eq!(
        new_transaction("", "Ethereum", "1", "1"),
        Err(InputError::EmptyField(Field::Username))
    );
    assert_eq!(new_transaction("u", "", "x", "1"), Err(InputError::EmptyField(Field::Coin)));
    assert_eq!(
        new_transaction("u", "c", "ten", "1"),
        Err(InputError::MalformedNumber(Field::Amount))
    );
    assert_eq!(
        new_transaction("u", "c", "1", ""),
        Err(InputError::MalformedNumber(Field::Price))
    );
    assert_eq!(
        new_transaction("u", "c", "NaN", "1"),
        Err(InputError::MalformedNumber(Field::Amount))
    );
    assert_eq!(
        new_transaction("u", "c", "1", "inf"),
        Err(InputError::MalformedNumber(Field::Price))
    );
    assert!(new_transaction("u", "c", "-1.5", "-2").is_ok());
}

#[test]
fn record_is_stored_as_coin_amount_and_price() {
    assert_eq!(
        record_item(&record()),
        vec![
            ("coin".to_string(), AttributeValue::S("Ethereum".to_string())),
            ("amount".to_string(), AttributeValue::N("10.1".to_string())),
            ("price".to_string(), AttributeValue::N("12.5".to_string())),
        ]
    );
}

#[test]
fn stored_record_reads_back_as_the_record() {
    let stored = AttributeValue::M(record_item(&record()));
    assert_eq!(decode_record(&stored, "testuser"), Ok(record()));
    let extreme = Transaction {
        amount: "-5.551115123125783e-17".to_string(),
        price: "1e300".to_string(),
        ..record()
    };
    let stored = AttributeValue::M(record_item(&extreme));
    assert_eq!(decode_record(&stored, "testuser"), Ok(extreme));
}

#[test]
fn stored_entry_reads_back_as_the_entry() {
    let entry = PriceEntry {
        symbol: "ETHAUD".to_string(),
        name: "Ethereum".to_string(),
        price: "4500.5".to_string(),
    };
    assert_eq!(decode_entry(&entry_item(&entry)), Ok(entry.clone()));
    let request = put_coin_request(&entry);
    assert_eq!(request.table_name, "coin");
    assert_eq!(
        request.item,
        vec![
            ("name".to_string(), AttributeValue::S("Ethereum".to_string())),
            ("symbol".to_string(), AttributeValue::S("ETHAUD".to_string())),
            ("price".to_string(), AttributeValue::N("4500.5".to_string())),
        ]
    );
}

#[test]
fn append_is_conditional_on_the_owner() {
    let request = append_request(&record()).unwrap();
    assert_eq!(request.table_name, "user");
    assert_eq!(
        request.key,
        ("username".to_string(), AttributeValue::S("testuser".to_string()))
    );
    assert_eq!(request.condition_expression, Some("username = :username".to_string()));
    assert_eq!(
        request.update_expression,
        "set transactions = list_append(if_not_exists(transactions, :trans), :trans)"
    );
    assert_eq!(
        request.expression_attribute_values,
        vec![
            (
                ":trans".to_string(),
                AttributeValue::L(vec![AttributeValue::M(record_item(&record()))])
            ),
            (":username".to_string(), AttributeValue::S("testuser".to_string())),
        ]
    );
}

#[test]
fn append_without_username_or_coin_is_not_sent() {
    let nameless = Transaction { username: String::new(), ..record() };
    assert_eq!(append_request(&nameless), Err(InputError::EmptyField(Field::Username)));
    let coinless = Transaction { coin: String::new(), ..record() };
    assert_eq!(append_request(&coinless), Err(InputError::EmptyField(Field::Coin)));
    let neither = Transaction { username: String::new(), coin: String::new(), ..record() };
    assert_eq!(append_request(&neither), Err(InputError::EmptyField(Field::Username)));
}

#[test]
fn store_answer_to_an_append_is_read() {
    assert_eq!(conclude_append(&StoreReply::Done), Ok(()));
    assert_eq!(conclude_append(&StoreReply::ConditionFailed), Err(AppendError::OwnerNotFound));
    assert_eq!(
        conclude_append(&StoreReply::Unavailable("throttled".to_string())),
        Err(AppendError::StoreUnavailable("throttled".to_string()))
    );
    assert_eq!(AppendError::OwnerNotFound.class(), StatusClass::Client);
    assert_eq!(AppendError::StoreUnavailable(String::new()).class(), StatusClass::Server);
    assert_eq!(StatusClass::Success.code(), 200);
    assert_eq!(StatusClass::Client.code(), 400);
    assert_eq!(StatusClass::Server.code(), 500);
}

#[test]
fn put_user_leaves_an_existing_ledger_alone() {
    let user = UserPutRequest {
        username: "testuser".to_string(),
        first_name: "test".to_string(),
        last_name: "user".to_string(),
    };
    let request = put_user_request(&user).unwrap();
    assert_eq!(request.table_name, "user");
    assert_eq!(request.condition_expression, None);
    assert!(request.update_expression.contains("if_not_exists(transactions, :none)"));
    assert_eq!(
        request.expression_attribute_values,
        vec![
            (":first_name".to_string(), AttributeValue::S("test".to_string())),
            (":last_name".to_string(), AttributeValue::S("user".to_string())),
            (":none".to_string(), AttributeValue::L(vec![])),
        ]
    );
    let nameless = UserPutRequest { username: String::new(), ..user };
    assert_eq!(put_user_request(&nameless), Err(InputError::EmptyField(Field::Username)));
}

#[test]
fn store_answer_to_a_refresh_is_read() {
    let entry = PriceEntry {
        symbol: "ETH".to_string(),
        name: "Ethereum".to_string(),
        price: "5".to_string(),
    };
    assert_eq!(conclude_refresh(entry.clone(), &StoreReply::Done), Ok(entry.clone()));
    assert_eq!(
        conclude_refresh(entry.clone(), &StoreReply::Unavailable("down".to_string())),
        Err(RefreshError::StoreWrite("down".to_string()))
    );
    assert!(matches!(
        conclude_refresh(entry, &StoreReply::ConditionFailed),
        Err(RefreshError::StoreWrite(_))
    ));
}

#[test]
fn body_must_be_text() {
    assert_eq!(body_text(&RequestBody::Text("{}".to_string())), Ok("{}"));
    assert_eq!(body_text(&RequestBody::Empty), Err(InputError::NoBody));
    assert_eq!(body_text(&RequestBody::Binary(vec![1, 2])), Err(InputError::BinaryBody));
}

#[test]
fn input_errors_are_the_callers() {
    let res = input_error_response(InputError::NoBody);
    assert_eq!(res.status(), 400);
    assert_eq!(res.message(), "no body provided");
    assert_eq!(input_error_response(InputError::BinaryBody).message(), "binary body not supported");
    assert_eq!(
        input_error_response(InputError::EmptyField(Field::Username)).message(),
        "username must not be empty"
    );
    assert_eq!(
        input_error_response(InputError::MalformedNumber(Field::Amount)).message(),
        "amount is not a number"
    );
}

#[test]
fn append_is_reported_by_class() {
    let done = append_response(&Ok(()));
    assert_eq!(done.status(), 200);
    assert_eq!(done.message(), "successfully added transaction");
    assert_eq!(
        done.into_response().body,
        "{\"message\":\"successfully added transaction\"}"
    );
    let missing = append_response(&Err(AppendError::OwnerNotFound));
    assert_eq!(missing.status(), 400);
    let failed = append_response(&Err(AppendError::StoreUnavailable("throttled".to_string())));
    assert_eq!(failed.status(), 500);
    assert_eq!(failed.message(), "failed to add transaction to dynamodb");
    assert_eq!(failed.error(), "throttled");
}

#[test]
fn put_user_is_reported() {
    let done = put_user_response(&StoreReply::Done);
    assert_eq!(done.status(), 200);
    assert_eq!(done.message(), "successfully added user");
    let failed = put_user_response(&StoreReply::Unavailable("down".to_string()));
    assert_eq!(failed.status(), 500);
    assert_eq!(failed.message(), "failed to add user to dynamodb");
    assert_eq!(failed.error(), "down");
    assert_eq!(put_user_response(&StoreReply::ConditionFailed).status(), 500);
}

#[test]
fn failed_refresh_names_the_symbol() {
    let res = refresh_error_response("ETHAUD", &RefreshError::MarketUnavailable("timeout".to_string()));
    assert_eq!(res.status(), 500);
    assert_eq!(res.message(), "failed to get prices from Binance");
    assert_eq!(res.error(), "ETHAUD: timeout");
    let res = refresh_error_response("ETHAUD", &RefreshError::PriceError(PriceError::EmptyBook));
    assert_eq!(res.message(), "failed to parse prices from Binance");
    assert_eq!(res.error(), "ETHAUD: the order book has no asks");
    let res = refresh_error_response("", &RefreshError::PriceError(PriceError::MalformedEntry));
    assert_eq!(res.error(), ": an ask of the order book has no price that can be read");
    let res = refresh_error_response("BTC", &RefreshError::MarketUnreadable("eof".to_string()));
    assert_eq!(res.status(), 500);
    assert_eq!(res.message(), "failed to parse prices from Binance");
    assert_eq!(res.error(), "BTC: eof");
    let res = refresh_error_response("BTC", &RefreshError::StoreWrite("denied".to_string()));
    assert_eq!(res.message(), "failed to add coin to dynamodb");
    assert_eq!(res.error(), "BTC: denied");
}

#[test]
fn failed_valuation_is_reported_by_class() {
    assert_eq!(aggregation_error_response(&AggregationError::UnknownUser).status(), 400);
    let res = aggregation_error_response(&AggregationError::Decode(DecodeError::NoItems));
    assert_eq!(res.status(), 500);
    assert_eq!(res.message(), "failed to parse dynamodb response");
    assert_eq!(res.error(), "no users in table");
    let res = aggregation_error_response(&AggregationError::Snapshot(DecodeError::NoItems));
    assert_eq!(res.status(), 500);
    assert_eq!(res.error(), "no coins in table");
    let res = aggregation_error_response(&AggregationError::Snapshot(DecodeError::WrongType(
        Field::Price,
    )));
    assert_eq!(res.error(), "price not of type number");
    let res = aggregation_error_response(&AggregationError::PartialFailure {
        username: "bob".to_string(),
        cause: DecodeError::MissingKey(Field::Amount),
    });
    assert_eq!(res.status(), 500);
    assert_eq!(res.error(), "bob: amount key doesn't exist");
    let res = decode_error_response(DecodeError::WrongType(Field::Name));
    assert_eq!(res.status(), 500);
    assert_eq!(res.message(), "failed to scan result from dynamodb");
    assert_eq!(res.error(), "name type incorrect");
}

#[test]
fn decode_errors_say_what_is_wrong() {
    assert_eq!(DecodeError::NotARecord.message(), "transaction is not a map");
    assert_eq!(DecodeError::NotARecord.user_message(), "trans_map type incorrect");
    assert_eq!(
        DecodeError::WrongType(Field::FirstName).user_message(),
        "first_name not of type string"
    );
    assert_eq!(
        DecodeError::WrongType(Field::Transactions).user_message(),
        "transactions type incorrect"
    );
    assert_eq!(
        DecodeError::WrongType(Field::Amount).user_message(),
        "amount not of type number"
    );
    assert_eq!(
        DecodeError::MissingKey(Field::Coin).user_message(),
        "coin key doesn't exist"
    );
    assert_eq!(DecodeError::MalformedNumber(Field::Amount).user_message(), "invalid float literal");
    assert_eq!(
        DecodeError::MalformedNumber(Field::Price).message(),
        "price is not a number"
    );
    assert_eq!(Field::FirstName.key(), "first_name");
    assert_eq!(Field::LastName.key(), "last_name");
    assert_eq!(Field::Transactions.key(), "transactions");
    assert_eq!(Field::Symbol.key(), "symbol");
}

#[test]
fn batch_of_refreshes_is_reported_by_its_first_failure() {
    let ok = |symbol: &str| RefreshReport {
        symbol: symbol.to_string(),
        outcome: Ok(PriceEntry {
            symbol: symbol.to_string(),
            name: symbol.to_string(),
            price: "1".to_string(),
        }),
    };
    let failed = |symbol: &str, cause: &str| RefreshReport {
        symbol: symbol.to_string(),
        outcome: Err(RefreshError::MarketUnavailable(cause.to_string())),
    };
    let res = refresh_response(&vec![ok("BTC"), ok("ETH")], "{\"BTC\":1}");
    assert_eq!(res.status(), 200);
    assert_eq!(res.body(), "{\"BTC\":1}");
    let res = refresh_response(
        &vec![ok("BTC"), failed("BRK", "timeout"), failed("ETH", "refused")],
        "{}",
    );
    assert_eq!(res.status(), 500);
    assert_eq!(res.message(), "failed to get prices from Binance");
    assert_eq!(res.error(), "BRK: timeout");
    assert_eq!(refresh_response(&vec![], "{}").status(), 200);
}

#[test]
fn is_default_text_tells_the_empty_text() {
    assert!(is_default_text(&String::new()));
    assert!(!is_default_text(&"x".to_string()));
}

#[test]
fn is_default_tells_the_default_of_a_type() {
    assert!(is_default(&0u64));
    assert!(!is_default(&7u64));
    assert!(is_default(&String::new()));
    assert!(!is_default(&"x".to_string()));
    assert!(is_default(&false));
    assert!(is_default(&Vec::<u8>::new()));
}

#[test]
fn greetings_greet_by_name() {
    assert_eq!(greeting(Some("bill")), Ok("wow nice hello bill cool one".to_string()));
    assert_eq!(greeting(Some("")), Ok("wow nice hello  cool one".to_string()));
    assert_eq!(greeting(None), Err("stranger"));
    assert_eq!(hello_message(Some("bill")), "Hello, bill!");
    assert_eq!(hello_message(None), "Hello, world!");
}

#[test]
fn strings_are_compared_by_content() {
    assert!(str_eq("", ""));
    assert!(str_eq("symbol", "symbol"));
    assert!(!str_eq("symbol", "symbo1"));
    assert!(!str_eq("a", "ab"));
    assert!(str_eq("ü", "ü"));
    assert!(!str_eq("ü", "u"));
    assert_eq!(owned("abc"), "abc");
}
