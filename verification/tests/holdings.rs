use holdcrypt::errors::{AggregationError, AppendError, Field, InputError};
use holdcrypt::holdings::{aggregate, find_position, group_by_coin, Group, Position};
use holdcrypt::ledger::UserTable;
use holdcrypt::portfolio::{compute_holdings, ledger_groups};
use holdcrypt::snapshot::PriceSnapshot;
use holdcrypt::types::{Coin, CoinPrice, PriceEntry, Transaction, UserPutRequest};

fn record(username: &str, coin: &str, amount: &str) -> Transaction {
    Transaction {
        username: username.to_string(),
        coin: coin.to_string(),
        amount: amount.to_string(),
        price: "1".to_string(),
    }
}

fn entry(symbol: &str, name: &str, price: &str) -> PriceEntry {
    PriceEntry { symbol: symbol.to_string(), name: name.to_string(), price: price.to_string() }
}

fn user(username: &str) -> UserPutRequest {
    UserPutRequest {
        username: username.to_string(),
        first_name: "test".to_string(),
        last_name: "user".to_string(),
    }
}

fn snapshot_of(entries: Vec<PriceEntry>) -> PriceSnapshot {
    let mut snapshot = PriceSnapshot::new();
    for e in entries {
        snapshot.upsert(e);
    }
    snapshot
}

/// The sums as the service takes them: floating-point addition in ledger
/// order, and the test for exactly zero.
fn positions(groups: &[Group]) -> Vec<Position> {
    groups
        .iter()
        .map(|group| {
            let mut sum = 0f64;
            for amount in &group.amounts {
                sum = amount.parse::<f64>().unwrap() + sum;
            }
            Position { symbol: group.symbol.clone(), amount: sum.to_string(), zero: sum == 0.0 }
        })
        .collect()
}

fn holdings_of(users: &UserTable, username: &str, snapshot: &PriceSnapshot) -> Vec<Coin> {
    let groups = ledger_groups(users, username).unwrap();
    compute_holdings(&positions(&groups), snapshot)
}

#[test]
fn closed_position_and_priced_coin_give_one_holding() {
    let mut users = UserTable::new();
    users.put_user(user("alice")).unwrap();
    users.append(record("alice", "BTC", "5")).unwrap();
    users.append(record("alice", "BTC", "-5")).unwrap();
    users.append(record("alice", "ETH", "3")).unwrap();
    let snapshot = snapshot_of(vec![entry("ETH", "Ethereum", "4500.5")]);
    let holdings = holdings_of(&users, "alice", &snapshot);
    assert_eq!(holdings.len(), 1);
    assert_eq!(holdings[0].symbol, "ETH");
    assert_eq!(holdings[0].name, "Ethereum");
    assert_eq!(holdings[0].price, "4500.5");
    assert_eq!(holdings[0].amount.parse::<f64>().unwrap(), 3.0);
}

#[test]
fn sum_that_is_not_exactly_zero_is_kept() {
    let mut users = UserTable::new();
    users.put_user(user("a")).unwrap();
    users.append(record("a", "ETH", "0.1")).unwrap();
    users.append(record("a", "ETH", "0.2")).unwrap();
    users.append(record("a", "ETH", "-0.3")).unwrap();
    let snapshot = snapshot_of(vec![entry("ETH", "Ethereum", "10")]);
    let holdings = holdings_of(&users, "a", &snapshot);
    assert_eq!(holdings.len(), 1);
    assert_eq!(holdings[0].symbol, "ETH");
    assert_eq!(holdings[0].amount.parse::<f64>().unwrap(), (0.1_f64 + 0.2) + (-0.3));
    assert_eq!(holdings[0].amount.parse::<f64>().unwrap(), 5.551115123125783e-17);
}

#[test]
fn coin_without_a_price_is_left_out() {
    let mut users = UserTable::new();
    users.put_user(user("bob")).unwrap();
    users.append(record("bob", "XYZ", "2")).unwrap();
    let snapshot = snapshot_of(vec![entry("ETH", "Ethereum", "1")]);
    assert_eq!(holdings_of(&users, "bob", &snapshot), vec![]);
    assert_eq!(holdings_of(&users, "bob", &PriceSnapshot::new()), vec![]);
}

#[test]
fn empty_ledger_has_no_holdings() {
    let mut users = UserTable::new();
    users.put_user(user("carol")).unwrap();
    assert_eq!(ledger_groups(&users, "carol"), Ok(vec![]));
    let snapshot = snapshot_of(vec![entry("ETH", "Ethereum", "1")]);
    assert_eq!(holdings_of(&users, "carol", &snapshot), vec![]);
}

#[test]
fn unknown_user_has_no_valuation() {
    let users = UserTable::new();
    assert_eq!(ledger_groups(&users, "nobody"), Err(AggregationError::UnknownUser));
}

#[test]
fn append_without_an_owner_fails_and_changes_nothing() {
    let mut users = UserTable::new();
    users.put_user(user("alice")).unwrap();
    users.append(record("alice", "BTC", "1")).unwrap();
    let before = users.clone();
    assert_eq!(users.append(record("mallory", "BTC", "1")), Err(AppendError::OwnerNotFound));
    assert_eq!(users.append(record("", "BTC", "1")), Err(AppendError::OwnerNotFound));
    assert_eq!(users, before);
    assert!(users.get("mallory").is_none());
}

#[test]
fn append_goes_to_the_end_of_the_owners_ledger_only() {
    let mut users = UserTable::new();
    users.put_user(user("alice")).unwrap();
    users.put_user(user("bob")).unwrap();
    users.append(record("alice", "BTC", "1")).unwrap();
    users.append(record("bob", "ETH", "2")).unwrap();
    users.append(record("alice", "ETH", "3")).unwrap();
    assert_eq!(
        users.get("alice").unwrap().transactions,
        vec![record("alice", "BTC", "1"), record("alice", "ETH", "3")]
    );
    assert_eq!(users.get("bob").unwrap().transactions, vec![record("bob", "ETH", "2")]);
}

#[test]
fn put_user_keeps_the_ledger_and_replaces_the_names() {
    let mut users = UserTable::new();
    users.put_user(user("alice")).unwrap();
    users.append(record("alice", "BTC", "1")).unwrap();
    users
        .put_user(UserPutRequest {
            username: "alice".to_string(),
            first_name: "Alice".to_string(),
            last_name: "Liddell".to_string(),
        })
        .unwrap();
    assert_eq!(users.users().len(), 1);
    let alice = users.get("alice").unwrap();
    assert_eq!(alice.first_name, "Alice");
    assert_eq!(alice.last_name, "Liddell");
    assert_eq!(alice.transactions, vec![record("alice", "BTC", "1")]);
}

#[test]
fn put_user_without_a_username_is_refused() {
    let mut users = UserTable::new();
    assert_eq!(users.put_user(user("")), Err(InputError::EmptyField(Field::Username)));
    assert!(users.users().is_empty());
}

#[test]
fn groups_hold_the_amounts_in_ledger_order() {
    let ledger = vec![
        record("a", "BTC", "0.1"),
        record("a", "ETH", "7"),
        record("a", "BTC", "0.2"),
        record("a", "BTC", "-0.3"),
        record("a", "ETH", "-6e0"),
    ];
    assert_eq!(
        group_by_coin(&ledger),
        vec![
            Group {
                symbol: "BTC".to_string(),
                amounts: vec!["0.1".to_string(), "0.2".to_string(), "-0.3".to_string()]
            },
            Group { symbol: "ETH".to_string(), amounts: vec!["7".to_string(), "-6e0".to_string()] },
        ]
    );
    assert_eq!(group_by_coin(&vec![]), vec![]);
}

#[test]
fn holdings_come_in_the_order_of_the_snapshot() {
    let positions = vec![
        Position { symbol: "ETH".to_string(), amount: "1".to_string(), zero: false },
        Position { symbol: "BTC".to_string(), amount: "2".to_string(), zero: false },
        Position { symbol: "ADA".to_string(), amount: "0".to_string(), zero: true },
        Position { symbol: "XRP".to_string(), amount: "-4".to_string(), zero: false },
    ];
    let snapshot = vec![
        entry("BTC", "Bitcoin", "10"),
        entry("DOGE", "Dogecoin", "1"),
        entry("ADA", "Cardano", "30"),
        entry("XRP", "Ripple", "0.5"),
        entry("ETH", "Ethereum", "20"),
    ];
    assert_eq!(
        aggregate(&positions, &snapshot),
        vec![
            Coin {
                name: "Bitcoin".to_string(),
                symbol: "BTC".to_string(),
                price: "10".to_string(),
                amount: "2".to_string()
            },
            Coin {
                name: "Ripple".to_string(),
                symbol: "XRP".to_string(),
                price: "0.5".to_string(),
                amount: "-4".to_string()
            },
            Coin {
                name: "Ethereum".to_string(),
                symbol: "ETH".to_string(),
                price: "20".to_string(),
                amount: "1".to_string()
            },
        ]
    );
    assert_eq!(aggregate(&vec![], &snapshot), vec![]);
}

#[test]
fn find_position_finds_the_first_of_the_symbol() {
    let positions = vec![
        Position { symbol: "BTC".to_string(), amount: "1".to_string(), zero: false },
        Position { symbol: "ETH".to_string(), amount: "2".to_string(), zero: false },
        Position { symbol: "ETH".to_string(), amount: "3".to_string(), zero: true },
    ];
    assert_eq!(find_position(&positions, &"ETH".to_string()), Some(1));
    assert_eq!(find_position(&positions, &"eth".to_string()), None);
}

#[test]
fn snapshot_keeps_one_entry_for_each_symbol() {
    let mut snapshot = PriceSnapshot::new();
    snapshot.upsert(entry("BTC", "Bitcoin", "1"));
    snapshot.upsert(entry("ETH", "Ethereum", "2"));
    snapshot.upsert(entry("BTC", "Bitcoin again", "3"));
    assert_eq!(
        snapshot.entries(),
        &vec![entry("BTC", "Bitcoin again", "3"), entry("ETH", "Ethereum", "2")]
    );
    assert_eq!(
        snapshot.get(&"BTC".to_string()),
        Some(CoinPrice { name: "Bitcoin again".to_string(), price: "3".to_string() })
    );
    assert_eq!(snapshot.get(&"XRP".to_string()), None);
}
