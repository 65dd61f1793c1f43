//! The data that the library works on, each type with the mathematical value
//! that contracts speak of (its deep view).
//!
//! Amounts and prices are floating-point numbers, held as the texts that
//! denote them (see [`crate::number`]).
use vstd::prelude::*;
use vstd::std_specs::cmp::PartialEqSpec;

verus! {

/// One record of a ledger: `amount` of `coin` acquired (positive) or disposed
/// of (negative) by `username`, at `price` each.
#[derive(Debug, Clone, PartialEq, Eq)]
pub struct Transaction {
    pub username: String,
    pub coin: String,
    pub amount: String,
    pub price: String,
}

pub struct TransactionView {
    pub username: Seq<char>,
    pub coin: Seq<char>,
    pub amount: Seq<char>,
    pub price: Seq<char>,
}

impl DeepView for Transaction {
    type V = TransactionView;

    open spec fn deep_view(&self) -> TransactionView {
        TransactionView {
            username: self.username@,
            coin: self.coin@,
            amount: self.amount@,
            price: self.price@,
        }
    }
}

/// A holding: the net amount of one coin, valued at the latest known price.
#[derive(Debug, Clone, PartialEq, Eq)]
pub struct Coin {
    /// The display name, such as `Ethereum`.
    pub name: String,
    /// The symbol by which markets know the coin, such as `ETHAUD`.
    pub symbol: String,
    pub price: String,
    pub amount: String,
}

pub struct CoinView {
    pub name: Seq<char>,
    pub symbol: Seq<char>,
    pub price: Seq<char>,
    pub amount: Seq<char>,
}

impl DeepView for Coin {
    type V = CoinView;

    open spec fn deep_view(&self) -> CoinView {
        CoinView {
            name: self.name@,
            symbol: self.symbol@,
            price: self.price@,
            amount: self.amount@,
        }
    }
}

/// What a price snapshot knows of one coin.
#[derive(Debug, Clone, PartialEq, Eq)]
pub struct CoinPrice {
    pub name: String,
    pub price: String,
}

pub struct CoinPriceView {
    pub name: Seq<char>,
    pub price: Seq<char>,
}

impl DeepView for CoinPrice {
    type V = CoinPriceView;

    open spec fn deep_view(&self) -> CoinPriceView {
        CoinPriceView { name: self.name@, price: self.price@ }
    }
}

/// One entry of a price snapshot: a coin's symbol, its display name and the
/// latest known price.
#[derive(Debug, Clone, PartialEq, Eq)]
pub struct PriceEntry {
    pub symbol: String,
    pub name: String,
    pub price: String,
}

pub struct PriceEntryView {
    pub symbol: Seq<char>,
    pub name: Seq<char>,
    pub price: Seq<char>,
}

impl DeepView for PriceEntry {
    type V = PriceEntryView;

    open spec fn deep_view(&self) -> PriceEntryView {
        PriceEntryView { symbol: self.symbol@, name: self.name@, price: self.price@ }
    }
}

/// A request to refresh the prices of some coins.
#[derive(Debug, Clone, PartialEq, Eq)]
pub struct CoinsPutRequest {
    pub coins: Vec<CoinPutRequest>,
}

/// One coin of a refresh request: the name to show and the symbol to look up.
#[derive(Debug, Clone, PartialEq, Eq)]
pub struct CoinPutRequest {
    pub name: String,
    pub symbol: String,
}

pub struct CoinPutRequestView {
    pub name: Seq<char>,
    pub symbol: Seq<char>,
}

impl DeepView for CoinPutRequest {
    type V = CoinPutRequestView;

    open spec fn deep_view(&self) -> CoinPutRequestView {
        CoinPutRequestView { name: self.name@, symbol: self.symbol@ }
    }
}

impl DeepView for CoinsPutRequest {
    type V = Seq<CoinPutRequestView>;

    open spec fn deep_view(&self) -> Seq<CoinPutRequestView> {
        self.coins.deep_view()
    }
}

/// An order book as the market reports it: each bid and each ask is a list of
/// texts, the price first and the volume second.
#[derive(Debug, Clone, PartialEq, Eq)]
pub struct BinancePrices {
    pub last_update_id: i64,
    pub bids: Vec<Vec<String>>,
    pub asks: Vec<Vec<String>>,
}

pub struct BinancePricesView {
    pub last_update_id: int,
    pub bids: Seq<Seq<Seq<char>>>,
    pub asks: Seq<Seq<Seq<char>>>,
}

impl DeepView for BinancePrices {
    type V = BinancePricesView;

    open spec fn deep_view(&self) -> BinancePricesView {
        BinancePricesView {
            last_update_id: self.last_update_id as int,
            bids: self.bids.deep_view(),
            asks: self.asks.deep_view(),
        }
    }
}

/// A request to create a user, or to replace the names of one that exists.
#[derive(Debug, Clone, PartialEq, Eq)]
pub struct UserPutRequest {
    pub username: String,
    pub first_name: String,
    pub last_name: String,
}

pub struct UserPutRequestView {
    pub username: Seq<char>,
    pub first_name: Seq<char>,
    pub last_name: Seq<char>,
}

impl DeepView for UserPutRequest {
    type V = UserPutRequestView;

    open spec fn deep_view(&self) -> UserPutRequestView {
        UserPutRequestView {
            username: self.username@,
            first_name: self.first_name@,
            last_name: self.last_name@,
        }
    }
}

/// A user with the holdings computed from the ledger.
#[derive(Debug, Clone, PartialEq, Eq)]
pub struct UserGetResponse {
    pub username: String,
    pub first_name: String,
    pub last_name: String,
    pub coins: Vec<Coin>,
}

pub struct UserGetResponseView {
    pub username: Seq<char>,
    pub first_name: Seq<char>,
    pub last_name: Seq<char>,
    pub coins: Seq<CoinView>,
}

impl DeepView for UserGetResponse {
    type V = UserGetResponseView;

    open spec fn deep_view(&self) -> UserGetResponseView {
        UserGetResponseView {
            username: self.username@,
            first_name: self.first_name@,
            last_name: self.last_name@,
            coins: self.coins.deep_view(),
        }
    }
}

/// A user as the store holds it: the names and the ledger, oldest record first.
#[derive(Debug, Clone, PartialEq, Eq)]
pub struct UserProfile {
    pub username: String,
    pub first_name: String,
    pub last_name: String,
    pub transactions: Vec<Transaction>,
}

pub struct UserProfileView {
    pub username: Seq<char>,
    pub first_name: Seq<char>,
    pub last_name: Seq<char>,
    pub transactions: Seq<TransactionView>,
}

impl DeepView for UserProfile {
    type V = UserProfileView;

    open spec fn deep_view(&self) -> UserProfileView {
        UserProfileView {
            username: self.username@,
            first_name: self.first_name@,
            last_name: self.last_name@,
            transactions: self.transactions.deep_view(),
        }
    }
}

/// Whether a value is the default of its type: 0, the empty string and the like.
///
/// The contract goes through the type's own `==` and `default`, as far as the
/// type states what they compute.
pub fn is_default<T: Default + PartialEq>(t: &T) -> (r: bool)
    ensures
        T::obeys_eq_spec() ==> exists|d: T| call_ensures(T::default, (), d) && r == t.eq_spec(&d),
{
    let d = T::default();
    *t == d
}

/// Whether a text is the default of its type: the empty text.
pub fn is_default_text(text: &String) -> (r: bool)
    ensures
        r == (text@.len() == 0),
{
    text.as_str().is_empty()
}

} // verus!
