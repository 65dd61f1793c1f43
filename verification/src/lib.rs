//! Ledger-based portfolio valuation: an append-only transaction ledger per
//! user, a snapshot of coin prices, and the aggregation that joins the two.
//!
//! Amounts and prices are floating-point numbers. The library carries them as
//! the texts that the store and the requests give and leaves the arithmetic to
//! its caller; everything else it computes and decides. It neither talks to a
//! store nor to a market, but says what is to be sent and takes what came back
//! as a value.

pub mod errors;
pub mod greetings;
pub mod handlers;
pub mod holdings;
pub mod ledger;
pub mod number;
pub mod portfolio;
pub mod price;
pub mod requests;
pub mod res;
pub mod snapshot;
pub mod store;
pub mod text;
pub mod types;

pub use res::Res;
pub use types::{
    is_default, is_default_text, BinancePrices, Coin, CoinPrice, CoinPutRequest, CoinsPutRequest,
    Transaction, UserGetResponse, UserPutRequest,
};
