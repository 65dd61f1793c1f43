//! From an order book to a price, without the arithmetic.
//!
//! The price of a coin is the mean of the prices of its asks, every ask
//! counted once, whatever its volume. The library picks the prices out of
//! the book and refuses a book that has none; the caller takes the mean, in
//! floating point; the library makes the entry of it.
use vstd::prelude::*;
use crate::errors::{Field, InputError, PriceError, RefreshError, RefreshErrorView};
use crate::number::{is_price, is_price_text};
use crate::text::owned;
use crate::types::{
    BinancePrices, BinancePricesView, CoinPutRequest, CoinPutRequestView, PriceEntry,
    PriceEntryView,
};

verus! {

/// Where the market serves its order books.
pub const BINANCE_PRICES_URL: &'static str = "https://api.binance.com/api/v3/depth";

/// How many of the best asks a refresh looks at.
pub const DEPTH_LIMIT: &'static str = "50";

/// Whether an ask has a price: a first text, and that text denotes a real
/// number that is not below zero.
pub open spec fn is_priced(ask: Seq<Seq<char>>) -> bool {
    ask.len() > 0 && is_price_text(ask[0])
}

pub open spec fn all_priced(asks: Seq<Seq<Seq<char>>>) -> bool {
    forall|i: int| 0 <= i < asks.len() ==> is_priced(#[trigger] asks[i])
}

/// The prices that the mean is taken over: the first text of every ask, in
/// the order of the asks. A book without asks has none to take a mean of,
/// nor has one with an ask that has no price.
pub open spec fn prices_to_average(asks: Seq<Seq<Seq<char>>>) -> Result<
    Seq<Seq<char>>,
    PriceError,
> {
    if asks.len() == 0 {
        Err(PriceError::EmptyBook)
    } else if !all_priced(asks) {
        Err(PriceError::MalformedEntry)
    } else {
        Ok(Seq::new(asks.len(), |i: int| asks[i][0]))
    }
}

/// A book is refused for want of asks exactly when it has no asks, and the
/// prices that a book gives are as many as its asks, one at least: the mean
/// is never a division by zero.
pub proof fn lemma_mean_has_a_divisor(asks: Seq<Seq<Seq<char>>>)
    ensures
        prices_to_average(asks) == Err::<Seq<Seq<char>>, PriceError>(PriceError::EmptyBook)
            <==> asks.len() == 0,
        prices_to_average(asks) matches Ok(prices) ==> prices.len() == asks.len()
            && prices.len() >= 1,
{
}

/// The ask prices of an order book, to take the mean of: every ask counts
/// once, the volumes and the bids do not count.
///
/// Fails with `EmptyBook` where the book has no asks, and with
/// `MalformedEntry` where an ask has no text that denotes a real number
/// that is not below zero.
pub fn ask_prices(book: &BinancePrices) -> (r: Result<Vec<String>, PriceError>)
    ensures
        match r {
            Ok(prices) => prices_to_average(book.deep_view().asks) == Ok::<
                Seq<Seq<char>>,
                PriceError,
            >(prices.deep_view()),
            Err(e) => prices_to_average(book.deep_view().asks) == Err::<
                Seq<Seq<char>>,
                PriceError,
            >(e),
        },
{
    let ghost asks = book.deep_view().asks;
    let n: usize = book.asks.len();
    if n == 0 {
        return Err(PriceError::EmptyBook);
    }
    let mut prices: Vec<String> = Vec::new();
    let mut i: usize = 0;
    while i < n
        invariant
            i <= n,
            n == book.asks.len(),
            asks == book.deep_view().asks,
            prices.len() == i,
            forall|j: int| 0 <= j < i ==> is_priced(#[trigger] asks[j]),
            forall|j: int| 0 <= j < i ==> (#[trigger] prices@[j])@ == asks[j][0],
        decreases n - i,
    {
        let ask = &book.asks[i];
        assert(asks[i as int] == ask.deep_view());
        if ask.len() == 0 {
            assert(!is_priced(asks[i as int]));
            return Err(PriceError::MalformedEntry);
        }
        assert(asks[i as int][0] == ask@[0]@);
        if !is_price(ask[0].as_str()) {
            assert(!is_priced(asks[i as int]));
            return Err(PriceError::MalformedEntry);
        }
        prices.push(ask[0].clone());
        i += 1;
    }
    assert(prices.deep_view() =~= Seq::new(asks.len(), |i: int| asks[i][0]));
    Ok(prices)
}

/// What the market answered when it was asked for an order book.
#[derive(Debug, Clone, PartialEq, Eq)]
pub enum MarketReply {
    /// The order book of the symbol.
    Book(BinancePrices),
    /// No order book: the market could not be reached. The text is the
    /// failure's own account.
    Unavailable(String),
    /// No order book: what the market sent could not be read. The text is
    /// the reader's own account.
    Unreadable(String),
}

pub enum MarketReplyView {
    Book(BinancePricesView),
    Unavailable(Seq<char>),
    Unreadable(Seq<char>),
}

impl DeepView for MarketReply {
    type V = MarketReplyView;

    open spec fn deep_view(&self) -> MarketReplyView {
        match self {
            MarketReply::Book(book) => MarketReplyView::Book(book.deep_view()),
            MarketReply::Unavailable(cause) => MarketReplyView::Unavailable(cause@),
            MarketReply::Unreadable(cause) => MarketReplyView::Unreadable(cause@),
        }
    }
}

/// The question that a refresh puts to the market: the address and the
/// parameters of the query.
#[derive(Debug, Clone, PartialEq, Eq)]
pub struct MarketQuery {
    pub url: String,
    pub params: Vec<(String, String)>,
}

/// The query for the order book of a symbol: its best asks and bids, up to
/// the depth limit.
pub fn market_query(symbol: &str) -> (r: MarketQuery)
    ensures
        r.url@ == BINANCE_PRICES_URL@,
        r.params.deep_view() == seq![("symbol"@, symbol@), ("limit"@, DEPTH_LIMIT@)],
{
    let mut params: Vec<(String, String)> = Vec::new();
    params.push((owned("symbol"), owned(symbol)));
    params.push((owned("limit"), owned(DEPTH_LIMIT)));
    assert(params.deep_view() =~= seq![("symbol"@, symbol@), ("limit"@, DEPTH_LIMIT@)]);
    MarketQuery { url: owned(BINANCE_PRICES_URL), params }
}

/// The prices that the market's answer gives to take the mean of.
pub open spec fn reply_prices_of(reply: MarketReplyView) -> Result<
    Seq<Seq<char>>,
    RefreshErrorView,
> {
    match reply {
        MarketReplyView::Unavailable(cause) => Err(RefreshErrorView::MarketUnavailable(cause)),
        MarketReplyView::Unreadable(cause) => Err(RefreshErrorView::MarketUnreadable(cause)),
        MarketReplyView::Book(book) => match prices_to_average(book.asks) {
            Err(e) => Err(RefreshErrorView::PriceError(e)),
            Ok(prices) => Ok(prices),
        },
    }
}

/// Picks the ask prices out of what the market answered.
pub fn reply_prices(reply: &MarketReply) -> (r: Result<Vec<String>, RefreshError>)
    ensures
        match r {
            Ok(prices) => reply_prices_of(reply.deep_view()) == Ok::<
                Seq<Seq<char>>,
                RefreshErrorView,
            >(prices.deep_view()),
            Err(e) => reply_prices_of(reply.deep_view()) == Err::<
                Seq<Seq<char>>,
                RefreshErrorView,
            >(e.deep_view()),
        },
{
    match reply {
        MarketReply::Unavailable(cause) => Err(RefreshError::MarketUnavailable(cause.clone())),
        MarketReply::Unreadable(cause) => Err(RefreshError::MarketUnreadable(cause.clone())),
        MarketReply::Book(book) => match ask_prices(book) {
            Err(e) => Err(RefreshError::PriceError(e)),
            Ok(prices) => Ok(prices),
        },
    }
}

/// The entry that a refresh of a coin writes, given the mean of the ask
/// prices as the caller took it: the coin's symbol and name with the mean.
/// There is no entry where there is no mean, or its text denotes no real
/// number that is not below zero: a price is never infinite, never
/// something that is no number, and never below zero.
pub open spec fn refreshed(coin: CoinPutRequestView, mean: Option<Seq<char>>) -> Result<
    PriceEntryView,
    RefreshErrorView,
> {
    match mean {
        Some(price) => if is_price_text(price) {
            Ok(PriceEntryView { symbol: coin.symbol, name: coin.name, price })
        } else {
            Err(RefreshErrorView::PriceError(PriceError::MalformedEntry))
        },
        None => Err(RefreshErrorView::PriceError(PriceError::MalformedEntry)),
    }
}

/// Makes the entry that a refresh of a coin writes of the mean of the ask
/// prices.
pub fn refresh_entry(coin: &CoinPutRequest, mean: Option<&str>) -> (r: Result<
    PriceEntry,
    RefreshError,
>)
    ensures
        match r {
            Ok(entry) => refreshed(
                coin.deep_view(),
                match mean {
                    Some(m) => Some(m@),
                    None => None,
                },
            ) == Ok::<PriceEntryView, RefreshErrorView>(entry.deep_view()),
            Err(e) => refreshed(
                coin.deep_view(),
                match mean {
                    Some(m) => Some(m@),
                    None => None,
                },
            ) == Err::<PriceEntryView, RefreshErrorView>(e.deep_view()),
        },
{
    match mean {
        Some(price) => if is_price(price) {
            Ok(
                PriceEntry {
                    symbol: coin.symbol.clone(),
                    name: coin.name.clone(),
                    price: owned(price),
                },
            )
        } else {
            Err(RefreshError::PriceError(PriceError::MalformedEntry))
        },
        None => Err(RefreshError::PriceError(PriceError::MalformedEntry)),
    }
}

/// Whether every coin of a request has a symbol.
pub open spec fn all_have_symbols(coins: Seq<CoinPutRequestView>) -> bool {
    forall|i: int| 0 <= i < coins.len() ==> (#[trigger] coins[i]).symbol.len() > 0
}

/// Refuses a request that names a coin without a symbol: there is nothing
/// to ask the market for.
pub fn validate_coins(coins: &Vec<CoinPutRequest>) -> (r: Result<(), InputError>)
    ensures
        match r {
            Ok(()) => all_have_symbols(coins.deep_view()),
            Err(e) => e == InputError::EmptyField(Field::Symbol) && !all_have_symbols(
                coins.deep_view(),
            ),
        },
{
    let mut i: usize = 0;
    while i < coins.len()
        invariant
            i <= coins.len(),
            forall|j: int| 0 <= j < i ==> (#[trigger] coins.deep_view()[j]).symbol.len() > 0,
        decreases coins.len() - i,
    {
        assert(coins.deep_view()[i as int] == coins@[i as int].deep_view());
        if coins[i].symbol.as_str().is_empty() {
            return Err(InputError::EmptyField(Field::Symbol));
        }
        i += 1;
    }
    Ok(())
}

/// What became of one coin of a batch.
#[derive(Debug, PartialEq, Eq)]
pub struct RefreshReport {
    /// The symbol that the report is about.
    pub symbol: String,
    /// The entry that was written, or why none was.
    pub outcome: Result<PriceEntry, RefreshError>,
}

/// The index of the first report at or after `from` that is a failure, or
/// the number of reports where none is.
pub open spec fn failure_index(reports: Seq<RefreshReport>, from: int) -> int
    decreases reports.len() - from,
{
    if from < 0 || from >= reports.len() {
        reports.len() as int
    } else if reports[from].outcome is Err {
        from
    } else {
        failure_index(reports, from + 1)
    }
}

/// The first coin of a batch that failed, if any did.
pub fn first_failure(reports: &Vec<RefreshReport>) -> (r: Option<usize>)
    ensures
        match r {
            Some(k) => k < reports.len() && k == failure_index(reports@, 0)
                && reports@[k as int].outcome is Err,
            None => failure_index(reports@, 0) == reports.len(),
        },
{
    let mut k: usize = 0;
    while k < reports.len()
        invariant
            k <= reports.len(),
            failure_index(reports@, 0) == failure_index(reports@, k as int),
        decreases reports.len() - k,
    {
        if reports[k].outcome.is_err() {
            return Some(k);
        }
        k += 1;
    }
    None
}

} // verus!
