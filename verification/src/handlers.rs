//! The decisions of the handlers: what a request's body is taken for, and
//! the answer that each outcome of an operation is reported with.
//!
//! Every failure is reported under one of two classes: the caller's (a
//! request that cannot be acted on, an owner that does not exist) with
//! status 400, or the system's (the store, the market, what the store holds)
//! with status 500.
use vstd::prelude::*;
use vstd::string::StringExecFns;
use crate::errors::{
    AggregationError, AggregationErrorView, AppendError, AppendErrorView, DecodeError, InputError,
    PriceError, RefreshError, RefreshErrorView,
};
use crate::price::{failure_index, first_failure, RefreshReport};
use crate::requests::{StoreReply, StoreReplyView};
use crate::res::{Res, ResView};
use crate::text::owned;

verus! {

/// What a request carries.
#[derive(Debug, Clone, PartialEq, Eq)]
pub enum RequestBody {
    /// Nothing.
    Empty,
    /// A text, which the handlers take for JSON.
    Text(String),
    /// Bytes that are no text.
    Binary(Vec<u8>),
}

/// The text of a request's body. A request without a body, or with one
/// that is no text, cannot be acted on.
pub fn body_text(body: &RequestBody) -> (r: Result<&str, InputError>)
    ensures
        match r {
            Ok(text) => body matches RequestBody::Text(t) && text@ == t@,
            Err(e) => match body {
                RequestBody::Empty => e == InputError::NoBody,
                RequestBody::Binary(_) => e == InputError::BinaryBody,
                RequestBody::Text(_) => false,
            },
        },
{
    match body {
        RequestBody::Text(text) => Ok(text.as_str()),
        RequestBody::Empty => Err(InputError::NoBody),
        RequestBody::Binary(_) => Err(InputError::BinaryBody),
    }
}

/// A failure of the caller's class, without an error behind it.
pub open spec fn client_failure(message: Seq<char>) -> ResView {
    ResView { status: 400, message, error: Seq::empty(), body: Seq::empty() }
}

/// A failure of the system's class, with the error behind it.
pub open spec fn server_failure(message: Seq<char>, error: Seq<char>) -> ResView {
    ResView { status: 500, message, error, body: Seq::empty() }
}

/// A success, reported with a message.
pub open spec fn success(message: Seq<char>) -> ResView {
    ResView { status: 200, message, error: Seq::empty(), body: Seq::empty() }
}

/// The answer to a request that cannot be acted on.
pub fn input_error_response(e: InputError) -> (r: Res)
    ensures
        r@ == client_failure(e.message_spec()),
{
    let message = e.message();
    Res::bad_request(message.as_str())
}

/// The answer that an append is reported with.
pub open spec fn append_answer(outcome: Result<(), AppendErrorView>) -> ResView {
    match outcome {
        Ok(()) => success("successfully added transaction"@),
        Err(AppendErrorView::OwnerNotFound) => client_failure("user does not exist"@),
        Err(AppendErrorView::StoreUnavailable(cause)) => server_failure(
            "failed to add transaction to dynamodb"@,
            cause,
        ),
    }
}

/// Reports what an append came to. A missing owner is the caller's
/// failure, a failing store the system's.
pub fn append_response(outcome: &Result<(), AppendError>) -> (r: Res)
    ensures
        r@ == append_answer(
            match outcome {
                Ok(()) => Ok(()),
                Err(e) => Err(e.deep_view()),
            },
        ),
{
    match outcome {
        Ok(()) => Res::ok("successfully added transaction"),
        Err(AppendError::OwnerNotFound) => Res::bad_request("user does not exist"),
        Err(AppendError::StoreUnavailable(cause)) => Res::internal_server_error(
            "failed to add transaction to dynamodb",
            cause.as_str(),
        ),
    }
}

/// The answer that the putting of a user is reported with.
pub open spec fn put_user_answer(reply: StoreReplyView) -> ResView {
    match reply {
        StoreReplyView::Done => success("successfully added user"@),
        StoreReplyView::ConditionFailed => server_failure(
            "failed to add user to dynamodb"@,
            crate::requests::UNEXPECTED_CONDITION@,
        ),
        StoreReplyView::Unavailable(cause) => server_failure(
            "failed to add user to dynamodb"@,
            cause,
        ),
    }
}

/// Reports what the putting of a user came to, given the store's answer.
pub fn put_user_response(reply: &StoreReply) -> (r: Res)
    ensures
        r@ == put_user_answer(reply.deep_view()),
{
    match reply {
        StoreReply::Done => Res::ok("successfully added user"),
        StoreReply::ConditionFailed => Res::internal_server_error(
            "failed to add user to dynamodb",
            crate::requests::UNEXPECTED_CONDITION,
        ),
        StoreReply::Unavailable(cause) => Res::internal_server_error(
            "failed to add user to dynamodb",
            cause.as_str(),
        ),
    }
}

/// What went wrong with an order book, in words.
pub open spec fn price_error_text(e: PriceError) -> Seq<char> {
    match e {
        PriceError::EmptyBook => "the order book has no asks"@,
        PriceError::MalformedEntry => "an ask of the order book has no price that can be read"@,
    }
}

/// The message that a failed refresh is reported with.
pub open spec fn refresh_message(e: RefreshErrorView) -> Seq<char> {
    match e {
        RefreshErrorView::MarketUnavailable(_) => "failed to get prices from Binance"@,
        RefreshErrorView::MarketUnreadable(_) => "failed to parse prices from Binance"@,
        RefreshErrorView::PriceError(_) => "failed to parse prices from Binance"@,
        RefreshErrorView::StoreWrite(_) => "failed to add coin to dynamodb"@,
    }
}

/// The cause that a failed refresh is reported with.
pub open spec fn refresh_cause(e: RefreshErrorView) -> Seq<char> {
    match e {
        RefreshErrorView::MarketUnavailable(cause) => cause,
        RefreshErrorView::MarketUnreadable(cause) => cause,
        RefreshErrorView::PriceError(e) => price_error_text(e),
        RefreshErrorView::StoreWrite(cause) => cause,
    }
}

/// Reports a refresh that failed: under the system's class, and with the
/// symbol that it failed for in front of the cause.
pub fn refresh_error_response(symbol: &str, e: &RefreshError) -> (r: Res)
    ensures
        r@ == server_failure(
            refresh_message(e.deep_view()),
            symbol@ + ": "@ + refresh_cause(e.deep_view()),
        ),
{
    let mut error = owned(symbol);
    error.append(": ");
    match e {
        RefreshError::MarketUnavailable(cause) => {
            error.append(cause.as_str());
            Res::internal_server_error("failed to get prices from Binance", error.as_str())
        },
        RefreshError::MarketUnreadable(cause) => {
            error.append(cause.as_str());
            Res::internal_server_error("failed to parse prices from Binance", error.as_str())
        },
        RefreshError::PriceError(PriceError::EmptyBook) => {
            error.append("the order book has no asks");
            Res::internal_server_error("failed to parse prices from Binance", error.as_str())
        },
        RefreshError::PriceError(PriceError::MalformedEntry) => {
            error.append("an ask of the order book has no price that can be read");
            Res::internal_server_error("failed to parse prices from Binance", error.as_str())
        },
        RefreshError::StoreWrite(cause) => {
            error.append(cause.as_str());
            Res::internal_server_error("failed to add coin to dynamodb", error.as_str())
        },
    }
}

/// The answer that a batch of refreshes is reported with: where every
/// coin was refreshed, the body that the caller made of what was written;
/// else the failure of the first coin that failed, under its symbol.
pub open spec fn refresh_answer(reports: Seq<RefreshReport>, body: Seq<char>) -> ResView {
    let k = failure_index(reports, 0);
    if k < reports.len() {
        server_failure(
            refresh_message(reports[k].outcome->Err_0.deep_view()),
            reports[k].symbol@ + ": "@ + refresh_cause(reports[k].outcome->Err_0.deep_view()),
        )
    } else {
        ResView { status: 200, message: Seq::empty(), error: Seq::empty(), body }
    }
}

/// Reports a batch of refreshes. Every coin was refreshed on its own; the
/// first that failed decides the answer and is named in it.
pub fn refresh_response(reports: &Vec<RefreshReport>, body: &str) -> (r: Res)
    ensures
        r@ == refresh_answer(reports@, body@),
{
    match first_failure(reports) {
        Some(k) => match &reports[k].outcome {
            Err(e) => refresh_error_response(reports[k].symbol.as_str(), e),
            Ok(_) => Res::ok_body(body),
        },
        None => Res::ok_body(body),
    }
}

/// The answer that a failed valuation is reported with.
pub open spec fn aggregation_answer(e: AggregationErrorView) -> ResView {
    match e {
        AggregationErrorView::UnknownUser => client_failure("user does not exist"@),
        AggregationErrorView::Decode(cause) => server_failure(
            "failed to parse dynamodb response"@,
            cause.user_message_spec(),
        ),
        AggregationErrorView::Snapshot(cause) => server_failure(
            "failed to parse dynamodb response"@,
            if cause == DecodeError::NoItems {
                "no coins in table"@
            } else {
                cause.user_message_spec()
            },
        ),
        AggregationErrorView::PartialFailure { username, cause } => server_failure(
            "failed to parse dynamodb response"@,
            username + ": "@ + cause.user_message_spec(),
        ),
    }
}

/// Reports a valuation that failed. An unknown user is the caller's
/// failure; what the store holds and cannot be read is the system's.
pub fn aggregation_error_response(e: &AggregationError) -> (r: Res)
    ensures
        r@ == aggregation_answer(e.deep_view()),
{
    match e {
        AggregationError::UnknownUser => Res::bad_request("user does not exist"),
        AggregationError::Decode(cause) => {
            let error = cause.user_message();
            Res::internal_server_error("failed to parse dynamodb response", error.as_str())
        },
        AggregationError::Snapshot(cause) => {
            let error = match cause {
                DecodeError::NoItems => owned("no coins in table"),
                _ => cause.user_message(),
            };
            Res::internal_server_error("failed to parse dynamodb response", error.as_str())
        },
        AggregationError::PartialFailure { username, cause } => {
            let mut error = username.clone();
            error.append(": ");
            let text = cause.user_message();
            error.append(text.as_str());
            Res::internal_server_error("failed to parse dynamodb response", error.as_str())
        },
    }
}

/// Reports a price snapshot that could not be read.
pub fn decode_error_response(e: DecodeError) -> (r: Res)
    ensures
        r@ == server_failure("failed to scan result from dynamodb"@, e.message_spec()),
{
    let error = e.message();
    Res::internal_server_error("failed to scan result from dynamodb", error.as_str())
}

/// Every answer to a failure carries a status of 400 or above, every
/// answer to a success one below: a failure is never reported as a success.
pub proof fn lemma_failures_are_reported(
    append: AppendErrorView,
    refresh: RefreshErrorView,
    aggregation: AggregationErrorView,
    symbol: Seq<char>,
)
    ensures
        append_answer(Err(append)).status >= 400,
        append_answer(Ok(())).status == 200,
        aggregation_answer(aggregation).status >= 400,
        server_failure(refresh_message(refresh), symbol + ": "@ + refresh_cause(refresh)).status
            == 500,
        append is OwnerNotFound <==> append_answer(Err(append)).status == 400,
        aggregation is UnknownUser <==> aggregation_answer(aggregation).status == 400,
{
}

} // verus!
