//! The ways in which an operation can fail, and the class of status that each
//! failure is reported under.
use vstd::prelude::*;
use vstd::string::StringExecFns;
use crate::text::owned;

verus! {

/// The class of an outcome as a caller sees it.
#[derive(Debug, Clone, Copy, PartialEq, Eq, Structural)]
pub enum StatusClass {
    /// The operation did what was asked.
    Success,
    /// The request was malformed, or a precondition on the stored data did not hold.
    Client,
    /// The store or an upstream service failed.
    Server,
}

impl StatusClass {
    pub open spec fn code_spec(self) -> u16 {
        match self {
            StatusClass::Success => 200,
            StatusClass::Client => 400,
            StatusClass::Server => 500,
        }
    }

    /// The HTTP-style status code of the class.
    pub fn code(self) -> (r: u16)
        ensures
            r == self.code_spec(),
    {
        match self {
            StatusClass::Success => 200,
            StatusClass::Client => 400,
            StatusClass::Server => 500,
        }
    }
}

/// An attribute of a stored item or a field of a request.
#[derive(Debug, Clone, Copy, PartialEq, Eq, Structural)]
pub enum Field {
    Username,
    FirstName,
    LastName,
    Transactions,
    Coin,
    Amount,
    Price,
    Name,
    Symbol,
}

impl Field {
    pub open spec fn key_spec(self) -> Seq<char> {
        match self {
            Field::Username => "username"@,
            Field::FirstName => "first_name"@,
            Field::LastName => "last_name"@,
            Field::Transactions => "transactions"@,
            Field::Coin => "coin"@,
            Field::Amount => "amount"@,
            Field::Price => "price"@,
            Field::Name => "name"@,
            Field::Symbol => "symbol"@,
        }
    }

    /// The key under which the store and the requests hold the field.
    pub fn key(self) -> (r: &'static str)
        ensures
            r@ == self.key_spec(),
    {
        match self {
            Field::Username => "username",
            Field::FirstName => "first_name",
            Field::LastName => "last_name",
            Field::Transactions => "transactions",
            Field::Coin => "coin",
            Field::Amount => "amount",
            Field::Price => "price",
            Field::Name => "name",
            Field::Symbol => "symbol",
        }
    }
}

/// A stored item that is not what the library wrote.
#[derive(Debug, Clone, Copy, PartialEq, Eq, Structural)]
pub enum DecodeError {
    /// A scan came back without a list of items.
    NoItems,
    /// The item has no attribute under the field's key.
    MissingKey(Field),
    /// The attribute is not of the type that the field has.
    WrongType(Field),
    /// The attribute is a number, but its text denotes no real number.
    MalformedNumber(Field),
    /// An entry of a ledger is not a map.
    NotARecord,
}

impl DecodeError {
    pub open spec fn message_spec(self) -> Seq<char> {
        match self {
            DecodeError::NoItems => "no items in table"@,
            DecodeError::MissingKey(field) => field.key_spec() + " key doesn't exist"@,
            DecodeError::WrongType(field) => field.key_spec() + " type incorrect"@,
            DecodeError::MalformedNumber(field) => field.key_spec() + " is not a number"@,
            DecodeError::NotARecord => "transaction is not a map"@,
        }
    }

    /// What went wrong in the reading of a user, in words.
    pub open spec fn user_message_spec(self) -> Seq<char> {
        match self {
            DecodeError::NoItems => "no users in table"@,
            DecodeError::MissingKey(field) => field.key_spec() + " key doesn't exist"@,
            DecodeError::WrongType(Field::Transactions) => "transactions type incorrect"@,
            DecodeError::WrongType(Field::Amount) => "amount not of type number"@,
            DecodeError::WrongType(Field::Price) => "price not of type number"@,
            DecodeError::WrongType(field) => field.key_spec() + " not of type string"@,
            DecodeError::MalformedNumber(_) => "invalid float literal"@,
            DecodeError::NotARecord => "trans_map type incorrect"@,
        }
    }

    /// What went wrong in the reading of a user, in words.
    pub fn user_message(self) -> (r: String)
        ensures
            r@ == self.user_message_spec(),
    {
        match self {
            DecodeError::NoItems => owned("no users in table"),
            DecodeError::MissingKey(field) => {
                let mut text = owned(field.key());
                text.append(" key doesn't exist");
                text
            },
            DecodeError::WrongType(Field::Transactions) => owned("transactions type incorrect"),
            DecodeError::WrongType(Field::Amount) => owned("amount not of type number"),
            DecodeError::WrongType(Field::Price) => owned("price not of type number"),
            DecodeError::WrongType(field) => {
                let mut text = owned(field.key());
                text.append(" not of type string");
                text
            },
            DecodeError::MalformedNumber(_) => owned("invalid float literal"),
            DecodeError::NotARecord => owned("trans_map type incorrect"),
        }
    }

    /// What went wrong in the reading of the price snapshot, in words.
    pub fn message(self) -> (r: String)
        ensures
            r@ == self.message_spec(),
    {
        match self {
            DecodeError::NoItems => owned("no items in table"),
            DecodeError::MissingKey(field) => {
                let mut text = owned(field.key());
                text.append(" key doesn't exist");
                text
            },
            DecodeError::WrongType(field) => {
                let mut text = owned(field.key());
                text.append(" type incorrect");
                text
            },
            DecodeError::MalformedNumber(field) => {
                let mut text = owned(field.key());
                text.append(" is not a number");
                text
            },
            DecodeError::NotARecord => owned("transaction is not a map"),
        }
    }
}

/// A request that cannot be acted on as it stands.
#[derive(Debug, Clone, Copy, PartialEq, Eq, Structural)]
pub enum InputError {
    /// The request has no body.
    NoBody,
    /// The request has a body that is not text.
    BinaryBody,
    /// A field that must hold something is empty.
    EmptyField(Field),
    /// A field that must hold a number holds a text that denotes no real number.
    MalformedNumber(Field),
}

impl InputError {
    pub open spec fn message_spec(self) -> Seq<char> {
        match self {
            InputError::NoBody => "no body provided"@,
            InputError::BinaryBody => "binary body not supported"@,
            InputError::EmptyField(field) => field.key_spec() + " must not be empty"@,
            InputError::MalformedNumber(field) => field.key_spec() + " is not a number"@,
        }
    }

    /// What went wrong, in words.
    pub fn message(self) -> (r: String)
        ensures
            r@ == self.message_spec(),
    {
        match self {
            InputError::NoBody => owned("no body provided"),
            InputError::BinaryBody => owned("binary body not supported"),
            InputError::EmptyField(field) => {
                let mut text = owned(field.key());
                text.append(" must not be empty");
                text
            },
            InputError::MalformedNumber(field) => {
                let mut text = owned(field.key());
                text.append(" is not a number");
                text
            },
        }
    }
}

/// Why a transaction was not appended.
#[derive(Debug, Clone, PartialEq, Eq)]
pub enum AppendError {
    /// No user has the username: nothing was written.
    OwnerNotFound,
    /// The store could not be reached or refused the write; the cause is its own account.
    StoreUnavailable(String),
}

pub enum AppendErrorView {
    OwnerNotFound,
    StoreUnavailable(Seq<char>),
}

impl DeepView for AppendError {
    type V = AppendErrorView;

    open spec fn deep_view(&self) -> AppendErrorView {
        match self {
            AppendError::OwnerNotFound => AppendErrorView::OwnerNotFound,
            AppendError::StoreUnavailable(cause) => AppendErrorView::StoreUnavailable(cause@),
        }
    }
}

impl AppendError {
    pub open spec fn class_spec(self) -> StatusClass {
        match self {
            AppendError::OwnerNotFound => StatusClass::Client,
            AppendError::StoreUnavailable(_) => StatusClass::Server,
        }
    }

    /// A missing owner is the caller's mistake, a failing store is not.
    pub fn class(&self) -> (r: StatusClass)
        ensures
            r == self.class_spec(),
    {
        match self {
            AppendError::OwnerNotFound => StatusClass::Client,
            AppendError::StoreUnavailable(_) => StatusClass::Server,
        }
    }
}

/// Why an order book gave no price.
#[derive(Debug, Clone, Copy, PartialEq, Eq, Structural)]
pub enum PriceError {
    /// The book has no asks: there is nothing to average.
    EmptyBook,
    /// An ask has no price, or its price or the mean is no real number or is
    /// below zero.
    MalformedEntry,
}

/// Why the price of a symbol was not refreshed.
#[derive(Debug, Clone, PartialEq, Eq)]
pub enum RefreshError {
    /// The market gave no order book; the cause is its own account.
    MarketUnavailable(String),
    /// The market gave something that is no order book; the cause is the
    /// reader's own account.
    MarketUnreadable(String),
    /// The order book gave no price.
    PriceError(PriceError),
    /// The store did not take the new entry; the cause is its own account.
    StoreWrite(String),
}

pub enum RefreshErrorView {
    MarketUnavailable(Seq<char>),
    MarketUnreadable(Seq<char>),
    PriceError(PriceError),
    StoreWrite(Seq<char>),
}

impl DeepView for RefreshError {
    type V = RefreshErrorView;

    open spec fn deep_view(&self) -> RefreshErrorView {
        match self {
            RefreshError::MarketUnavailable(cause) => RefreshErrorView::MarketUnavailable(cause@),
            RefreshError::MarketUnreadable(cause) => RefreshErrorView::MarketUnreadable(cause@),
            RefreshError::PriceError(e) => RefreshErrorView::PriceError(*e),
            RefreshError::StoreWrite(cause) => RefreshErrorView::StoreWrite(cause@),
        }
    }
}

/// Why holdings were not computed.
#[derive(Debug, Clone, PartialEq, Eq)]
pub enum AggregationError {
    /// No user has the username.
    UnknownUser,
    /// The scan of the users could not be read.
    Decode(DecodeError),
    /// The price snapshot could not be read: nobody can be valued.
    Snapshot(DecodeError),
    /// What the store holds for one user could not be read; the others are not affected.
    PartialFailure { username: String, cause: DecodeError },
}

pub enum AggregationErrorView {
    UnknownUser,
    Decode(DecodeError),
    Snapshot(DecodeError),
    PartialFailure { username: Seq<char>, cause: DecodeError },
}

impl DeepView for AggregationError {
    type V = AggregationErrorView;

    open spec fn deep_view(&self) -> AggregationErrorView {
        match self {
            AggregationError::UnknownUser => AggregationErrorView::UnknownUser,
            AggregationError::Decode(e) => AggregationErrorView::Decode(*e),
            AggregationError::Snapshot(e) => AggregationErrorView::Snapshot(*e),
            AggregationError::PartialFailure { username, cause } => {
                AggregationErrorView::PartialFailure { username: username@, cause: *cause }
            },
        }
    }
}

} // verus!
