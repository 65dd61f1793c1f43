//! What the library asks of the store, and what it makes of the answer.
//!
//! The library does not talk to the store. It says what is to be written, as
//! a value that the caller sends, and takes the store's answer as a value
//! in turn. An append is conditional: the store is to write it only where the
//! owner of the ledger exists, and to write all of it or nothing.
use vstd::prelude::*;
use crate::number::{is_real, is_real_text};
use crate::errors::{AppendError, AppendErrorView, Field, InputError, RefreshError, RefreshErrorView};
use crate::store::{entry_of, lemma_lookup_first, record_of, AttributeValue};
use crate::text::owned;
use crate::types::{
    PriceEntry, PriceEntryView, Transaction, TransactionView, UserPutRequest, UserPutRequestView,
};

verus! {

/// The table of the users and their ledgers.
pub const USER_TABLE: &'static str = "user";

/// The table of the price snapshot.
pub const COIN_TABLE: &'static str = "coin";

/// The condition of an append: the item of the owner is there.
pub const OWNER_CONDITION: &'static str = "username = :username";

/// The update of an append: the record goes to the end of the ledger.
pub const APPEND_EXPRESSION: &'static str =
    "set transactions = list_append(if_not_exists(transactions, :trans), :trans)";

/// The update that puts a user: the names are replaced, and the ledger is
/// created empty where there is none.
pub const PUT_USER_EXPRESSION: &'static str =
    "set first_name = :first_name, last_name = :last_name, transactions = if_not_exists(transactions, :none)";

/// An update of one item, to be sent to the store.
#[derive(Debug, PartialEq, Eq)]
pub struct UpdateItem {
    pub table_name: String,
    /// The key of the item: the name of the key attribute and its value.
    pub key: (String, AttributeValue),
    /// The condition on which the store is to write, if there is one.
    pub condition_expression: Option<String>,
    pub update_expression: String,
    /// The values that the two expressions name.
    pub expression_attribute_values: Vec<(String, AttributeValue)>,
}

/// An item to be written over whatever the store holds under its key.
#[derive(Debug, PartialEq, Eq)]
pub struct PutItem {
    pub table_name: String,
    pub item: Vec<(String, AttributeValue)>,
}

/// What the store answered to a write.
#[derive(Debug, Clone, PartialEq, Eq)]
pub enum StoreReply {
    /// The write is done and durable.
    Done,
    /// The condition of the write did not hold: nothing was written.
    ConditionFailed,
    /// The store could not be reached or refused the write; the text is its
    /// own account.
    Unavailable(String),
}

pub enum StoreReplyView {
    Done,
    ConditionFailed,
    Unavailable(Seq<char>),
}

impl DeepView for StoreReply {
    type V = StoreReplyView;

    open spec fn deep_view(&self) -> StoreReplyView {
        match self {
            StoreReply::Done => StoreReplyView::Done,
            StoreReply::ConditionFailed => StoreReplyView::ConditionFailed,
            StoreReply::Unavailable(cause) => StoreReplyView::Unavailable(cause@),
        }
    }
}

pub open spec fn is_text(value: AttributeValue, text: Seq<char>) -> bool {
    value matches AttributeValue::S(s) && s@ == text
}

pub open spec fn is_number(value: AttributeValue, text: Seq<char>) -> bool {
    value matches AttributeValue::N(s) && s@ == text
}

/// The fields of a stored record: the coin, the amount and the price.
pub open spec fn is_record_item(fields: Seq<(String, AttributeValue)>, record: TransactionView) -> bool {
    &&& fields.len() == 3
    &&& fields[0].0@ == Field::Coin.key_spec()
    &&& is_text(fields[0].1, record.coin)
    &&& fields[1].0@ == Field::Amount.key_spec()
    &&& is_number(fields[1].1, record.amount)
    &&& fields[2].0@ == Field::Price.key_spec()
    &&& is_number(fields[2].1, record.price)
}

/// The fields of a stored price entry: the name, the symbol and the price.
pub open spec fn is_entry_item(fields: Seq<(String, AttributeValue)>, entry: PriceEntryView) -> bool {
    &&& fields.len() == 3
    &&& fields[0].0@ == Field::Name.key_spec()
    &&& is_text(fields[0].1, entry.name)
    &&& fields[1].0@ == Field::Symbol.key_spec()
    &&& is_text(fields[1].1, entry.symbol)
    &&& fields[2].0@ == Field::Price.key_spec()
    &&& is_number(fields[2].1, entry.price)
}

/// The conditional append of a record: on the item of the owner, on
/// condition that it is there, the record as the one new entry of the ledger.
pub open spec fn is_append_request(request: UpdateItem, record: TransactionView) -> bool {
    &&& request.table_name@ == USER_TABLE@
    &&& request.key.0@ == Field::Username.key_spec()
    &&& is_text(request.key.1, record.username)
    &&& request.condition_expression matches Some(condition) && condition@ == OWNER_CONDITION@
    &&& request.update_expression@ == APPEND_EXPRESSION@
    &&& request.expression_attribute_values@.len() == 2
    &&& request.expression_attribute_values@[0].0@ == ":trans"@
    &&& request.expression_attribute_values@[0].1 matches AttributeValue::L(entries)
        && entries@.len() == 1 && (entries@[0] matches AttributeValue::M(fields)
        && is_record_item(fields@, record))
    &&& request.expression_attribute_values@[1].0@ == ":username"@
    &&& is_text(request.expression_attribute_values@[1].1, record.username)
}

/// The update that puts a user: on the item of the username, without a
/// condition, the two names and an empty ledger for an item that has none.
pub open spec fn is_put_user_request(request: UpdateItem, user: UserPutRequestView) -> bool {
    &&& request.table_name@ == USER_TABLE@
    &&& request.key.0@ == Field::Username.key_spec()
    &&& is_text(request.key.1, user.username)
    &&& request.condition_expression is None
    &&& request.update_expression@ == PUT_USER_EXPRESSION@
    &&& request.expression_attribute_values@.len() == 3
    &&& request.expression_attribute_values@[0].0@ == ":first_name"@
    &&& is_text(request.expression_attribute_values@[0].1, user.first_name)
    &&& request.expression_attribute_values@[1].0@ == ":last_name"@
    &&& is_text(request.expression_attribute_values@[1].1, user.last_name)
    &&& request.expression_attribute_values@[2].0@ == ":none"@
    &&& request.expression_attribute_values@[2].1 matches AttributeValue::L(entries)
        && entries@.len() == 0
}

/// The keys of a record are three different texts, and so are those of a
/// price entry.
pub proof fn lemma_keys_differ()
    ensures
        Field::Coin.key_spec() != Field::Amount.key_spec(),
        Field::Coin.key_spec() != Field::Price.key_spec(),
        Field::Amount.key_spec() != Field::Price.key_spec(),
        Field::Name.key_spec() != Field::Symbol.key_spec(),
        Field::Name.key_spec() != Field::Price.key_spec(),
        Field::Symbol.key_spec() != Field::Price.key_spec(),
{
    reveal_strlit("coin");
    reveal_strlit("amount");
    reveal_strlit("price");
    reveal_strlit("name");
    reveal_strlit("symbol");
    assert("coin"@.len() == 4);
    assert("amount"@.len() == 6);
    assert("price"@.len() == 5);
    assert("name"@.len() == 4);
    assert("symbol"@.len() == 6);
}

/// What is written for a record reads back as the record: the store holds
/// the amount and the price as the texts that the record holds.
pub proof fn lemma_record_round_trip(
    entry: AttributeValue,
    record: TransactionView,
    username: Seq<char>,
)
    requires
        entry matches AttributeValue::M(fields) && is_record_item(fields@, record),
        is_real_text(record.amount),
        is_real_text(record.price),
    ensures
        record_of(entry, username) == Ok::<TransactionView, crate::errors::DecodeError>(
            TransactionView {
                username,
                coin: record.coin,
                amount: record.amount,
                price: record.price,
            },
        ),
{
    let fields = entry->M_0@;
    lemma_keys_differ();
    lemma_lookup_first(fields, Field::Coin.key_spec(), 0);
    lemma_lookup_first(fields, Field::Amount.key_spec(), 1);
    lemma_lookup_first(fields, Field::Price.key_spec(), 2);
}

/// What is written for a price entry reads back as the entry.
pub proof fn lemma_entry_round_trip(fields: Seq<(String, AttributeValue)>, entry: PriceEntryView)
    requires
        is_entry_item(fields, entry),
        is_real_text(entry.price),
    ensures
        entry_of(fields) == Ok::<PriceEntryView, crate::errors::DecodeError>(entry),
{
    lemma_keys_differ();
    lemma_lookup_first(fields, Field::Name.key_spec(), 0);
    lemma_lookup_first(fields, Field::Symbol.key_spec(), 1);
    lemma_lookup_first(fields, Field::Price.key_spec(), 2);
}

/// The record that a request for an append asks for.
pub open spec fn transaction_input(
    username: Seq<char>,
    coin: Seq<char>,
    amount: Seq<char>,
    price: Seq<char>,
) -> Result<TransactionView, InputError> {
    if username.len() == 0 {
        Err(InputError::EmptyField(Field::Username))
    } else if coin.len() == 0 {
        Err(InputError::EmptyField(Field::Coin))
    } else if !is_real_text(amount) {
        Err(InputError::MalformedNumber(Field::Amount))
    } else if !is_real_text(price) {
        Err(InputError::MalformedNumber(Field::Price))
    } else {
        Ok(TransactionView { username, coin, amount, price })
    }
}

/// Makes a record of the fields of a request. The username and the coin must
/// hold something, and the amount and the price must be texts of real
/// numbers.
pub fn new_transaction(username: &str, coin: &str, amount: &str, price: &str) -> (r: Result<
    Transaction,
    InputError,
>)
    ensures
        match r {
            Ok(record) => transaction_input(username@, coin@, amount@, price@) == Ok::<
                TransactionView,
                InputError,
            >(record.deep_view()),
            Err(e) => transaction_input(username@, coin@, amount@, price@) == Err::<
                TransactionView,
                InputError,
            >(e),
        },
{
    if username.is_empty() {
        return Err(InputError::EmptyField(Field::Username));
    }
    if coin.is_empty() {
        return Err(InputError::EmptyField(Field::Coin));
    }
    if !is_real(amount) {
        return Err(InputError::MalformedNumber(Field::Amount));
    }
    if !is_real(price) {
        return Err(InputError::MalformedNumber(Field::Price));
    }
    Ok(
        Transaction {
            username: owned(username),
            coin: owned(coin),
            amount: owned(amount),
            price: owned(price),
        },
    )
}

/// The fields under which a record is stored.
pub fn record_item(record: &Transaction) -> (r: Vec<(String, AttributeValue)>)
    ensures
        is_record_item(r@, record.deep_view()),
{
    let mut fields: Vec<(String, AttributeValue)> = Vec::new();
    fields.push((owned(Field::Coin.key()), AttributeValue::S(record.coin.clone())));
    fields.push((owned(Field::Amount.key()), AttributeValue::N(record.amount.clone())));
    fields.push((owned(Field::Price.key()), AttributeValue::N(record.price.clone())));
    fields
}

/// The fields under which a price entry is stored.
pub fn entry_item(entry: &PriceEntry) -> (r: Vec<(String, AttributeValue)>)
    ensures
        is_entry_item(r@, entry.deep_view()),
{
    let mut fields: Vec<(String, AttributeValue)> = Vec::new();
    fields.push((owned(Field::Name.key()), AttributeValue::S(entry.name.clone())));
    fields.push((owned(Field::Symbol.key()), AttributeValue::S(entry.symbol.clone())));
    fields.push((owned(Field::Price.key()), AttributeValue::N(entry.price.clone())));
    fields
}

/// The request that appends a record to the ledger of its owner, on
/// condition that the owner exists. A record without a username or a coin is
/// refused before anything is sent.
pub fn append_request(record: &Transaction) -> (r: Result<UpdateItem, InputError>)
    ensures
        match r {
            Ok(request) => record.username@.len() > 0 && record.coin@.len() > 0
                && is_append_request(request, record.deep_view()),
            Err(e) => if record.username@.len() == 0 {
                e == InputError::EmptyField(Field::Username)
            } else {
                record.coin@.len() == 0 && e == InputError::EmptyField(Field::Coin)
            },
        },
{
    if record.username.as_str().is_empty() {
        return Err(InputError::EmptyField(Field::Username));
    }
    if record.coin.as_str().is_empty() {
        return Err(InputError::EmptyField(Field::Coin));
    }
    let mut entries: Vec<AttributeValue> = Vec::new();
    entries.push(AttributeValue::M(record_item(record)));
    let mut values: Vec<(String, AttributeValue)> = Vec::new();
    values.push((owned(":trans"), AttributeValue::L(entries)));
    values.push((owned(":username"), AttributeValue::S(record.username.clone())));
    Ok(
        UpdateItem {
            table_name: owned(USER_TABLE),
            key: (owned(Field::Username.key()), AttributeValue::S(record.username.clone())),
            condition_expression: Some(owned(OWNER_CONDITION)),
            update_expression: owned(APPEND_EXPRESSION),
            expression_attribute_values: values,
        },
    )
}

/// What an append came to, given the store's answer: done, or not done
/// because the owner does not exist, or not done because the store failed.
pub open spec fn append_outcome(reply: StoreReplyView) -> Result<(), AppendErrorView> {
    match reply {
        StoreReplyView::Done => Ok(()),
        StoreReplyView::ConditionFailed => Err(AppendErrorView::OwnerNotFound),
        StoreReplyView::Unavailable(cause) => Err(AppendErrorView::StoreUnavailable(cause)),
    }
}

/// Reads the store's answer to an append.
pub fn conclude_append(reply: &StoreReply) -> (r: Result<(), AppendError>)
    ensures
        match r {
            Ok(()) => append_outcome(reply.deep_view()) == Ok::<(), AppendErrorView>(()),
            Err(e) => append_outcome(reply.deep_view()) == Err::<(), AppendErrorView>(
                e.deep_view(),
            ),
        },
{
    match reply {
        StoreReply::Done => Ok(()),
        StoreReply::ConditionFailed => Err(AppendError::OwnerNotFound),
        StoreReply::Unavailable(cause) => Err(AppendError::StoreUnavailable(cause.clone())),
    }
}

/// The request that puts a user: the names are written over the old ones,
/// the ledger of a user that exists is left alone. A request without a
/// username is refused before anything is sent.
pub fn put_user_request(user: &UserPutRequest) -> (r: Result<UpdateItem, InputError>)
    ensures
        match r {
            Ok(request) => user.username@.len() > 0 && is_put_user_request(
                request,
                user.deep_view(),
            ),
            Err(e) => user.username@.len() == 0 && e == InputError::EmptyField(Field::Username),
        },
{
    if user.username.as_str().is_empty() {
        return Err(InputError::EmptyField(Field::Username));
    }
    let mut values: Vec<(String, AttributeValue)> = Vec::new();
    values.push((owned(":first_name"), AttributeValue::S(user.first_name.clone())));
    values.push((owned(":last_name"), AttributeValue::S(user.last_name.clone())));
    values.push((owned(":none"), AttributeValue::L(Vec::new())));
    Ok(
        UpdateItem {
            table_name: owned(USER_TABLE),
            key: (owned(Field::Username.key()), AttributeValue::S(user.username.clone())),
            condition_expression: None,
            update_expression: owned(PUT_USER_EXPRESSION),
            expression_attribute_values: values,
        },
    )
}

/// The request that writes a price entry over the one of its symbol.
pub fn put_coin_request(entry: &PriceEntry) -> (r: PutItem)
    ensures
        r.table_name@ == COIN_TABLE@,
        is_entry_item(r.item@, entry.deep_view()),
{
    PutItem { table_name: owned(COIN_TABLE), item: entry_item(entry) }
}

/// The text that stands for a condition that did not hold, where a write had none.
pub const UNEXPECTED_CONDITION: &'static str = "the store checked a condition that was not asked for";

/// What a refresh came to, given the entry that was sent and the store's
/// answer: the entry, or the store's failure.
pub open spec fn refresh_outcome(entry: PriceEntryView, reply: StoreReplyView) -> Result<
    PriceEntryView,
    RefreshErrorView,
> {
    match reply {
        StoreReplyView::Done => Ok(entry),
        StoreReplyView::ConditionFailed => Err(
            RefreshErrorView::StoreWrite(UNEXPECTED_CONDITION@),
        ),
        StoreReplyView::Unavailable(cause) => Err(RefreshErrorView::StoreWrite(cause)),
    }
}

/// Reads the store's answer to the write of a price entry.
pub fn conclude_refresh(entry: PriceEntry, reply: &StoreReply) -> (r: Result<
    PriceEntry,
    RefreshError,
>)
    ensures
        match r {
            Ok(written) => refresh_outcome(entry.deep_view(), reply.deep_view()) == Ok::<
                PriceEntryView,
                RefreshErrorView,
            >(written.deep_view()),
            Err(e) => refresh_outcome(entry.deep_view(), reply.deep_view()) == Err::<
                PriceEntryView,
                RefreshErrorView,
            >(e.deep_view()),
        },
{
    match reply {
        StoreReply::Done => Ok(entry),
        StoreReply::ConditionFailed => Err(RefreshError::StoreWrite(owned(UNEXPECTED_CONDITION))),
        StoreReply::Unavailable(cause) => Err(RefreshError::StoreWrite(cause.clone())),
    }
}

} // verus!
