//! The store's side of the data: items as a key-value store hands them out,
//! untyped, and the reading of such items into the library's own types.
//!
//! Nothing here trusts an item to be what the library once wrote: an
//! attribute that is missing, of another type, or a number whose text denotes
//! no real number is an error with the field's name, never a crash.
use vstd::prelude::*;
use crate::number::{is_real, is_real_text};
use crate::errors::{DecodeError, Field};
use crate::text::str_eq;
use crate::types::{
    PriceEntry, PriceEntryView, Transaction, TransactionView, UserProfile, UserProfileView,
};

verus! {

/// The value of one attribute of an item.
#[derive(Debug, PartialEq, Eq)]
pub enum AttributeValue {
    /// A text.
    S(String),
    /// A number, as the text that denotes it.
    N(String),
    /// A list of values.
    L(Vec<AttributeValue>),
    /// A map from keys to values, as a list of pairs.
    M(Vec<(String, AttributeValue)>),
    /// A value of any other kind: none that the library writes.
    Other,
}

/// What a scan of a table returns.
#[derive(Debug, PartialEq, Eq)]
pub struct ScanOutput {
    /// The items of the table, where the scan was asked for items.
    pub items: Option<Vec<Vec<(String, AttributeValue)>>>,
}

/// The value that an item holds under a key: that of the first pair with the key.
pub open spec fn lookup(item: Seq<(String, AttributeValue)>, key: Seq<char>) -> Option<
    AttributeValue,
>
    decreases item.len(),
{
    if item.len() == 0 {
        None
    } else if item[0].0@ == key {
        Some(item[0].1)
    } else {
        lookup(item.drop_first(), key)
    }
}

/// The text that an item holds for a field.
pub open spec fn text_field(item: Seq<(String, AttributeValue)>, field: Field) -> Result<
    Seq<char>,
    DecodeError,
> {
    match lookup(item, field.key_spec()) {
        None => Err(DecodeError::MissingKey(field)),
        Some(AttributeValue::S(text)) => Ok(text@),
        Some(_) => Err(DecodeError::WrongType(field)),
    }
}

/// The number that an item holds for a field, as its text.
pub open spec fn number_field(item: Seq<(String, AttributeValue)>, field: Field) -> Result<
    Seq<char>,
    DecodeError,
> {
    match lookup(item, field.key_spec()) {
        None => Err(DecodeError::MissingKey(field)),
        Some(AttributeValue::N(text)) => if is_real_text(text@) {
            Ok(text@)
        } else {
            Err(DecodeError::MalformedNumber(field))
        },
        Some(_) => Err(DecodeError::WrongType(field)),
    }
}

/// The record that an entry of a stored ledger stands for: a map with an
/// amount, a coin and a price, read in that order.
pub open spec fn record_of(entry: AttributeValue, username: Seq<char>) -> Result<
    TransactionView,
    DecodeError,
> {
    match entry {
        AttributeValue::M(fields) => match number_field(fields@, Field::Amount) {
            Err(e) => Err(e),
            Ok(amount) => match text_field(fields@, Field::Coin) {
                Err(e) => Err(e),
                Ok(coin) => match number_field(fields@, Field::Price) {
                    Err(e) => Err(e),
                    Ok(price) => Ok(
                        TransactionView {
                            username,
                            coin,
                            amount,
                            price,
                        },
                    ),
                },
            },
        },
        _ => Err(DecodeError::NotARecord),
    }
}

/// The ledger that a stored list stands for: its records in order, or the
/// error of the first entry that is no record.
pub open spec fn ledger_of(entries: Seq<AttributeValue>, username: Seq<char>) -> Result<
    Seq<TransactionView>,
    DecodeError,
>
    decreases entries.len(),
{
    if entries.len() == 0 {
        Ok(Seq::empty())
    } else {
        match ledger_of(entries.drop_last(), username) {
            Err(e) => Err(e),
            Ok(front) => match record_of(entries.last(), username) {
                Err(e) => Err(e),
                Ok(record) => Ok(front.push(record)),
            },
        }
    }
}

/// The user that a stored item stands for: the two names, the username and
/// the ledger, read in that order.
pub open spec fn user_of(item: Seq<(String, AttributeValue)>) -> Result<
    UserProfileView,
    DecodeError,
> {
    match text_field(item, Field::FirstName) {
        Err(e) => Err(e),
        Ok(first_name) => match text_field(item, Field::LastName) {
            Err(e) => Err(e),
            Ok(last_name) => match text_field(item, Field::Username) {
                Err(e) => Err(e),
                Ok(username) => match lookup(item, Field::Transactions.key_spec()) {
                    None => Err(DecodeError::MissingKey(Field::Transactions)),
                    Some(AttributeValue::L(entries)) => match ledger_of(entries@, username) {
                        Err(e) => Err(e),
                        Ok(transactions) => Ok(
                            UserProfileView { username, first_name, last_name, transactions },
                        ),
                    },
                    Some(_) => Err(DecodeError::WrongType(Field::Transactions)),
                },
            },
        },
    }
}

/// The username that a stored item carries, or the empty text where it
/// carries none.
pub open spec fn username_of(item: Seq<(String, AttributeValue)>) -> Seq<char> {
    match text_field(item, Field::Username) {
        Ok(username) => username,
        Err(_) => Seq::empty(),
    }
}

/// The price entry that a stored item stands for: the name, the symbol and
/// the price, read in that order.
pub open spec fn entry_of(item: Seq<(String, AttributeValue)>) -> Result<
    PriceEntryView,
    DecodeError,
> {
    match text_field(item, Field::Name) {
        Err(e) => Err(e),
        Ok(name) => match text_field(item, Field::Symbol) {
            Err(e) => Err(e),
            Ok(symbol) => match number_field(item, Field::Price) {
                Err(e) => Err(e),
                Ok(price) => Ok(PriceEntryView { symbol, name, price }),
            },
        },
    }
}

/// The first pair with a key is the one that a lookup finds.
pub proof fn lemma_lookup_first(item: Seq<(String, AttributeValue)>, key: Seq<char>, i: int)
    requires
        0 <= i < item.len(),
        item[i].0@ == key,
        forall|j: int| 0 <= j < i ==> (#[trigger] item[j]).0@ != key,
    ensures
        lookup(item, key) == Some(item[i].1),
{
    lemma_lookup_skip(item, key, i);
    assert(item.skip(i)[0] == item[i]);
}

/// Looking a key up from the `i`-th pair on gives what the whole item gives,
/// where no earlier pair has the key.
proof fn lemma_lookup_skip(item: Seq<(String, AttributeValue)>, key: Seq<char>, i: int)
    requires
        0 <= i <= item.len(),
        forall|j: int| 0 <= j < i ==> (#[trigger] item[j]).0@ != key,
    ensures
        lookup(item, key) == lookup(item.skip(i), key),
    decreases i,
{
    if i == 0 {
        assert(item.skip(0) =~= item);
    } else {
        lemma_lookup_skip(item, key, i - 1);
        assert(item.skip(i - 1).drop_first() =~= item.skip(i));
        assert(item.skip(i - 1)[0] == item[i - 1]);
    }
}

/// The value that an item holds under a key.
pub fn get<'a>(item: &'a Vec<(String, AttributeValue)>, key: &str) -> (r: Option<
    &'a AttributeValue,
>)
    ensures
        match r {
            Some(value) => lookup(item@, key@) == Some(*value),
            None => lookup(item@, key@) is None,
        },
{
    let mut i: usize = 0;
    while i < item.len()
        invariant
            i <= item.len(),
            forall|j: int| 0 <= j < i ==> (#[trigger] item@[j]).0@ != key@,
        decreases item.len() - i,
    {
        proof {
            lemma_lookup_skip(item@, key@, i as int);
            assert(item@.skip(i as int)[0] == item@[i as int]);
        }
        if str_eq(item[i].0.as_str(), key) {
            return Some(&item[i].1);
        }
        i += 1;
    }
    proof {
        lemma_lookup_skip(item@, key@, item@.len() as int);
    }
    None
}

/// Reads the text that an item holds for a field.
pub fn get_text(item: &Vec<(String, AttributeValue)>, field: Field) -> (r: Result<
    String,
    DecodeError,
>)
    ensures
        match r {
            Ok(text) => text_field(item@, field) == Ok::<Seq<char>, DecodeError>(text@),
            Err(e) => text_field(item@, field) == Err::<Seq<char>, DecodeError>(e),
        },
{
    match get(item, field.key()) {
        None => Err(DecodeError::MissingKey(field)),
        Some(AttributeValue::S(text)) => Ok(text.clone()),
        Some(_) => Err(DecodeError::WrongType(field)),
    }
}

/// Reads the number that an item holds for a field, as its text.
pub fn get_number(item: &Vec<(String, AttributeValue)>, field: Field) -> (r: Result<
    String,
    DecodeError,
>)
    ensures
        match r {
            Ok(text) => number_field(item@, field) == Ok::<Seq<char>, DecodeError>(text@),
            Err(e) => number_field(item@, field) == Err::<Seq<char>, DecodeError>(e),
        },
{
    match get(item, field.key()) {
        None => Err(DecodeError::MissingKey(field)),
        Some(AttributeValue::N(text)) => if is_real(text.as_str()) {
            Ok(text.clone())
        } else {
            Err(DecodeError::MalformedNumber(field))
        },
        Some(_) => Err(DecodeError::WrongType(field)),
    }
}

/// Reads one entry of a stored ledger as a record of `username`.
pub fn decode_record(entry: &AttributeValue, username: &str) -> (r: Result<
    Transaction,
    DecodeError,
>)
    ensures
        match r {
            Ok(record) => record_of(*entry, username@) == Ok::<TransactionView, DecodeError>(
                record.deep_view(),
            ),
            Err(e) => record_of(*entry, username@) == Err::<TransactionView, DecodeError>(e),
        },
{
    match entry {
        AttributeValue::M(fields) => {
            let amount = match get_number(fields, Field::Amount) {
                Ok(amount) => amount,
                Err(e) => {
                    return Err(e);
                },
            };
            let coin = match get_text(fields, Field::Coin) {
                Ok(coin) => coin,
                Err(e) => {
                    return Err(e);
                },
            };
            let price = match get_number(fields, Field::Price) {
                Ok(price) => price,
                Err(e) => {
                    return Err(e);
                },
            };
            Ok(Transaction { username: username.to_owned(), coin, amount, price })
        },
        _ => Err(DecodeError::NotARecord),
    }
}

/// Reads a stored list as the ledger of `username`. The first entry that is
/// no record fails the whole ledger.
pub fn decode_ledger(entries: &Vec<AttributeValue>, username: &str) -> (r: Result<
    Vec<Transaction>,
    DecodeError,
>)
    ensures
        match r {
            Ok(ledger) => ledger_of(entries@, username@) == Ok::<
                Seq<TransactionView>,
                DecodeError,
            >(ledger.deep_view()),
            Err(e) => ledger_of(entries@, username@) == Err::<Seq<TransactionView>, DecodeError>(
                e,
            ),
        },
{
    let mut ledger: Vec<Transaction> = Vec::new();
    let mut i: usize = 0;
    assert(entries@.take(0) =~= Seq::<AttributeValue>::empty());
    assert(ledger.deep_view() =~= Seq::<TransactionView>::empty());
    while i < entries.len()
        invariant
            i <= entries.len(),
            ledger_of(entries@.take(i as int), username@) == Ok::<
                Seq<TransactionView>,
                DecodeError,
            >(ledger.deep_view()),
        decreases entries.len() - i,
    {
        proof {
            assert(entries@.take(i + 1).drop_last() =~= entries@.take(i as int));
            assert(entries@.take(i + 1).last() == entries@[i as int]);
        }
        let ghost before = ledger.deep_view();
        match decode_record(&entries[i], username) {
            Ok(record) => {
                let ghost view = record.deep_view();
                ledger.push(record);
                assert(ledger.deep_view() =~= before.push(view));
            },
            Err(e) => {
                proof {
                    lemma_ledger_error_stays(entries@, username@, i + 1);
                }
                return Err(e);
            },
        }
        i += 1;
    }
    assert(entries@.take(entries@.len() as int) =~= entries@);
    Ok(ledger)
}

/// Once a prefix of a stored list fails to be a ledger, the whole list fails
/// with the same error.
pub proof fn lemma_ledger_error_stays(entries: Seq<AttributeValue>, username: Seq<char>, n: int)
    requires
        0 <= n <= entries.len(),
        ledger_of(entries.take(n), username) is Err,
    ensures
        ledger_of(entries, username) == ledger_of(entries.take(n), username),
    decreases entries.len() - n,
{
    if n == entries.len() {
        assert(entries.take(n) =~= entries);
    } else {
        assert(entries.take(n + 1).drop_last() =~= entries.take(n));
        lemma_ledger_error_stays(entries, username, n + 1);
    }
}

/// Reads a stored item as a user with the ledger.
pub fn decode_user(item: &Vec<(String, AttributeValue)>) -> (r: Result<UserProfile, DecodeError>)
    ensures
        match r {
            Ok(user) => user_of(item@) == Ok::<UserProfileView, DecodeError>(user.deep_view()),
            Err(e) => user_of(item@) == Err::<UserProfileView, DecodeError>(e),
        },
{
    let first_name = match get_text(item, Field::FirstName) {
        Ok(text) => text,
        Err(e) => {
            return Err(e);
        },
    };
    let last_name = match get_text(item, Field::LastName) {
        Ok(text) => text,
        Err(e) => {
            return Err(e);
        },
    };
    let username = match get_text(item, Field::Username) {
        Ok(text) => text,
        Err(e) => {
            return Err(e);
        },
    };
    match get(item, Field::Transactions.key()) {
        None => Err(DecodeError::MissingKey(Field::Transactions)),
        Some(AttributeValue::L(entries)) => match decode_ledger(entries, username.as_str()) {
            Ok(transactions) => Ok(UserProfile { username, first_name, last_name, transactions }),
            Err(e) => Err(e),
        },
        Some(_) => Err(DecodeError::WrongType(Field::Transactions)),
    }
}

/// The username that a stored item carries, or the empty text.
pub fn decode_username(item: &Vec<(String, AttributeValue)>) -> (r: String)
    ensures
        r@ == username_of(item@),
{
    match get_text(item, Field::Username) {
        Ok(username) => username,
        Err(_) => String::new(),
    }
}

/// Reads a stored item as an entry of the price snapshot.
pub fn decode_entry(item: &Vec<(String, AttributeValue)>) -> (r: Result<PriceEntry, DecodeError>)
    ensures
        match r {
            Ok(entry) => entry_of(item@) == Ok::<PriceEntryView, DecodeError>(entry.deep_view()),
            Err(e) => entry_of(item@) == Err::<PriceEntryView, DecodeError>(e),
        },
{
    let name = match get_text(item, Field::Name) {
        Ok(text) => text,
        Err(e) => {
            return Err(e);
        },
    };
    let symbol = match get_text(item, Field::Symbol) {
        Ok(text) => text,
        Err(e) => {
            return Err(e);
        },
    };
    match get_number(item, Field::Price) {
        Ok(price) => Ok(PriceEntry { symbol, name, price }),
        Err(e) => Err(e),
    }
}

} // verus!
