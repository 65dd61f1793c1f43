//! The price snapshot: the latest known price of each coin, keyed by symbol.
//! A refresh replaces the entry of its symbol; nothing older is kept.
use vstd::prelude::*;
use crate::errors::DecodeError;
use crate::store::{decode_entry, entry_of, AttributeValue, ScanOutput};
use crate::types::{CoinPrice, CoinPriceView, PriceEntry, PriceEntryView};

verus! {

/// No two entries have the same symbol.
pub open spec fn distinct_symbols(entries: Seq<PriceEntryView>) -> bool {
    forall|i: int, j: int|
        0 <= i < j < entries.len() ==> (#[trigger] entries[i]).symbol != (
        #[trigger] entries[j]).symbol
}

/// The index of the first entry at or after `from` that has the symbol, or
/// the number of entries where there is none.
pub open spec fn symbol_index(entries: Seq<PriceEntryView>, symbol: Seq<char>, from: int) -> int
    decreases entries.len() - from,
{
    if from < 0 || from >= entries.len() {
        entries.len() as int
    } else if entries[from].symbol == symbol {
        from
    } else {
        symbol_index(entries, symbol, from + 1)
    }
}

pub open spec fn has_symbol(entries: Seq<PriceEntryView>, symbol: Seq<char>) -> bool {
    symbol_index(entries, symbol, 0) < entries.len()
}

/// The entries after one of them was written: it takes the place of the entry
/// of its symbol, or the last place where the symbol had none.
pub open spec fn upserted(entries: Seq<PriceEntryView>, entry: PriceEntryView) -> Seq<
    PriceEntryView,
> {
    if has_symbol(entries, entry.symbol) {
        entries.update(symbol_index(entries, entry.symbol, 0), entry)
    } else {
        entries.push(entry)
    }
}

/// What the entries know of a symbol.
pub open spec fn price_of(entries: Seq<PriceEntryView>, symbol: Seq<char>) -> Option<
    CoinPriceView,
> {
    if has_symbol(entries, symbol) {
        let entry = entries[symbol_index(entries, symbol, 0)];
        Some(CoinPriceView { name: entry.name, price: entry.price })
    } else {
        None
    }
}

/// The index of a symbol is that of an entry with the symbol, no entry
/// before it has the symbol, and it is the number of entries only where none has.
pub proof fn lemma_symbol_index(entries: Seq<PriceEntryView>, symbol: Seq<char>, from: int)
    requires
        0 <= from <= entries.len(),
    ensures
        from <= symbol_index(entries, symbol, from) <= entries.len(),
        forall|j: int|
            from <= j < symbol_index(entries, symbol, from) ==> (#[trigger] entries[j]).symbol
                != symbol,
        symbol_index(entries, symbol, from) < entries.len() ==> entries[symbol_index(
            entries,
            symbol,
            from,
        )].symbol == symbol,
    decreases entries.len() - from,
{
    if from < entries.len() && entries[from].symbol != symbol {
        lemma_symbol_index(entries, symbol, from + 1);
    }
}

/// The snapshot that the items of a scan stand for: each item written over
/// what the items before it left, or the error of the first item that is no
/// entry.
pub open spec fn snapshot_of(items: Seq<Vec<(String, AttributeValue)>>) -> Result<
    Seq<PriceEntryView>,
    DecodeError,
>
    decreases items.len(),
{
    if items.len() == 0 {
        Ok(Seq::empty())
    } else {
        match snapshot_of(items.drop_last()) {
            Err(e) => Err(e),
            Ok(front) => match entry_of(items.last()@) {
                Err(e) => Err(e),
                Ok(entry) => Ok(upserted(front, entry)),
            },
        }
    }
}

/// Writing an entry keeps the symbols distinct, makes the entry what is known
/// of its symbol, and leaves what is known of every other symbol as it was.
pub proof fn lemma_upserted(entries: Seq<PriceEntryView>, entry: PriceEntryView)
    ensures
        distinct_symbols(entries) ==> distinct_symbols(upserted(entries, entry)),
        price_of(upserted(entries, entry), entry.symbol) == Some(
            CoinPriceView { name: entry.name, price: entry.price },
        ),
        forall|other: Seq<char>|
            other != entry.symbol ==> #[trigger] price_of(upserted(entries, entry), other)
                == price_of(entries, other),
{
    let after = upserted(entries, entry);
    let at = symbol_index(entries, entry.symbol, 0);
    lemma_symbol_index(entries, entry.symbol, 0);
    lemma_symbol_index(after, entry.symbol, 0);
    assert(after[at] == entry);
    assert(symbol_index(after, entry.symbol, 0) == at) by {
        let k = symbol_index(after, entry.symbol, 0);
        if k < at {
            assert(after[k] == entries[k]);
        }
    }
    if distinct_symbols(entries) {
        assert forall|i: int, j: int| 0 <= i < j < after.len() implies (
        #[trigger] after[i]).symbol != (#[trigger] after[j]).symbol by {
            if i != at {
                assert(after[i] == entries[i]);
            }
            if j != at {
                assert(after[j] == entries[j]);
            }
        }
    }
    assert forall|other: Seq<char>| other != entry.symbol implies #[trigger] price_of(after, other)
        == price_of(entries, other) by {
        lemma_symbol_index(entries, other, 0);
        lemma_symbol_index(after, other, 0);
        let i = symbol_index(entries, other, 0);
        let j = symbol_index(after, other, 0);
        if i < entries.len() {
            assert(after[i] == entries[i]);
        }
        if j < after.len() {
            assert(j != at);
            assert(after[j] == entries[j]);
        }
        assert(i == j || (i == entries.len() && j == after.len()));
    }
}

/// A price snapshot: the entries in the order in which their symbols were
/// first written.
#[derive(Debug, Clone, PartialEq, Eq)]
pub struct PriceSnapshot {
    entries: Vec<PriceEntry>,
}

impl DeepView for PriceSnapshot {
    type V = Seq<PriceEntryView>;

    closed spec fn deep_view(&self) -> Seq<PriceEntryView> {
        self.entries.deep_view()
    }
}

impl PriceSnapshot {
    /// The invariant of a snapshot: at most one entry for each symbol.
    pub open spec fn wf(&self) -> bool {
        distinct_symbols(self.deep_view())
    }

    /// A snapshot without entries.
    pub fn new() -> (r: PriceSnapshot)
        ensures
            r.deep_view() == Seq::<PriceEntryView>::empty(),
            r.wf(),
    {
        let entries: Vec<PriceEntry> = Vec::new();
        assert(entries.deep_view() =~= Seq::<PriceEntryView>::empty());
        PriceSnapshot { entries }
    }

    /// The entries, in the order in which their symbols were first written.
    pub fn entries(&self) -> (r: &Vec<PriceEntry>)
        ensures
            r.deep_view() == self.deep_view(),
    {
        &self.entries
    }

    /// The index of the first entry of a symbol, if it has one.
    fn find(&self, symbol: &String) -> (r: Option<usize>)
        ensures
            match r {
                Some(k) => k < self.entries.len() && k == symbol_index(
                    self.deep_view(),
                    symbol@,
                    0,
                ),
                None => !has_symbol(self.deep_view(), symbol@),
            },
    {
        let ghost all = self.entries.deep_view();
        let mut k: usize = 0;
        proof {
            lemma_symbol_index(all, symbol@, 0);
        }
        while k < self.entries.len()
            invariant
                k <= self.entries.len(),
                all == self.entries.deep_view(),
                k <= symbol_index(all, symbol@, 0) <= all.len(),
                symbol_index(all, symbol@, 0) < all.len() ==> all[symbol_index(
                    all,
                    symbol@,
                    0,
                )].symbol == symbol@,
                forall|j: int|
                    0 <= j < symbol_index(all, symbol@, 0) ==> (#[trigger] all[j]).symbol
                        != symbol@,
            decreases self.entries.len() - k,
        {
            assert(all[k as int] == self.entries@[k as int].deep_view());
            if self.entries[k].symbol == *symbol {
                return Some(k);
            }
            k += 1;
        }
        None
    }

    /// What the snapshot knows of a symbol.
    pub fn get(&self, symbol: &String) -> (r: Option<CoinPrice>)
        ensures
            r.deep_view() == price_of(self.deep_view(), symbol@),
    {
        match self.find(symbol) {
            Some(k) => {
                assert(self.entries.deep_view()[k as int] == self.entries@[k as int].deep_view());
                Some(
                    CoinPrice { name: self.entries[k].name.clone(), price: self.entries[k].price.clone() },
                )
            },
            None => None,
        }
    }

    /// Writes an entry over the one of its symbol, or adds it where the
    /// symbol had none. Whatever was known of the symbol before is gone.
    pub fn upsert(&mut self, entry: PriceEntry)
        ensures
            final(self).deep_view() == upserted(old(self).deep_view(), entry.deep_view()),
            old(self).wf() ==> final(self).wf(),
    {
        proof {
            lemma_upserted(self.entries.deep_view(), entry.deep_view());
        }
        let ghost before = self.entries.deep_view();
        let ghost view = entry.deep_view();
        match self.find(&entry.symbol) {
            Some(k) => {
                self.entries.set(k, entry);
                assert(self.entries.deep_view() =~= before.update(k as int, view));
            },
            None => {
                self.entries.push(entry);
                assert(self.entries.deep_view() =~= before.push(view));
            },
        }
    }
}

/// Reads the items of a scan of the coin table as a price snapshot. An item
/// that is no entry fails the whole snapshot: every valuation depends on it.
pub fn get_items(scan: &ScanOutput) -> (r: Result<PriceSnapshot, DecodeError>)
    ensures
        match scan.items {
            None => r == Err::<PriceSnapshot, DecodeError>(DecodeError::NoItems),
            Some(items) => match r {
                Ok(snapshot) => snapshot.wf() && snapshot_of(items@) == Ok::<
                    Seq<PriceEntryView>,
                    DecodeError,
                >(snapshot.deep_view()),
                Err(e) => snapshot_of(items@) == Err::<Seq<PriceEntryView>, DecodeError>(e),
            },
        },
{
    let items = match &scan.items {
        None => {
            return Err(DecodeError::NoItems);
        },
        Some(items) => items,
    };
    let mut snapshot = PriceSnapshot::new();
    let mut i: usize = 0;
    assert(items@.take(0) =~= Seq::<Vec<(String, AttributeValue)>>::empty());
    while i < items.len()
        invariant
            i <= items.len(),
            scan.items == Some(*items),
            snapshot.wf(),
            snapshot_of(items@.take(i as int)) == Ok::<Seq<PriceEntryView>, DecodeError>(
                snapshot.deep_view(),
            ),
        decreases items.len() - i,
    {
        proof {
            assert(items@.take(i + 1).drop_last() =~= items@.take(i as int));
            assert(items@.take(i + 1).last() == items@[i as int]);
        }
        match decode_entry(&items[i]) {
            Ok(entry) => {
                snapshot.upsert(entry);
            },
            Err(e) => {
                proof {
                    lemma_snapshot_error_stays(items@, i + 1);
                }
                return Err(e);
            },
        }
        i += 1;
    }
    assert(items@.take(items@.len() as int) =~= items@);
    Ok(snapshot)
}

/// Once a prefix of the items fails to be a snapshot, all of them fail with
/// the same error.
pub proof fn lemma_snapshot_error_stays(items: Seq<Vec<(String, AttributeValue)>>, n: int)
    requires
        0 <= n <= items.len(),
        snapshot_of(items.take(n)) is Err,
    ensures
        snapshot_of(items) == snapshot_of(items.take(n)),
    decreases items.len() - n,
{
    if n == items.len() {
        assert(items.take(n) =~= items);
    } else {
        assert(items.take(n + 1).drop_last() =~= items.take(n));
        lemma_snapshot_error_stays(items, n + 1);
    }
}

/// The snapshot that the items of a scan stand for has at most one entry for
/// each symbol.
pub proof fn lemma_snapshot_distinct(items: Seq<Vec<(String, AttributeValue)>>)
    ensures
        snapshot_of(items) matches Ok(entries) ==> distinct_symbols(entries),
    decreases items.len(),
{
    if items.len() > 0 {
        lemma_snapshot_distinct(items.drop_last());
        if snapshot_of(items.drop_last()) is Ok && entry_of(items.last()@) is Ok {
            lemma_upserted(snapshot_of(items.drop_last())->Ok_0, entry_of(items.last()@)->Ok_0);
        }
    }
}

} // verus!
