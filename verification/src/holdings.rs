//! The aggregation at the heart of a valuation, without its arithmetic.
//!
//! A ledger is grouped by coin, the amounts of each group in ledger order.
//! The caller sums each group in floating point, in that order, and says of
//! each sum whether it is exactly zero. The sums that are not zero are then
//! joined with the prices.
use vstd::prelude::*;
use crate::types::{Coin, CoinView, PriceEntry, PriceEntryView, Transaction, TransactionView};

verus! {

/// The amounts of the records of `ledger` whose coin is `symbol`, in ledger order.
pub open spec fn amounts_of(ledger: Seq<TransactionView>, symbol: Seq<char>) -> Seq<Seq<char>>
    decreases ledger.len(),
{
    if ledger.len() == 0 {
        Seq::empty()
    } else if ledger.last().coin == symbol {
        amounts_of(ledger.drop_last(), symbol).push(ledger.last().amount)
    } else {
        amounts_of(ledger.drop_last(), symbol)
    }
}

/// The symbols of a ledger, each once, in the order of their first record.
pub open spec fn coins_seen(ledger: Seq<TransactionView>) -> Seq<Seq<char>>
    decreases ledger.len(),
{
    if ledger.len() == 0 {
        Seq::empty()
    } else {
        let before = coins_seen(ledger.drop_last());
        if before.contains(ledger.last().coin) {
            before
        } else {
            before.push(ledger.last().coin)
        }
    }
}

/// The records of one coin of a ledger: their amounts, in ledger order.
#[derive(Debug, Clone, PartialEq, Eq)]
pub struct Group {
    pub symbol: String,
    pub amounts: Vec<String>,
}

pub struct GroupView {
    pub symbol: Seq<char>,
    pub amounts: Seq<Seq<char>>,
}

impl DeepView for Group {
    type V = GroupView;

    open spec fn deep_view(&self) -> GroupView {
        GroupView { symbol: self.symbol@, amounts: self.amounts.deep_view() }
    }
}

/// The groups of a ledger: one for each of its symbols, in the order of
/// their first record, each with the amounts of its symbol in ledger order.
pub open spec fn groups(ledger: Seq<TransactionView>) -> Seq<GroupView> {
    Seq::new(
        coins_seen(ledger).len(),
        |k: int|
            GroupView {
                symbol: coins_seen(ledger)[k],
                amounts: amounts_of(ledger, coins_seen(ledger)[k]),
            },
    )
}

/// The net amount of one coin: the sum of a group, as the caller computed
/// it, and whether that sum is exactly zero.
#[derive(Debug, Clone, PartialEq, Eq)]
pub struct Position {
    pub symbol: String,
    /// The text of the sum.
    pub amount: String,
    /// Whether the sum is exactly zero: the position is closed.
    pub zero: bool,
}

pub struct PositionView {
    pub symbol: Seq<char>,
    pub amount: Seq<char>,
    pub zero: bool,
}

impl DeepView for Position {
    type V = PositionView;

    open spec fn deep_view(&self) -> PositionView {
        PositionView { symbol: self.symbol@, amount: self.amount@, zero: self.zero }
    }
}

/// The index of the first position at or after `from` that has the symbol,
/// or the number of positions where there is none.
pub open spec fn position_index(positions: Seq<PositionView>, symbol: Seq<char>, from: int) -> int
    decreases positions.len() - from,
{
    if from < 0 || from >= positions.len() {
        positions.len() as int
    } else if positions[from].symbol == symbol {
        from
    } else {
        position_index(positions, symbol, from + 1)
    }
}

/// Whether a price entry gives a holding: its symbol has a position, and
/// the position is not closed.
pub open spec fn is_held(positions: Seq<PositionView>, entry: PriceEntryView) -> bool {
    let k = position_index(positions, entry.symbol, 0);
    k < positions.len() && !positions[k].zero
}

/// The holding that the positions give for a price entry.
pub open spec fn holding(positions: Seq<PositionView>, entry: PriceEntryView) -> CoinView {
    CoinView {
        name: entry.name,
        symbol: entry.symbol,
        price: entry.price,
        amount: positions[position_index(positions, entry.symbol, 0)].amount,
    }
}

/// The holdings that positions give against a price snapshot: for each
/// entry of the snapshot, in its order, the holding in that coin, unless the
/// coin has no position or a closed one. A position whose coin has no entry
/// gives no holding.
pub open spec fn holdings(positions: Seq<PositionView>, snapshot: Seq<PriceEntryView>) -> Seq<
    CoinView,
>
    decreases snapshot.len(),
{
    if snapshot.len() == 0 {
        Seq::empty()
    } else {
        let rest = holdings(positions, snapshot.drop_last());
        if is_held(positions, snapshot.last()) {
            rest.push(holding(positions, snapshot.last()))
        } else {
            rest
        }
    }
}

/// One more record adds its amount at the end of the amounts of its own
/// coin and to no other.
pub proof fn lemma_amounts_push(
    ledger: Seq<TransactionView>,
    record: TransactionView,
    symbol: Seq<char>,
)
    ensures
        amounts_of(ledger.push(record), symbol) == if record.coin == symbol {
            amounts_of(ledger, symbol).push(record.amount)
        } else {
            amounts_of(ledger, symbol)
        },
{
    assert(ledger.push(record).drop_last() =~= ledger);
}

/// A ledger that grows by appends keeps, for each symbol, the amounts
/// that were there, in their order, and has the appended ones after them.
pub proof fn lemma_amounts_concat(
    ledger: Seq<TransactionView>,
    appended: Seq<TransactionView>,
    symbol: Seq<char>,
)
    ensures
        amounts_of(ledger + appended, symbol) == amounts_of(ledger, symbol) + amounts_of(
            appended,
            symbol,
        ),
    decreases appended.len(),
{
    if appended.len() == 0 {
        assert(ledger + appended =~= ledger);
        assert(amounts_of(ledger, symbol) + Seq::<Seq<char>>::empty() =~= amounts_of(
            ledger,
            symbol,
        ));
    } else {
        assert((ledger + appended).drop_last() =~= ledger + appended.drop_last());
        lemma_amounts_concat(ledger, appended.drop_last(), symbol);
        let front = amounts_of(ledger, symbol) + amounts_of(appended.drop_last(), symbol);
        if appended.last().coin == symbol {
            assert(front.push(appended.last().amount) =~= amounts_of(ledger, symbol) + amounts_of(
                appended,
                symbol,
            ));
        }
    }
}

/// A coin that no record names has no amounts.
pub proof fn lemma_amounts_absent(ledger: Seq<TransactionView>, symbol: Seq<char>)
    requires
        forall|i: int| 0 <= i < ledger.len() ==> (#[trigger] ledger[i]).coin != symbol,
    ensures
        amounts_of(ledger, symbol) == Seq::<Seq<char>>::empty(),
    decreases ledger.len(),
{
    if ledger.len() > 0 {
        let front = ledger.drop_last();
        assert forall|i: int| 0 <= i < front.len() implies (#[trigger] front[i]).coin
            != symbol by {
            assert(front[i] == ledger[i]);
        }
        lemma_amounts_absent(front, symbol);
        assert(ledger.last() == ledger[ledger.len() - 1]);
    }
}

/// The symbols seen are those that a record names, and none is seen twice.
pub proof fn lemma_coins_seen(ledger: Seq<TransactionView>)
    ensures
        coins_seen(ledger).no_duplicates(),
        forall|symbol: Seq<char>| #[trigger]
            coins_seen(ledger).contains(symbol) <==> exists|i: int|
                0 <= i < ledger.len() && (#[trigger] ledger[i]).coin == symbol,
    decreases ledger.len(),
{
    if ledger.len() > 0 {
        let front = ledger.drop_last();
        let last = ledger.last();
        let before = coins_seen(front);
        let after = coins_seen(ledger);
        lemma_coins_seen(front);
        assert(last == ledger[ledger.len() - 1]);
        assert forall|symbol: Seq<char>| #[trigger]
            after.contains(symbol) <==> exists|i: int|
                0 <= i < ledger.len() && (#[trigger] ledger[i]).coin == symbol by {
            if after.contains(symbol) {
                let k = choose|k: int| 0 <= k < after.len() && after[k] == symbol;
                if k < before.len() {
                    assert(before[k] == symbol);
                    assert(before.contains(symbol));
                    let i = choose|i: int| 0 <= i < front.len() && (#[trigger] front[i]).coin
                        == symbol;
                    assert(ledger[i] == front[i]);
                } else {
                    assert(symbol == last.coin);
                }
            }
            if exists|i: int| 0 <= i < ledger.len() && (#[trigger] ledger[i]).coin == symbol {
                let i = choose|i: int| 0 <= i < ledger.len() && (#[trigger] ledger[i]).coin
                    == symbol;
                if i < front.len() {
                    assert(front[i] == ledger[i]);
                    assert(before.contains(symbol));
                    let k = choose|k: int| 0 <= k < before.len() && before[k] == symbol;
                    assert(after[k] == symbol);
                } else {
                    if before.contains(last.coin) {
                    } else {
                        assert(after[before.len() as int] == last.coin);
                    }
                }
            }
        }
    }
}

/// A record of a coin that has a group adds its amount at the end of that
/// group and leaves the others as they are.
pub proof fn lemma_groups_update(before: Seq<TransactionView>, record: TransactionView, k: int)
    requires
        0 <= k < coins_seen(before).len(),
        coins_seen(before)[k] == record.coin,
    ensures
        groups(before.push(record)) == groups(before).update(
            k,
            GroupView {
                symbol: record.coin,
                amounts: amounts_of(before, record.coin).push(record.amount),
            },
        ),
{
    let after = before.push(record);
    let seen = coins_seen(before);
    assert(after.drop_last() =~= before);
    assert(seen.contains(record.coin));
    assert(coins_seen(after) == seen);
    lemma_coins_seen(before);
    let expected = groups(before).update(
        k,
        GroupView { symbol: record.coin, amounts: amounts_of(before, record.coin).push(record.amount) },
    );
    assert forall|j: int| 0 <= j < seen.len() implies groups(after)[j] == expected[j] by {
        lemma_amounts_push(before, record, seen[j]);
    }
    assert(groups(after) =~= expected);
}

/// A record of a coin that has no group yet opens one, after the others,
/// with its own amount.
pub proof fn lemma_groups_insert(before: Seq<TransactionView>, record: TransactionView)
    requires
        !coins_seen(before).contains(record.coin),
    ensures
        groups(before.push(record)) == groups(before).push(
            GroupView { symbol: record.coin, amounts: seq![record.amount] },
        ),
{
    let after = before.push(record);
    let seen = coins_seen(before);
    assert(after.drop_last() =~= before);
    assert(coins_seen(after) == seen.push(record.coin));
    lemma_coins_seen(before);
    assert forall|j: int| 0 <= j < before.len() implies (#[trigger] before[j]).coin
        != record.coin by {
        if before[j].coin == record.coin {
            assert(seen.contains(record.coin));
        }
    }
    lemma_amounts_absent(before, record.coin);
    lemma_amounts_push(before, record, record.coin);
    assert(Seq::<Seq<char>>::empty().push(record.amount) =~= seq![record.amount]);
    let expected = groups(before).push(
        GroupView { symbol: record.coin, amounts: seq![record.amount] },
    );
    assert forall|j: int| 0 <= j < seen.len() implies groups(after)[j] == expected[j] by {
        lemma_amounts_push(before, record, seen[j]);
        assert(seen.contains(seen[j]));
    }
    assert(groups(after) =~= expected);
}

/// The index of the group of a symbol, if it has one.
fn find_group(groups: &Vec<Group>, symbol: &String) -> (r: Option<usize>)
    ensures
        match r {
            Some(k) => k < groups.len() && groups.deep_view()[k as int].symbol == symbol@,
            None => forall|k: int|
                0 <= k < groups.deep_view().len() ==> (#[trigger] groups.deep_view()[k]).symbol
                    != symbol@,
        },
{
    let mut k: usize = 0;
    while k < groups.len()
        invariant
            k <= groups.len(),
            forall|j: int| 0 <= j < k ==> (#[trigger] groups.deep_view()[j]).symbol != symbol@,
        decreases groups.len() - k,
    {
        assert(groups.deep_view()[k as int] == groups@[k as int].deep_view());
        if groups[k].symbol == *symbol {
            return Some(k);
        }
        k += 1;
    }
    None
}

/// Groups a ledger by coin: for each symbol, in the order of its first
/// record, the amounts of its records in ledger order.
pub fn group_by_coin(ledger: &Vec<Transaction>) -> (r: Vec<Group>)
    ensures
        r.deep_view() == groups(ledger.deep_view()),
{
    let ghost all = ledger.deep_view();
    let mut result: Vec<Group> = Vec::new();
    let mut i: usize = 0;
    assert(all.take(0) =~= Seq::<TransactionView>::empty());
    assert(result.deep_view() =~= groups(all.take(0)));
    while i < ledger.len()
        invariant
            i <= ledger.len(),
            all == ledger.deep_view(),
            result.deep_view() == groups(all.take(i as int)),
        decreases ledger.len() - i,
    {
        let record = &ledger[i];
        let ghost before = all.take(i as int);
        let ghost after = all.take(i + 1);
        let ghost old_groups = result.deep_view();
        proof {
            assert(all[i as int] == record.deep_view());
            assert(after =~= before.push(record.deep_view()));
            assert(old_groups.len() == coins_seen(before).len());
        }
        match find_group(&result, &record.coin) {
            Some(k) => {
                proof {
                    assert(old_groups[k as int].symbol == coins_seen(before)[k as int]);
                    assert(old_groups[k as int] == result@[k as int].deep_view());
                    lemma_groups_update(before, record.deep_view(), k as int);
                }
                let ghost amounts = result[k as int].amounts.deep_view();
                result[k].amounts.push(record.amount.clone());
                assert(result[k as int].amounts.deep_view() =~= amounts.push(record.amount@));
                assert(result.deep_view() =~= groups(after));
            },
            None => {
                proof {
                    assert forall|j: int| 0 <= j < coins_seen(before).len() implies coins_seen(
                        before,
                    )[j] != record.coin@ by {
                        assert(old_groups[j].symbol == coins_seen(before)[j]);
                    }
                    lemma_groups_insert(before, record.deep_view());
                }
                let mut amounts: Vec<String> = Vec::new();
                amounts.push(record.amount.clone());
                assert(amounts.deep_view() =~= seq![record.amount@]);
                result.push(Group { symbol: record.coin.clone(), amounts });
                assert(result.deep_view() =~= groups(after));
            },
        }
        i += 1;
    }
    assert(all.take(ledger.len() as int) =~= all);
    result
}

/// The index of the position of a symbol is that of a position with the
/// symbol, no position before it has the symbol, and it is the number of
/// positions only where none has.
pub proof fn lemma_position_index(positions: Seq<PositionView>, symbol: Seq<char>, from: int)
    requires
        0 <= from <= positions.len(),
    ensures
        from <= position_index(positions, symbol, from) <= positions.len(),
        forall|j: int|
            from <= j < position_index(positions, symbol, from) ==> (#[trigger] positions[j]).symbol
                != symbol,
        position_index(positions, symbol, from) < positions.len() ==> positions[position_index(
            positions,
            symbol,
            from,
        )].symbol == symbol,
    decreases positions.len() - from,
{
    if from < positions.len() && positions[from].symbol != symbol {
        lemma_position_index(positions, symbol, from + 1);
    }
}

/// The index of the first position of a symbol, if it has one.
pub fn find_position(positions: &Vec<Position>, symbol: &String) -> (r: Option<usize>)
    ensures
        match r {
            Some(k) => k < positions.len() && k == position_index(
                positions.deep_view(),
                symbol@,
                0,
            ),
            None => position_index(positions.deep_view(), symbol@, 0) == positions.len(),
        },
{
    let ghost all = positions.deep_view();
    let mut k: usize = 0;
    proof {
        lemma_position_index(all, symbol@, 0);
    }
    while k < positions.len()
        invariant
            k <= positions.len(),
            all == positions.deep_view(),
            k <= position_index(all, symbol@, 0) <= all.len(),
            position_index(all, symbol@, 0) < all.len() ==> all[position_index(
                all,
                symbol@,
                0,
            )].symbol == symbol@,
            forall|j: int|
                0 <= j < position_index(all, symbol@, 0) ==> (#[trigger] all[j]).symbol != symbol@,
        decreases positions.len() - k,
    {
        assert(all[k as int] == positions@[k as int].deep_view());
        if positions[k].symbol == *symbol {
            return Some(k);
        }
        k += 1;
    }
    None
}

/// Joins positions with the entries of a price snapshot: one holding for
/// each entry, in the snapshot's order, whose coin has a position that is
/// not closed. A closed position, or one whose coin has no entry, is left
/// out.
pub fn aggregate(positions: &Vec<Position>, snapshot: &Vec<PriceEntry>) -> (coins: Vec<Coin>)
    ensures
        coins.deep_view() == holdings(positions.deep_view(), snapshot.deep_view()),
{
    let ghost all = positions.deep_view();
    let ghost entries = snapshot.deep_view();
    let mut coins: Vec<Coin> = Vec::new();
    let mut i: usize = 0;
    assert(entries.take(0) =~= Seq::<PriceEntryView>::empty());
    assert(coins.deep_view() =~= holdings(all, entries.take(0)));
    while i < snapshot.len()
        invariant
            i <= snapshot.len(),
            all == positions.deep_view(),
            entries == snapshot.deep_view(),
            coins.deep_view() == holdings(all, entries.take(i as int)),
        decreases snapshot.len() - i,
    {
        let entry = &snapshot[i];
        let ghost old_coins = coins.deep_view();
        proof {
            assert(entries.take(i + 1).drop_last() =~= entries.take(i as int));
            assert(entries[i as int] == entry.deep_view());
            assert(entries.take(i + 1).last() == entry.deep_view());
        }
        match find_position(positions, &entry.symbol) {
            Some(k) => {
                assert(all[k as int] == positions@[k as int].deep_view());
                if !positions[k].zero {
                    coins.push(
                        Coin {
                            name: entry.name.clone(),
                            symbol: entry.symbol.clone(),
                            price: entry.price.clone(),
                            amount: positions[k].amount.clone(),
                        },
                    );
                    assert(coins.deep_view() =~= old_coins.push(holding(all, entry.deep_view())));
                }
            },
            None => {},
        }
        i += 1;
    }
    assert(entries.take(snapshot.len() as int) =~= entries);
    coins
}

/// The holdings are, exactly, the holdings in the coins of the snapshot that
/// are held.
pub proof fn lemma_holdings_members(positions: Seq<PositionView>, snapshot: Seq<PriceEntryView>)
    ensures
        forall|c: CoinView| #[trigger]
            holdings(positions, snapshot).contains(c) <==> exists|j: int|
                0 <= j < snapshot.len() && c == holding(positions, #[trigger] snapshot[j])
                    && is_held(positions, snapshot[j]),
    decreases snapshot.len(),
{
    let all = holdings(positions, snapshot);
    if snapshot.len() > 0 {
        let front = snapshot.drop_last();
        let rest = holdings(positions, front);
        lemma_holdings_members(positions, front);
        assert(snapshot.last() == snapshot[snapshot.len() - 1]);
        assert forall|c: CoinView| #[trigger]
            all.contains(c) <==> exists|j: int|
                0 <= j < snapshot.len() && c == holding(positions, #[trigger] snapshot[j])
                    && is_held(positions, snapshot[j]) by {
            if all.contains(c) {
                let k = choose|k: int| 0 <= k < all.len() && all[k] == c;
                if k < rest.len() {
                    assert(rest[k] == c);
                    assert(rest.contains(c));
                    let j = choose|j: int|
                        0 <= j < front.len() && c == holding(positions, #[trigger] front[j])
                            && is_held(positions, front[j]);
                    assert(snapshot[j] == front[j]);
                } else {
                    assert(c == holding(positions, snapshot[snapshot.len() - 1]));
                }
            }
            if exists|j: int|
                0 <= j < snapshot.len() && c == holding(positions, #[trigger] snapshot[j])
                    && is_held(positions, snapshot[j]) {
                let j = choose|j: int|
                    0 <= j < snapshot.len() && c == holding(positions, #[trigger] snapshot[j])
                        && is_held(positions, snapshot[j]);
                if j < front.len() {
                    assert(front[j] == snapshot[j]);
                    assert(rest.contains(c));
                    let k = choose|k: int| 0 <= k < rest.len() && rest[k] == c;
                    assert(all[k] == c);
                } else {
                    assert(all[rest.len() as int] == c);
                }
            }
        }
    }
}

/// Every holding carries the amount of the position of its symbol, and
/// that position is not closed.
pub proof fn lemma_holdings_exact(
    positions: Seq<PositionView>,
    snapshot: Seq<PriceEntryView>,
    k: int,
)
    requires
        0 <= k < holdings(positions, snapshot).len(),
    ensures
        ({
            let c = holdings(positions, snapshot)[k];
            let p = position_index(positions, c.symbol, 0);
            p < positions.len() && !positions[p].zero && c.amount == positions[p].amount
        }),
{
    lemma_holdings_members(positions, snapshot);
    assert(holdings(positions, snapshot).contains(holdings(positions, snapshot)[k]));
}

/// A symbol whose position is closed has no holding, whatever went into
/// the sum.
pub proof fn lemma_closed_position_has_no_holding(
    positions: Seq<PositionView>,
    snapshot: Seq<PriceEntryView>,
    symbol: Seq<char>,
)
    requires
        position_index(positions, symbol, 0) < positions.len(),
        positions[position_index(positions, symbol, 0)].zero,
    ensures
        forall|k: int|
            0 <= k < holdings(positions, snapshot).len() ==> (#[trigger] holdings(
                positions,
                snapshot,
            )[k]).symbol != symbol,
{
    assert forall|k: int| 0 <= k < holdings(positions, snapshot).len() implies (
    #[trigger] holdings(positions, snapshot)[k]).symbol != symbol by {
        lemma_holdings_exact(positions, snapshot, k);
    }
}

/// A symbol without an entry in the snapshot has no holding, whatever its
/// position.
pub proof fn lemma_unpriced_coin_has_no_holding(
    positions: Seq<PositionView>,
    snapshot: Seq<PriceEntryView>,
    symbol: Seq<char>,
)
    requires
        forall|j: int| 0 <= j < snapshot.len() ==> (#[trigger] snapshot[j]).symbol != symbol,
    ensures
        forall|k: int|
            0 <= k < holdings(positions, snapshot).len() ==> (#[trigger] holdings(
                positions,
                snapshot,
            )[k]).symbol != symbol,
{
    lemma_holdings_members(positions, snapshot);
    assert forall|k: int| 0 <= k < holdings(positions, snapshot).len() implies (
    #[trigger] holdings(positions, snapshot)[k]).symbol != symbol by {
        assert(holdings(positions, snapshot).contains(holdings(positions, snapshot)[k]));
    }
}

/// Without positions there are no holdings: an empty ledger has none.
pub proof fn lemma_no_positions_no_holdings(snapshot: Seq<PriceEntryView>)
    ensures
        holdings(Seq::empty(), snapshot) == Seq::<CoinView>::empty(),
    decreases snapshot.len(),
{
    if snapshot.len() > 0 {
        lemma_no_positions_no_holdings(snapshot.drop_last());
    }
}

} // verus!
