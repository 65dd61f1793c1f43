//! The valuation of users, in the three steps that it takes: the ledgers
//! are read and grouped by coin; the caller sums the groups, in floating
//! point; the sums are joined with one snapshot of the prices.
use vstd::prelude::*;
use crate::errors::{AggregationError, AggregationErrorView, DecodeError};
use crate::holdings::{
    aggregate, amounts_of, group_by_coin, groups, holding, holdings, is_held,
    lemma_amounts_concat, lemma_holdings_members, Group, GroupView, Position, PositionView,
};
use crate::ledger::{appended, has_user, ledger_of_user, lemma_appended, UserTable};
use crate::snapshot::{distinct_symbols, PriceSnapshot};
use crate::store::{decode_user, decode_username, user_of, username_of, AttributeValue, ScanOutput};
use crate::types::{
    Coin, PriceEntryView, TransactionView, UserGetResponse, UserGetResponseView, UserProfileView,
};

verus! {

/// A user with the ledger grouped by coin.
#[derive(Debug, Clone, PartialEq, Eq)]
pub struct UserGroups {
    pub username: String,
    pub first_name: String,
    pub last_name: String,
    pub groups: Vec<Group>,
}

pub struct UserGroupsView {
    pub username: Seq<char>,
    pub first_name: Seq<char>,
    pub last_name: Seq<char>,
    pub groups: Seq<GroupView>,
}

impl DeepView for UserGroups {
    type V = UserGroupsView;

    open spec fn deep_view(&self) -> UserGroupsView {
        UserGroupsView {
            username: self.username@,
            first_name: self.first_name@,
            last_name: self.last_name@,
            groups: self.groups.deep_view(),
        }
    }
}

/// A user with the net amount of each coin, as the caller summed it.
#[derive(Debug, Clone, PartialEq, Eq)]
pub struct UserPositions {
    pub username: String,
    pub first_name: String,
    pub last_name: String,
    pub positions: Vec<Position>,
}

pub struct UserPositionsView {
    pub username: Seq<char>,
    pub first_name: Seq<char>,
    pub last_name: Seq<char>,
    pub positions: Seq<PositionView>,
}

impl DeepView for UserPositions {
    type V = UserPositionsView;

    open spec fn deep_view(&self) -> UserPositionsView {
        UserPositionsView {
            username: self.username@,
            first_name: self.first_name@,
            last_name: self.last_name@,
            positions: self.positions.deep_view(),
        }
    }
}

/// The groups of the ledger of one user of a table; a username that nobody
/// has is an error, a user without records has no groups.
pub fn ledger_groups(users: &UserTable, username: &str) -> (r: Result<Vec<Group>, AggregationError>)
    ensures
        match r {
            Ok(found) => has_user(users.deep_view(), username@) && found.deep_view() == groups(
                ledger_of_user(users.deep_view(), username@),
            ),
            Err(e) => e.deep_view() == AggregationErrorView::UnknownUser && !has_user(
                users.deep_view(),
                username@,
            ),
        },
{
    match users.get(username) {
        Some(user) => Ok(group_by_coin(&user.transactions)),
        None => Err(AggregationError::UnknownUser),
    }
}

/// Computes the holdings that the positions of one user give against a
/// snapshot: the closed positions are dropped, the rest joined with the
/// prices, and the positions whose coin has no price are left out.
pub fn compute_holdings(positions: &Vec<Position>, snapshot: &PriceSnapshot) -> (r: Vec<Coin>)
    ensures
        r.deep_view() == holdings(positions.deep_view(), snapshot.deep_view()),
{
    aggregate(positions, snapshot.entries())
}

/// What the reading of one stored user gives: the user with the ledger
/// grouped by coin, or, where the item cannot be read, a failure that names
/// the user and the cause.
pub open spec fn user_groups_of(item: Seq<(String, AttributeValue)>) -> Result<
    UserGroupsView,
    AggregationErrorView,
> {
    match user_of(item) {
        Ok(user) => Ok(
            UserGroupsView {
                username: user.username,
                first_name: user.first_name,
                last_name: user.last_name,
                groups: groups(user.transactions),
            },
        ),
        Err(cause) => Err(
            AggregationErrorView::PartialFailure { username: username_of(item), cause },
        ),
    }
}

pub open spec fn groups_view(outcome: Result<UserGroups, AggregationError>) -> Result<
    UserGroupsView,
    AggregationErrorView,
> {
    match outcome {
        Ok(user) => Ok(user.deep_view()),
        Err(e) => Err(e.deep_view()),
    }
}

/// Reads one stored user and groups the ledger by coin.
pub fn user_groups(item: &Vec<(String, AttributeValue)>) -> (r: Result<
    UserGroups,
    AggregationError,
>)
    ensures
        groups_view(r) == user_groups_of(item@),
{
    match decode_user(item) {
        Ok(user) => {
            let grouped = group_by_coin(&user.transactions);
            Ok(
                UserGroups {
                    username: user.username,
                    first_name: user.first_name,
                    last_name: user.last_name,
                    groups: grouped,
                },
            )
        },
        Err(cause) => Err(
            AggregationError::PartialFailure { username: decode_username(item), cause },
        ),
    }
}

/// What the reading of every user gives: nothing where the scan has no
/// items, else one outcome for each item, in the order of the scan.
pub open spec fn all_user_groups_of(users: ScanOutput) -> Result<
    Seq<Result<UserGroupsView, AggregationErrorView>>,
    AggregationErrorView,
> {
    match users.items {
        None => Err(AggregationErrorView::Decode(DecodeError::NoItems)),
        Some(items) => Ok(Seq::new(items@.len(), |i: int| user_groups_of(items@[i]@))),
    }
}

pub open spec fn all_groups_view(outcomes: Seq<Result<UserGroups, AggregationError>>) -> Seq<
    Result<UserGroupsView, AggregationErrorView>,
> {
    Seq::new(outcomes.len(), |i: int| groups_view(outcomes[i]))
}

/// Reads every user of a scan and groups each ledger by coin. A user whose
/// item cannot be read fails alone: the outcome at that place names the
/// user, and the outcomes of the others are what they would be without
/// that user.
pub fn all_user_groups(users: &ScanOutput) -> (r: Result<
    Vec<Result<UserGroups, AggregationError>>,
    AggregationError,
>)
    ensures
        match r {
            Ok(outcomes) => all_user_groups_of(*users) == Ok::<
                Seq<Result<UserGroupsView, AggregationErrorView>>,
                AggregationErrorView,
            >(all_groups_view(outcomes@)),
            Err(e) => all_user_groups_of(*users) == Err::<
                Seq<Result<UserGroupsView, AggregationErrorView>>,
                AggregationErrorView,
            >(e.deep_view()),
        },
{
    let items = match &users.items {
        None => {
            return Err(AggregationError::Decode(DecodeError::NoItems));
        },
        Some(items) => items,
    };
    let mut outcomes: Vec<Result<UserGroups, AggregationError>> = Vec::new();
    let mut i: usize = 0;
    while i < items.len()
        invariant
            i <= items.len(),
            outcomes.len() == i,
            forall|j: int|
                0 <= j < i ==> groups_view(#[trigger] outcomes@[j]) == user_groups_of(items@[j]@),
        decreases items.len() - i,
    {
        let outcome = user_groups(&items[i]);
        outcomes.push(outcome);
        i += 1;
    }
    assert(all_groups_view(outcomes@) =~= Seq::new(
        items@.len(),
        |i: int| user_groups_of(items@[i]@),
    ));
    Ok(outcomes)
}

/// What the valuation of one user gives: the user with the holdings, or the
/// failure that the reading of the user gave.
pub open spec fn user_outcome(
    user: Result<UserPositionsView, AggregationErrorView>,
    entries: Seq<PriceEntryView>,
) -> Result<UserGetResponseView, AggregationErrorView> {
    match user {
        Ok(user) => Ok(
            UserGetResponseView {
                username: user.username,
                first_name: user.first_name,
                last_name: user.last_name,
                coins: holdings(user.positions, entries),
            },
        ),
        Err(e) => Err(e),
    }
}

pub open spec fn positions_view(user: Result<UserPositions, AggregationError>) -> Result<
    UserPositionsView,
    AggregationErrorView,
> {
    match user {
        Ok(user) => Ok(user.deep_view()),
        Err(e) => Err(e.deep_view()),
    }
}

pub open spec fn outcome_view(outcome: Result<UserGetResponse, AggregationError>) -> Result<
    UserGetResponseView,
    AggregationErrorView,
> {
    match outcome {
        Ok(user) => Ok(user.deep_view()),
        Err(e) => Err(e.deep_view()),
    }
}

/// Values one user against a snapshot; a user that could not be read stays
/// the failure that it is.
pub fn user_holdings(user: &Result<UserPositions, AggregationError>, snapshot: &PriceSnapshot) -> (r:
    Result<UserGetResponse, AggregationError>)
    ensures
        outcome_view(r) == user_outcome(positions_view(*user), snapshot.deep_view()),
{
    match user {
        Ok(user) => Ok(
            UserGetResponse {
                username: user.username.clone(),
                first_name: user.first_name.clone(),
                last_name: user.last_name.clone(),
                coins: aggregate(&user.positions, snapshot.entries()),
            },
        ),
        Err(AggregationError::UnknownUser) => Err(AggregationError::UnknownUser),
        Err(AggregationError::Decode(cause)) => Err(AggregationError::Decode(*cause)),
        Err(AggregationError::Snapshot(cause)) => Err(AggregationError::Snapshot(*cause)),
        Err(AggregationError::PartialFailure { username, cause }) => Err(
            AggregationError::PartialFailure { username: username.clone(), cause: *cause },
        ),
    }
}

/// What the valuation of every user gives: one outcome for each user, in
/// their order.
pub open spec fn all_outcomes(
    users: Seq<Result<UserPositions, AggregationError>>,
    entries: Seq<PriceEntryView>,
) -> Seq<Result<UserGetResponseView, AggregationErrorView>> {
    Seq::new(users.len(), |i: int| user_outcome(positions_view(users[i]), entries))
}

pub open spec fn outcomes_view(outcomes: Seq<Result<UserGetResponse, AggregationError>>) -> Seq<
    Result<UserGetResponseView, AggregationErrorView>,
> {
    Seq::new(outcomes.len(), |i: int| outcome_view(outcomes[i]))
}

/// Values every user against one snapshot. A user that could not be read
/// keeps the failure at its place, and the others are valued all the same.
pub fn compute_all_holdings(
    users: &Vec<Result<UserPositions, AggregationError>>,
    snapshot: &PriceSnapshot,
) -> (r: Vec<Result<UserGetResponse, AggregationError>>)
    ensures
        outcomes_view(r@) == all_outcomes(users@, snapshot.deep_view()),
{
    let ghost entries = snapshot.deep_view();
    let mut outcomes: Vec<Result<UserGetResponse, AggregationError>> = Vec::new();
    let mut i: usize = 0;
    while i < users.len()
        invariant
            i <= users.len(),
            entries == snapshot.deep_view(),
            outcomes.len() == i,
            forall|j: int|
                0 <= j < i ==> outcome_view(#[trigger] outcomes@[j]) == user_outcome(
                    positions_view(users@[j]),
                    entries,
                ),
        decreases users.len() - i,
    {
        let outcome = user_holdings(&users[i], snapshot);
        outcomes.push(outcome);
        i += 1;
    }
    assert(outcomes_view(outcomes@) =~= all_outcomes(users@, entries));
    outcomes
}

/// One user's failure is nobody else's: the outcome at each place is the
/// reading, and then the valuation, of the user at that place alone,
/// whatever the items at the other places hold.
pub proof fn lemma_outcomes_are_independent(
    scan: ScanOutput,
    users: Seq<Result<UserPositions, AggregationError>>,
    entries: Seq<PriceEntryView>,
    i: int,
)
    requires
        scan.items is Some,
        0 <= i < scan.items->0@.len(),
        0 <= i < users.len(),
    ensures
        all_user_groups_of(scan) is Ok,
        all_user_groups_of(scan)->Ok_0.len() == scan.items->0@.len(),
        all_user_groups_of(scan)->Ok_0[i] == user_groups_of(scan.items->0@[i]@),
        user_of(scan.items->0@[i]@) is Ok <==> all_user_groups_of(scan)->Ok_0[i] is Ok,
        all_outcomes(users, entries).len() == users.len(),
        all_outcomes(users, entries)[i] == user_outcome(positions_view(users[i]), entries),
        users[i] is Ok <==> all_outcomes(users, entries)[i] is Ok,
{
}

/// The users after a sequence of records was appended, one by one and in order.
pub open spec fn appended_all(users: Seq<UserProfileView>, records: Seq<TransactionView>) -> Seq<
    UserProfileView,
>
    decreases records.len(),
{
    if records.len() == 0 {
        users
    } else {
        appended(appended_all(users, records.drop_last()), records.last())
    }
}

/// The records of a sequence that belong to one user, in their order.
pub open spec fn records_of(records: Seq<TransactionView>, username: Seq<char>) -> Seq<
    TransactionView,
>
    decreases records.len(),
{
    if records.len() == 0 {
        Seq::empty()
    } else if records.last().username == username {
        records_of(records.drop_last(), username).push(records.last())
    } else {
        records_of(records.drop_last(), username)
    }
}

/// After any sequence of successful appends, the ledger of each user is the
/// ledger from before with that user's records at its end, in the order of
/// the appends: none lost, none twice, none moved.
pub proof fn lemma_appends_extend_ledger(
    users: Seq<UserProfileView>,
    records: Seq<TransactionView>,
    username: Seq<char>,
)
    requires
        forall|i: int| 0 <= i < records.len() ==> has_user(users, (#[trigger] records[i]).username),
    ensures
        has_user(appended_all(users, records), username) == has_user(users, username),
        ledger_of_user(appended_all(users, records), username) == ledger_of_user(users, username)
            + records_of(records, username),
    decreases records.len(),
{
    if records.len() == 0 {
        assert(ledger_of_user(users, username) + Seq::<TransactionView>::empty() =~= ledger_of_user(
            users,
            username,
        ));
    } else {
        let front = records.drop_last();
        let last = records.last();
        assert forall|i: int| 0 <= i < front.len() implies has_user(
            users,
            (#[trigger] front[i]).username,
        ) by {
            assert(front[i] == records[i]);
        }
        assert(last == records[records.len() - 1]);
        lemma_appends_extend_ledger(users, front, username);
        lemma_appends_extend_ledger(users, front, last.username);
        lemma_appended(appended_all(users, front), last, username);
        if last.username == username {
            assert((ledger_of_user(users, username) + records_of(front, username)).push(last)
                =~= ledger_of_user(users, username) + records_of(records, username));
        }
    }
}

/// After any sequence of successful appends, the amounts of each symbol in
/// a user's ledger are those that were there, followed by the amounts
/// that were appended for that user and symbol, in the order of the appends.
/// These are the amounts, and this the order, that the sum is taken over.
pub proof fn lemma_appends_amounts(
    users: Seq<UserProfileView>,
    records: Seq<TransactionView>,
    username: Seq<char>,
    symbol: Seq<char>,
)
    requires
        forall|i: int| 0 <= i < records.len() ==> has_user(users, (#[trigger] records[i]).username),
    ensures
        amounts_of(ledger_of_user(appended_all(users, records), username), symbol) == amounts_of(
            ledger_of_user(users, username),
            symbol,
        ) + amounts_of(records_of(records, username), symbol),
{
    lemma_appends_extend_ledger(users, records, username);
    lemma_amounts_concat(ledger_of_user(users, username), records_of(records, username), symbol);
}

/// Against a snapshot that has at most one entry for each symbol, there is
/// at most one holding for each symbol.
pub proof fn lemma_one_holding_for_each_symbol(
    positions: Seq<PositionView>,
    snapshot: Seq<PriceEntryView>,
    i: int,
    j: int,
)
    requires
        distinct_symbols(snapshot),
        0 <= i < j < holdings(positions, snapshot).len(),
    ensures
        holdings(positions, snapshot)[i].symbol != holdings(positions, snapshot)[j].symbol,
    decreases snapshot.len(),
{
    if snapshot.len() > 0 {
        let front = snapshot.drop_last();
        let last = snapshot.last();
        let rest = holdings(positions, front);
        assert(distinct_symbols(front)) by {
            assert forall|a: int, b: int| 0 <= a < b < front.len() implies (
            #[trigger] front[a]).symbol != (#[trigger] front[b]).symbol by {
                assert(front[a] == snapshot[a]);
                assert(front[b] == snapshot[b]);
            }
        }
        if j < rest.len() {
            lemma_one_holding_for_each_symbol(positions, front, i, j);
        } else {
            lemma_holdings_members(positions, front);
            assert(rest.contains(rest[i]));
            let m = choose|m: int|
                0 <= m < front.len() && rest[i] == holding(positions, #[trigger] front[m])
                    && is_held(positions, front[m]);
            assert(front[m] == snapshot[m]);
            assert(last == snapshot[snapshot.len() - 1]);
            assert(snapshot[m].symbol != snapshot[snapshot.len() - 1].symbol);
        }
    }
}

} // verus!
