//! The ledgers: for each user an append-only sequence of records, kept under
//! the username.
//!
//! A record is appended only where its owner exists, and then as a whole and
//! at the end. No record is ever changed or taken out.
use vstd::prelude::*;
use crate::errors::{AppendError, Field, InputError};
use crate::text::str_eq;
use crate::types::{
    Transaction, TransactionView, UserProfile, UserProfileView, UserPutRequest,
    UserPutRequestView,
};

verus! {

/// No two users have the same username.
pub open spec fn distinct_usernames(users: Seq<UserProfileView>) -> bool {
    forall|i: int, j: int|
        0 <= i < j < users.len() ==> (#[trigger] users[i]).username != (
        #[trigger] users[j]).username
}

/// The index of the first user at or after `from` that has the username, or
/// the number of users where there is none.
pub open spec fn user_index(users: Seq<UserProfileView>, username: Seq<char>, from: int) -> int
    decreases users.len() - from,
{
    if from < 0 || from >= users.len() {
        users.len() as int
    } else if users[from].username == username {
        from
    } else {
        user_index(users, username, from + 1)
    }
}

pub open spec fn has_user(users: Seq<UserProfileView>, username: Seq<char>) -> bool {
    user_index(users, username, 0) < users.len()
}

/// The ledger of a user; empty for a username that nobody has.
pub open spec fn ledger_of_user(users: Seq<UserProfileView>, username: Seq<char>) -> Seq<
    TransactionView,
> {
    if has_user(users, username) {
        users[user_index(users, username, 0)].transactions
    } else {
        Seq::empty()
    }
}

/// The users after a record was appended to the ledger of its owner, who exists.
pub open spec fn appended(users: Seq<UserProfileView>, record: TransactionView) -> Seq<
    UserProfileView,
> {
    let k = user_index(users, record.username, 0);
    users.update(
        k,
        UserProfileView {
            username: users[k].username,
            first_name: users[k].first_name,
            last_name: users[k].last_name,
            transactions: users[k].transactions.push(record),
        },
    )
}

/// The users after one was put: an existing user has the names replaced and
/// keeps the ledger, a new one comes last with an empty ledger.
pub open spec fn with_user(users: Seq<UserProfileView>, request: UserPutRequestView) -> Seq<
    UserProfileView,
> {
    let k = user_index(users, request.username, 0);
    if k < users.len() {
        users.update(
            k,
            UserProfileView {
                username: users[k].username,
                first_name: request.first_name,
                last_name: request.last_name,
                transactions: users[k].transactions,
            },
        )
    } else {
        users.push(
            UserProfileView {
                username: request.username,
                first_name: request.first_name,
                last_name: request.last_name,
                transactions: Seq::empty(),
            },
        )
    }
}

/// The index of a username is that of a user with the username, no user
/// before it has the username, and it is the number of users only where none has.
pub proof fn lemma_user_index(users: Seq<UserProfileView>, username: Seq<char>, from: int)
    requires
        0 <= from <= users.len(),
    ensures
        from <= user_index(users, username, from) <= users.len(),
        forall|j: int|
            from <= j < user_index(users, username, from) ==> (#[trigger] users[j]).username
                != username,
        user_index(users, username, from) < users.len() ==> users[user_index(
            users,
            username,
            from,
        )].username == username,
    decreases users.len() - from,
{
    if from < users.len() && users[from].username != username {
        lemma_user_index(users, username, from + 1);
    }
}

/// Replacing a user by one of the same username moves nobody: every
/// username is found where it was.
pub proof fn lemma_user_index_update(
    users: Seq<UserProfileView>,
    k: int,
    user: UserProfileView,
    username: Seq<char>,
)
    requires
        0 <= k < users.len(),
        user.username == users[k].username,
    ensures
        user_index(users.update(k, user), username, 0) == user_index(users, username, 0),
{
    let after = users.update(k, user);
    lemma_user_index(users, username, 0);
    lemma_user_index(after, username, 0);
    let i = user_index(users, username, 0);
    let j = user_index(after, username, 0);
    if i < users.len() {
        assert(after[i].username == users[i].username);
    }
    if j < users.len() {
        assert(after[j].username == users[j].username);
    }
}

/// An append reaches the ledger of the owner and no other: the owner's
/// ledger is the old one with the record at its end, with every earlier
/// record in place, and every other user's ledger is as it was.
pub proof fn lemma_appended(
    users: Seq<UserProfileView>,
    record: TransactionView,
    username: Seq<char>,
)
    requires
        has_user(users, record.username),
    ensures
        has_user(appended(users, record), username) == has_user(users, username),
        ledger_of_user(appended(users, record), username) == if username == record.username {
            ledger_of_user(users, username).push(record)
        } else {
            ledger_of_user(users, username)
        },
        distinct_usernames(users) ==> distinct_usernames(appended(users, record)),
{
    let k = user_index(users, record.username, 0);
    let after = appended(users, record);
    lemma_user_index(users, record.username, 0);
    lemma_user_index(users, username, 0);
    lemma_user_index_update(users, k, after[k], username);
    if distinct_usernames(users) {
        assert forall|i: int, j: int| 0 <= i < j < after.len() implies (
        #[trigger] after[i]).username != (#[trigger] after[j]).username by {
            assert(after[i].username == users[i].username);
            assert(after[j].username == users[j].username);
        }
    }
}

/// Putting a user changes nobody's ledger, and gives a new user an empty one.
pub proof fn lemma_with_user(
    users: Seq<UserProfileView>,
    request: UserPutRequestView,
    username: Seq<char>,
)
    ensures
        has_user(with_user(users, request), request.username),
        ledger_of_user(with_user(users, request), username) == ledger_of_user(users, username),
        username != request.username ==> has_user(with_user(users, request), username)
            == has_user(users, username),
        distinct_usernames(users) ==> distinct_usernames(with_user(users, request)),
{
    let k = user_index(users, request.username, 0);
    let after = with_user(users, request);
    lemma_user_index(users, request.username, 0);
    lemma_user_index(users, username, 0);
    lemma_user_index(after, username, 0);
    lemma_user_index(after, request.username, 0);
    if k < users.len() {
        lemma_user_index_update(users, k, after[k], username);
        lemma_user_index_update(users, k, after[k], request.username);
        if distinct_usernames(users) {
            assert forall|i: int, j: int| 0 <= i < j < after.len() implies (
            #[trigger] after[i]).username != (#[trigger] after[j]).username by {
                assert(after[i].username == users[i].username);
                assert(after[j].username == users[j].username);
            }
        }
    } else {
        let i = user_index(users, username, 0);
        let j = user_index(after, username, 0);
        if i < users.len() {
            assert(after[i] == users[i]);
        }
        if j < users.len() {
            assert(after[j] == users[j]);
        }
        assert(after[users.len() as int].username == request.username);
        if distinct_usernames(users) {
            assert forall|a: int, b: int| 0 <= a < b < after.len() implies (
            #[trigger] after[a]).username != (#[trigger] after[b]).username by {
                assert(after[a] == users[a]);
                if b < users.len() {
                    assert(after[b] == users[b]);
                }
            }
        }
    }
}

/// The users with their ledgers, as a table keyed by username.
#[derive(Debug, Clone, PartialEq, Eq)]
pub struct UserTable {
    users: Vec<UserProfile>,
}

impl DeepView for UserTable {
    type V = Seq<UserProfileView>;

    closed spec fn deep_view(&self) -> Seq<UserProfileView> {
        self.users.deep_view()
    }
}

impl UserTable {
    /// The invariant of a table: at most one user for each username.
    pub open spec fn wf(&self) -> bool {
        distinct_usernames(self.deep_view())
    }

    /// A table without users.
    pub fn new() -> (r: UserTable)
        ensures
            r.deep_view() == Seq::<UserProfileView>::empty(),
            r.wf(),
    {
        let users: Vec<UserProfile> = Vec::new();
        assert(users.deep_view() =~= Seq::<UserProfileView>::empty());
        UserTable { users }
    }

    /// The users, in the order in which they were first put.
    pub fn users(&self) -> (r: &Vec<UserProfile>)
        ensures
            r.deep_view() == self.deep_view(),
    {
        &self.users
    }

    /// The index of the first user with a username, if there is one.
    fn find(&self, username: &str) -> (r: Option<usize>)
        ensures
            match r {
                Some(k) => k < self.users.len() && k == user_index(
                    self.deep_view(),
                    username@,
                    0,
                ),
                None => !has_user(self.deep_view(), username@),
            },
    {
        let ghost all = self.users.deep_view();
        let mut k: usize = 0;
        proof {
            lemma_user_index(all, username@, 0);
        }
        while k < self.users.len()
            invariant
                k <= self.users.len(),
                all == self.users.deep_view(),
                k <= user_index(all, username@, 0) <= all.len(),
                user_index(all, username@, 0) < all.len() ==> all[user_index(
                    all,
                    username@,
                    0,
                )].username == username@,
                forall|j: int|
                    0 <= j < user_index(all, username@, 0) ==> (#[trigger] all[j]).username
                        != username@,
            decreases self.users.len() - k,
        {
            assert(all[k as int] == self.users@[k as int].deep_view());
            if str_eq(self.users[k].username.as_str(), username) {
                return Some(k);
            }
            k += 1;
        }
        None
    }

    /// The user with a username, if there is one.
    pub fn get(&self, username: &str) -> (r: Option<&UserProfile>)
        ensures
            match r {
                Some(user) => has_user(self.deep_view(), username@) && user.deep_view()
                    == self.deep_view()[user_index(self.deep_view(), username@, 0)],
                None => !has_user(self.deep_view(), username@),
            },
    {
        match self.find(username) {
            Some(k) => {
                assert(self.users.deep_view()[k as int] == self.users@[k as int].deep_view());
                Some(&self.users[k])
            },
            None => None,
        }
    }

    /// Creates a user with an empty ledger, or replaces the names of the user
    /// that has the username already; the ledger of that user stays. A
    /// request without a username is refused and changes nothing.
    pub fn put_user(&mut self, request: UserPutRequest) -> (r: Result<(), InputError>)
        ensures
            match r {
                Ok(()) => request.username@.len() > 0 && final(self).deep_view() == with_user(
                    old(self).deep_view(),
                    request.deep_view(),
                ),
                Err(e) => e == InputError::EmptyField(Field::Username) && request.username@.len()
                    == 0 && final(self).deep_view() == old(self).deep_view(),
            },
            old(self).wf() ==> final(self).wf(),
    {
        if request.username.as_str().is_empty() {
            return Err(InputError::EmptyField(Field::Username));
        }
        let ghost before = self.users.deep_view();
        proof {
            lemma_with_user(before, request.deep_view(), request.username@);
        }
        match self.find(request.username.as_str()) {
            Some(k) => {
                assert(before[k as int] == self.users@[k as int].deep_view());
                self.users[k].first_name = request.first_name;
                self.users[k].last_name = request.last_name;
                assert(self.users.deep_view() =~= with_user(before, request.deep_view()));
            },
            None => {
                let user = UserProfile {
                    username: request.username,
                    first_name: request.first_name,
                    last_name: request.last_name,
                    transactions: Vec::new(),
                };
                assert(user.transactions.deep_view() =~= Seq::<TransactionView>::empty());
                let ghost view = user.deep_view();
                self.users.push(user);
                assert(self.users.deep_view() =~= before.push(view));
            },
        }
        Ok(())
    }

    /// Appends a record to the ledger of its owner, after every record that
    /// is there. Where nobody has the record's username the append fails with
    /// `OwnerNotFound` and nothing changes.
    pub fn append(&mut self, record: Transaction) -> (r: Result<(), AppendError>)
        ensures
            match r {
                Ok(()) => has_user(old(self).deep_view(), record.username@)
                    && final(self).deep_view() == appended(
                    old(self).deep_view(),
                    record.deep_view(),
                ),
                Err(e) => e == AppendError::OwnerNotFound && !has_user(
                    old(self).deep_view(),
                    record.username@,
                ) && final(self).deep_view() == old(self).deep_view(),
            },
            old(self).wf() ==> final(self).wf(),
    {
        let ghost before = self.users.deep_view();
        let ghost view = record.deep_view();
        match self.find(record.username.as_str()) {
            Some(k) => {
                proof {
                    lemma_appended(before, view, record.username@);
                    assert(before[k as int] == self.users@[k as int].deep_view());
                }
                let ghost ledger = self.users[k as int].transactions.deep_view();
                self.users[k].transactions.push(record);
                assert(self.users[k as int].transactions.deep_view() =~= ledger.push(view));
                assert(self.users.deep_view() =~= appended(before, view));
                Ok(())
            },
            None => Err(AppendError::OwnerNotFound),
        }
    }
}

} // verus!
