//! The fact store: accounts and sessions, with the constraints that the
//! service relies on.
//!
//! Usernames and e-mail addresses are unique among the accounts, an account
//! has at most one session, and a session belongs to an account that exists.
//! A change that would break one of these is refused with the error code that
//! a relational store gives for it, and leaves the store as it was.

mod table;

use crate::modules::user::{User, UserView};
use crate::store::table::{
    as_map, distinct_keys, has_key, lemma_empty, lemma_map_has_row, lemma_push, lemma_remove,
    lemma_row_in_map, lemma_update,
};
use cookie::time::format_description::well_known::Rfc3339;
use cookie::time::OffsetDateTime;
use vstd::prelude::*;

verus! {

/// The text of a point in time, given in seconds from the epoch: date and
/// time of day in UTC, as `YYYY-MM-DDTHH:MM:SSZ`.
pub uninterp spec fn rfc3339_utc(secs: int) -> Seq<char>;

/// The last second that the store can write: the end of the year 9999.
pub const LAST_TIMESTAMP: u64 = 253_402_300_799;

/// Calls `OffsetDateTime::from_unix_timestamp` of the crate `time`, which
/// `cookie` hands on, and writes the result out with `format(&Rfc3339)`.
/// The text depends on the number alone; the contract gives it a name.
/// `None` stands for the error of either call. The first call takes every
/// second of the years that `time` knows, and the format writes the years 0
/// to 9999 of a time in UTC into memory, so from the epoch to the end of the
/// year 9999 there is a text, and after that there is none.
#[verifier::external_body]
fn format_rfc3339(secs: i64) -> (r: Option<String>)
    ensures
        0 <= secs <= LAST_TIMESTAMP ==> r is Some,
        secs > LAST_TIMESTAMP ==> r is None,
        r matches Some(text) ==> text@ == rfc3339_utc(secs as int),
{
    match OffsetDateTime::from_unix_timestamp(secs) {
        Ok(at) => at.format(&Rfc3339).ok(),
        Err(_) => None,
    }
}

/// The text that the store writes for the second `now`. There is one for
/// every second up to the end of the year 9999, and none after that.
pub fn timestamp(now: u64) -> (r: Option<String>)
    ensures
        r is Some <==> now <= LAST_TIMESTAMP,
        r matches Some(text) ==> text@ == rfc3339_utc(now as int),
{
    if now > 0x7fff_ffff_ffff_ffff {
        None
    } else {
        format_rfc3339(now as i64)
    }
}

/// How long a session lives after it was issued or renewed: seven days, in
/// seconds.
pub const SESSION_TTL: u64 = 604_800;

/// The error code of a unique constraint that a change would break.
pub const UNIQUE_VIOLATION: &'static str = "23505";

/// The error code of a reference to a row that does not exist.
pub const FOREIGN_KEY_VIOLATION: &'static str = "23503";

/// The error code of a required value that is missing.
pub const NOT_NULL_VIOLATION: &'static str = "23502";

/// The error code of a point in time that the store cannot hold.
pub const DATETIME_OVERFLOW: &'static str = "22008";

/// The error code of a counter that has run out of numbers.
pub const SEQUENCE_EXHAUSTED: &'static str = "2200H";

/// The constraint that keeps usernames unique.
pub const USERNAME_KEY: &'static str = "users_username_key";

/// The constraint that keeps e-mail addresses unique.
pub const EMAIL_KEY: &'static str = "users_email_key";

/// The constraint that ties a session to its account.
pub const SESSION_USER_KEY: &'static str = "sessions_user_id_fkey";

/// A failure of the store, as far as the service looks into it.
#[derive(Debug)]
pub enum DbError {
    /// A query that must return a row found none.
    RowNotFound,
    /// The store refused a statement. `code` is the five-character error
    /// code, `constraint` the name of the constraint that fired, where the
    /// store gives them.
    Database { code: Option<String>, constraint: Option<String> },
    /// The store could not be reached or did not answer as expected.
    Other,
}

/// The mathematical value of a [`DbError`].
pub enum DbErrorView {
    RowNotFound,
    Database { code: Option<Seq<char>>, constraint: Option<Seq<char>> },
    Other,
}

/// The text that an optional string holds, if any.
pub open spec fn text_of(s: Option<String>) -> Option<Seq<char>> {
    match s {
        Some(text) => Some(text@),
        None => None,
    }
}

impl View for DbError {
    type V = DbErrorView;

    open spec fn view(&self) -> DbErrorView {
        match self {
            DbError::RowNotFound => DbErrorView::RowNotFound,
            DbError::Database { code, constraint } => DbErrorView::Database {
                code: text_of(*code),
                constraint: text_of(*constraint),
            },
            DbError::Other => DbErrorView::Other,
        }
    }
}

/// The refusal of a statement with the given code, by the given constraint.
pub open spec fn refusal(code: Seq<char>, constraint: Option<Seq<char>>) -> DbErrorView {
    DbErrorView::Database { code: Some(code), constraint }
}

/// Builds the refusal of a statement that broke a constraint.
fn refuse(code: &str, constraint: &str) -> (e: DbError)
    ensures
        e@ == refusal(code@, Some(constraint@)),
{
    DbError::Database { code: Some(code.to_owned()), constraint: Some(constraint.to_owned()) }
}

/// Builds the refusal of a statement that no constraint is to blame for.
fn refuse_plain(code: &str) -> (e: DbError)
    ensures
        e@ == refusal(code@, None),
{
    DbError::Database { code: Some(code.to_owned()), constraint: None }
}

/// The columns of an account that the caller of an insert supplies.
#[derive(Debug)]
pub struct NewUser {
    pub name: String,
    pub username: String,
    pub email: String,
    /// The password hash.
    pub password: String,
    pub gender: bool,
}

/// The mathematical value of a [`NewUser`].
pub struct NewUserView {
    pub name: Seq<char>,
    pub username: Seq<char>,
    pub email: Seq<char>,
    pub password: Seq<char>,
    pub gender: bool,
}

impl View for NewUser {
    type V = NewUserView;

    open spec fn view(&self) -> NewUserView {
        NewUserView {
            name: self.name@,
            username: self.username@,
            email: self.email@,
            password: self.password@,
            gender: self.gender,
        }
    }
}

impl NewUserView {
    /// The account that these columns make under the given id, created and
    /// last changed at the given time.
    pub open spec fn with_id(self, id: int, stamp: Seq<char>) -> UserView {
        UserView {
            id,
            name: self.name,
            username: self.username,
            password: self.password,
            email: self.email,
            gender: self.gender,
            create_at: stamp,
            update_at: stamp,
        }
    }
}

/// A session as the store holds it: one row for the account `user_id`.
#[derive(Debug)]
pub struct SessionRow {
    pub user_id: i32,
    /// The opaque token that the holder presents.
    pub session: String,
    /// The second, counted from the epoch, from which the session no longer
    /// counts.
    pub expires_at: u64,
}

/// The mathematical value of a session: its token and its expiry.
pub struct SessionView {
    pub session: Seq<char>,
    pub expires_at: int,
}

impl View for SessionRow {
    type V = SessionView;

    open spec fn view(&self) -> SessionView {
        SessionView { session: self.session@, expires_at: self.expires_at as int }
    }
}

/// The mathematical value of a [`Store`]: the accounts by id, the sessions by
/// the id of their account, and the id that the next account gets.
pub struct StoreView {
    pub accounts: Map<int, UserView>,
    pub sessions: Map<int, SessionView>,
    pub next_id: int,
}

impl StoreView {
    /// The constraints of the store.
    pub open spec fn wf(self) -> bool {
        &&& 1 <= self.next_id <= i32::MAX
        &&& forall|id: int| #[trigger]
            self.accounts.dom().contains(id) ==> self.accounts[id].id == id && 1 <= id
                < self.next_id
        &&& forall|a: int, b: int|
            #![trigger self.accounts[a], self.accounts[b]]
            self.accounts.dom().contains(a) && self.accounts.dom().contains(b)
                && self.accounts[a].username == self.accounts[b].username ==> a == b
        &&& forall|a: int, b: int|
            #![trigger self.accounts[a], self.accounts[b]]
            self.accounts.dom().contains(a) && self.accounts.dom().contains(b)
                && self.accounts[a].email == self.accounts[b].email ==> a == b
        &&& forall|id: int| #[trigger]
            self.sessions.dom().contains(id) ==> self.accounts.dom().contains(id) && 0
                <= self.sessions[id].expires_at <= u64::MAX
    }

    /// Some account has this username.
    pub open spec fn has_username(self, username: Seq<char>) -> bool {
        exists|id: int| #[trigger]
            self.accounts.dom().contains(id) && self.accounts[id].username == username
    }

    /// Some account has this e-mail address.
    pub open spec fn has_email(self, email: Seq<char>) -> bool {
        exists|id: int| #[trigger]
            self.accounts.dom().contains(id) && self.accounts[id].email == email
    }

    /// Some account other than `id` has this username.
    pub open spec fn username_taken_by_other(self, id: int, username: Seq<char>) -> bool {
        exists|other: int| #[trigger]
            self.accounts.dom().contains(other) && other != id && self.accounts[other].username
                == username
    }

    /// Some account other than `id` has this e-mail address.
    pub open spec fn email_taken_by_other(self, id: int, email: Seq<char>) -> bool {
        exists|other: int| #[trigger]
            self.accounts.dom().contains(other) && other != id && self.accounts[other].email
                == email
    }

    /// The account `id` holds a session with this token that is still live at
    /// the second `now`.
    pub open spec fn resolves(self, token: Seq<char>, now: int, id: int) -> bool {
        &&& self.sessions.dom().contains(id)
        &&& self.sessions[id].session == token
        &&& self.sessions[id].expires_at > now
    }

    /// Why the store refuses to take a new account, if it does: the counter
    /// of ids has run out, or the username or the e-mail address is taken.
    pub open spec fn insert_refusal(self, username: Seq<char>, email: Seq<char>) -> Option<
        DbErrorView,
    > {
        if self.next_id >= i32::MAX {
            Some(refusal(SEQUENCE_EXHAUSTED@, None))
        } else if self.has_username(username) {
            Some(refusal(UNIQUE_VIOLATION@, Some(USERNAME_KEY@)))
        } else if self.has_email(email) {
            Some(refusal(UNIQUE_VIOLATION@, Some(EMAIL_KEY@)))
        } else {
            None
        }
    }

    /// Why the store refuses to change the account `id`, if it does: there is
    /// no such account, or another account has the username or the e-mail
    /// address.
    pub open spec fn update_refusal(self, id: int, username: Seq<char>, email: Seq<char>) -> Option<
        DbErrorView,
    > {
        if !self.accounts.dom().contains(id) {
            Some(DbErrorView::RowNotFound)
        } else if self.username_taken_by_other(id, username) {
            Some(refusal(UNIQUE_VIOLATION@, Some(USERNAME_KEY@)))
        } else if self.email_taken_by_other(id, email) {
            Some(refusal(UNIQUE_VIOLATION@, Some(EMAIL_KEY@)))
        } else {
            None
        }
    }

    /// Why the store refuses a session for the account `id` at the second
    /// `now`, if it does: the expiry cannot be held, or there is no such
    /// account.
    pub open spec fn session_refusal(self, id: int, now: int) -> Option<DbErrorView> {
        if now + SESSION_TTL > u64::MAX {
            Some(refusal(DATETIME_OVERFLOW@, None))
        } else if !self.accounts.dom().contains(id) {
            Some(refusal(FOREIGN_KEY_VIOLATION@, Some(SESSION_USER_KEY@)))
        } else {
            None
        }
    }

    /// The account `id` after a change of its profile at the time `stamp`.
    pub open spec fn changed_account(
        self,
        id: int,
        name: Seq<char>,
        username: Seq<char>,
        email: Seq<char>,
        gender: bool,
        stamp: Seq<char>,
    ) -> UserView {
        UserView {
            id,
            name,
            username,
            password: self.accounts[id].password,
            email,
            gender,
            create_at: self.accounts[id].create_at,
            update_at: stamp,
        }
    }

    /// The store with one more account, under the next id.
    pub open spec fn with_account(self, account: UserView) -> StoreView {
        StoreView {
            accounts: self.accounts.insert(self.next_id, account),
            sessions: self.sessions,
            next_id: self.next_id + 1,
        }
    }

    /// The store with the account `account.id` replaced.
    pub open spec fn with_changed_account(self, account: UserView) -> StoreView {
        StoreView {
            accounts: self.accounts.insert(account.id, account),
            sessions: self.sessions,
            next_id: self.next_id,
        }
    }

    /// The store without the account `id` and without its session.
    pub open spec fn without_account(self, id: int) -> StoreView {
        StoreView {
            accounts: self.accounts.remove(id),
            sessions: self.sessions.remove(id),
            next_id: self.next_id,
        }
    }

    /// The store in which the one session of the account `id` is the given
    /// one, whatever it was before.
    pub open spec fn with_session(self, id: int, session: SessionView) -> StoreView {
        StoreView {
            accounts: self.accounts,
            sessions: self.sessions.insert(id, session),
            next_id: self.next_id,
        }
    }

    /// The store in which the account `id` has no session.
    pub open spec fn without_session(self, id: int) -> StoreView {
        StoreView {
            accounts: self.accounts,
            sessions: self.sessions.remove(id),
            next_id: self.next_id,
        }
    }
}

/// The accounts and the sessions of the service.
pub struct Store {
    users: Vec<User>,
    sessions: Vec<SessionRow>,
    next_id: i32,
}

/// The key of an account row: its id.
spec fn user_key() -> spec_fn(User) -> int {
    |u: User| u.id as int
}

/// The value of an account row.
spec fn user_val() -> spec_fn(User) -> UserView {
    |u: User| u@
}

/// The key of a session row: the id of its account.
spec fn session_key() -> spec_fn(SessionRow) -> int {
    |s: SessionRow| s.user_id as int
}

/// The value of a session row.
spec fn session_val() -> spec_fn(SessionRow) -> SessionView {
    |s: SessionRow| s@
}

impl View for Store {
    type V = StoreView;

    closed spec fn view(&self) -> StoreView {
        StoreView {
            accounts: as_map(self.users@, user_key(), user_val()),
            sessions: as_map(self.sessions@, session_key(), session_val()),
            next_id: self.next_id as int,
        }
    }
}

impl Store {
    /// The store is consistent: no two rows for one account, no two rows for
    /// one session, and every constraint holds.
    pub closed spec fn wf(&self) -> bool {
        &&& distinct_keys(self.users@, user_key())
        &&& distinct_keys(self.sessions@, session_key())
        &&& self@.wf()
    }

    /// A consistent store meets every constraint.
    pub proof fn lemma_wf_view(&self)
        requires
            self.wf(),
        ensures
            self@.wf(),
    {
    }

    /// An empty store. The first account gets the id 1.
    pub fn new() -> (store: Store)
        ensures
            store.wf(),
            store@.accounts == Map::<int, UserView>::empty(),
            store@.sessions == Map::<int, SessionView>::empty(),
            store@.next_id == 1,
    {
        let store = Store { users: Vec::new(), sessions: Vec::new(), next_id: 1 };
        proof {
            lemma_empty(store.users@, user_key(), user_val());
            lemma_empty(store.sessions@, session_key(), session_val());
        }
        store
    }

    /// The place of the account with the given id among the rows.
    fn row_of_id(&self, id: i32) -> (r: Option<usize>)
        requires
            self.wf(),
        ensures
            match r {
                Some(i) => i < self.users@.len() && self.users@[i as int].id == id
                    && self@.accounts.dom().contains(id as int) && self@.accounts[id as int]
                    == self.users@[i as int]@,
                None => !self@.accounts.dom().contains(id as int),
            },
    {
        let mut i: usize = 0;
        while i < self.users.len()
            invariant
                self.wf(),
                i <= self.users@.len(),
                forall|j: int| 0 <= j < i ==> self.users@[j].id != id,
            decreases self.users@.len() - i,
        {
            if self.users[i].id == id {
                proof {
                    lemma_row_in_map(self.users@, user_key(), user_val(), i as int);
                }
                return Some(i);
            }
            i += 1;
        }
        proof {
            if self@.accounts.dom().contains(id as int) {
                lemma_map_has_row(self.users@, user_key(), user_val(), id as int);
            }
        }
        None
    }

    /// The place of an account other than `except` that has the given
    /// username.
    fn row_of_username(&self, username: &String, except: i32) -> (r: Option<usize>)
        requires
            self.wf(),
        ensures
            match r {
                Some(i) => i < self.users@.len() && self.users@[i as int].username@ == username@
                    && self.users@[i as int].id != except && self@.accounts.dom().contains(
                    self.users@[i as int].id as int,
                ) && self@.accounts[self.users@[i as int].id as int] == self.users@[i as int]@,
                None => !self@.username_taken_by_other(except as int, username@),
            },
            r is Some ==> self@.username_taken_by_other(except as int, username@),
    {
        let mut i: usize = 0;
        while i < self.users.len()
            invariant
                self.wf(),
                i <= self.users@.len(),
                forall|j: int|
                    0 <= j < i ==> !(self.users@[j].username@ == username@ && self.users@[j].id
                        != except),
            decreases self.users@.len() - i,
        {
            if self.users[i].username == *username && self.users[i].id != except {
                proof {
                    lemma_row_in_map(self.users@, user_key(), user_val(), i as int);
                    let id = self.users@[i as int].id as int;
                    assert(self@.accounts.dom().contains(id) && id != except as int
                        && self@.accounts[id].username == username@);
                }
                return Some(i);
            }
            i += 1;
        }
        proof {
            if self@.username_taken_by_other(except as int, username@) {
                let other = choose|other: int| #[trigger]
                    self@.accounts.dom().contains(other) && other != except as int
                        && self@.accounts[other].username == username@;
                lemma_map_has_row(self.users@, user_key(), user_val(), other);
            }
        }
        None
    }

    /// The place of an account other than `except` that has the given e-mail
    /// address.
    fn row_of_email(&self, email: &String, except: i32) -> (r: Option<usize>)
        requires
            self.wf(),
        ensures
            match r {
                Some(i) => i < self.users@.len() && self.users@[i as int].email@ == email@
                    && self.users@[i as int].id != except,
                None => !self@.email_taken_by_other(except as int, email@),
            },
            r is Some ==> self@.email_taken_by_other(except as int, email@),
    {
        let mut i: usize = 0;
        while i < self.users.len()
            invariant
                self.wf(),
                i <= self.users@.len(),
                forall|j: int|
                    0 <= j < i ==> !(self.users@[j].email@ == email@ && self.users@[j].id
                        != except),
            decreases self.users@.len() - i,
        {
            if self.users[i].email == *email && self.users[i].id != except {
                proof {
                    lemma_row_in_map(self.users@, user_key(), user_val(), i as int);
                    let id = self.users@[i as int].id as int;
                    assert(self@.accounts.dom().contains(id) && id != except as int
                        && self@.accounts[id].email == email@);
                }
                return Some(i);
            }
            i += 1;
        }
        proof {
            if self@.email_taken_by_other(except as int, email@) {
                let other = choose|other: int| #[trigger]
                    self@.accounts.dom().contains(other) && other != except as int
                        && self@.accounts[other].email == email@;
                lemma_map_has_row(self.users@, user_key(), user_val(), other);
            }
        }
        None
    }

    /// The place of the session of the given account among the rows.
    fn row_of_session(&self, user_id: i32) -> (r: Option<usize>)
        requires
            self.wf(),
        ensures
            match r {
                Some(i) => i < self.sessions@.len() && self.sessions@[i as int].user_id == user_id
                    && self@.sessions.dom().contains(user_id as int),
                None => !self@.sessions.dom().contains(user_id as int),
            },
    {
        let mut i: usize = 0;
        while i < self.sessions.len()
            invariant
                self.wf(),
                i <= self.sessions@.len(),
                forall|j: int| 0 <= j < i ==> self.sessions@[j].user_id != user_id,
            decreases self.sessions@.len() - i,
        {
            if self.sessions[i].user_id == user_id {
                proof {
                    lemma_row_in_map(self.sessions@, session_key(), session_val(), i as int);
                }
                return Some(i);
            }
            i += 1;
        }
        proof {
            if self@.sessions.dom().contains(user_id as int) {
                lemma_map_has_row(self.sessions@, session_key(), session_val(), user_id as int);
            }
        }
        None
    }

    /// Adds an account under the next id, created at the time `stamp`.
    ///
    /// The store refuses the account, and stays as it was, when the counter
    /// of ids has run out, when the username is taken, or when the e-mail
    /// address is taken; the error names the first of these that holds.
    pub fn insert_user(&mut self, new: NewUser, stamp: String) -> (r: Result<User, DbError>)
        requires
            old(self).wf(),
        ensures
            final(self).wf(),
            match r {
                Ok(user) => {
                    &&& old(self)@.insert_refusal(new@.username, new@.email) is None
                    &&& user@ == new@.with_id(old(self)@.next_id, stamp@)
                    &&& final(self)@ == old(self)@.with_account(user@)
                },
                Err(e) => {
                    &&& old(self)@.insert_refusal(new@.username, new@.email) == Some(e@)
                    &&& final(self)@ == old(self)@
                },
            },
    {
        proof {
            old(self).lemma_taken_by_none(new@.username, new@.email);
        }
        if self.next_id >= i32::MAX {
            return Err(refuse_plain(SEQUENCE_EXHAUSTED));
        }
        if self.row_of_username(&new.username, 0).is_some() {
            return Err(refuse(UNIQUE_VIOLATION, USERNAME_KEY));
        }
        if self.row_of_email(&new.email, 0).is_some() {
            return Err(refuse(UNIQUE_VIOLATION, EMAIL_KEY));
        }
        let id: i32 = self.next_id;
        let row = User {
            id,
            name: new.name,
            username: new.username,
            password: new.password,
            email: new.email,
            gender: new.gender,
            create_at: stamp.clone(),
            update_at: stamp,
        };
        let user = row.clone();
        proof {
            assert(!has_key(self.users@, user_key(), id as int)) by {
                if has_key(self.users@, user_key(), id as int) {
                    assert(self@.accounts.dom().contains(id as int));
                }
            }
            lemma_push(self.users@, user_key(), user_val(), row);
        }
        self.users.push(row);
        self.next_id = id + 1;
        proof {
            assert(self@ == old(self)@.with_account(user@));
        }
        Ok(user)
    }

    /// In a consistent store no account has the id 0, so a username or an
    /// e-mail address that an account other than 0 has is one that some
    /// account has.
    proof fn lemma_taken_by_none(&self, username: Seq<char>, email: Seq<char>)
        requires
            self.wf(),
        ensures
            self@.username_taken_by_other(0, username) == self@.has_username(username),
            self@.email_taken_by_other(0, email) == self@.has_email(email),
    {
    }

    /// The account with the given username, or `RowNotFound`.
    pub fn find_by_username(&self, username: &String) -> (r: Result<User, DbError>)
        requires
            self.wf(),
        ensures
            match r {
                Ok(user) => self@.accounts.dom().contains(user@.id) && self@.accounts[user@.id]
                    == user@ && user@.username == username@,
                Err(e) => e@ == DbErrorView::RowNotFound && !self@.has_username(username@),
            },
    {
        proof {
            self.lemma_taken_by_none(username@, Seq::empty());
        }
        match self.row_of_username(username, 0) {
            Some(i) => Ok(self.users[i].clone()),
            None => Err(DbError::RowNotFound),
        }
    }

    /// Changes the profile of the account `id` at the time `stamp`: the name,
    /// the username, the e-mail address and the gender flag are replaced, the
    /// password and the time of creation stay.
    ///
    /// The store refuses the change, and stays as it was, when there is no
    /// such account, when another account has the username, or when another
    /// account has the e-mail address; the error names the first of these
    /// that holds.
    pub fn update_user(
        &mut self,
        id: i32,
        name: String,
        username: String,
        email: String,
        gender: bool,
        stamp: String,
    ) -> (r: Result<User, DbError>)
        requires
            old(self).wf(),
        ensures
            final(self).wf(),
            match r {
                Ok(user) => {
                    &&& old(self)@.update_refusal(id as int, username@, email@) is None
                    &&& user@ == old(self)@.changed_account(
                        id as int,
                        name@,
                        username@,
                        email@,
                        gender,
                        stamp@,
                    )
                    &&& final(self)@ == old(self)@.with_changed_account(user@)
                },
                Err(e) => {
                    &&& old(self)@.update_refusal(id as int, username@, email@) == Some(e@)
                    &&& final(self)@ == old(self)@
                },
            },
    {
        let at = match self.row_of_id(id) {
            Some(at) => at,
            None => {
                return Err(DbError::RowNotFound);
            },
        };
        if self.row_of_username(&username, id).is_some() {
            return Err(refuse(UNIQUE_VIOLATION, USERNAME_KEY));
        }
        if self.row_of_email(&email, id).is_some() {
            return Err(refuse(UNIQUE_VIOLATION, EMAIL_KEY));
        }
        let row = User {
            id,
            name,
            username,
            password: self.users[at].password.clone(),
            email,
            gender,
            create_at: self.users[at].create_at.clone(),
            update_at: stamp,
        };
        let user = row.clone();
        proof {
            lemma_update(self.users@, user_key(), user_val(), at as int, row);
        }
        self.users[at] = row;
        proof {
            assert(self@ == old(self)@.with_changed_account(user@));
        }
        Ok(user)
    }

    /// Removes the account `id` and, with it, its session. Removing an
    /// account that does not exist changes nothing.
    pub fn delete_user(&mut self, id: i32) -> (r: Result<(), DbError>)
        requires
            old(self).wf(),
        ensures
            final(self).wf(),
            r is Ok,
            final(self)@ == old(self)@.without_account(id as int),
    {
        match self.row_of_session(id) {
            Some(at) => {
                proof {
                    lemma_remove(self.sessions@, session_key(), session_val(), at as int);
                }
                self.sessions.remove(at);
            },
            None => {},
        }
        assert(self@.sessions =~= old(self)@.sessions.remove(id as int));
        match self.row_of_id(id) {
            Some(at) => {
                proof {
                    lemma_remove(self.users@, user_key(), user_val(), at as int);
                }
                self.users.remove(at);
            },
            None => {},
        }
        assert(self@.accounts =~= old(self)@.accounts.remove(id as int));
        Ok(())
    }

    /// Makes the given token the one session of the account `user_id`, to
    /// expire seven days after the second `now`. A session that the account
    /// had before is overwritten.
    ///
    /// The store refuses the session, and stays as it was, when the expiry
    /// cannot be held or when there is no such account.
    pub fn upsert_session(&mut self, user_id: i32, session: String, now: u64) -> (r: Result<
        (),
        DbError,
    >)
        requires
            old(self).wf(),
        ensures
            final(self).wf(),
            match r {
                Ok(_) => {
                    &&& old(self)@.session_refusal(user_id as int, now as int) is None
                    &&& final(self)@ == old(self)@.with_session(
                        user_id as int,
                        SessionView { session: session@, expires_at: now + SESSION_TTL },
                    )
                },
                Err(e) => {
                    &&& old(self)@.session_refusal(user_id as int, now as int) == Some(e@)
                    &&& final(self)@ == old(self)@
                },
            },
    {
        if now > u64::MAX - SESSION_TTL {
            return Err(refuse_plain(DATETIME_OVERFLOW));
        }
        if self.row_of_id(user_id).is_none() {
            return Err(refuse(FOREIGN_KEY_VIOLATION, SESSION_USER_KEY));
        }
        let row = SessionRow { user_id, session, expires_at: now + SESSION_TTL };
        match self.row_of_session(user_id) {
            Some(at) => {
                proof {
                    lemma_update(self.sessions@, session_key(), session_val(), at as int, row);
                }
                self.sessions[at] = row;
            },
            None => {
                proof {
                    lemma_push(self.sessions@, session_key(), session_val(), row);
                }
                self.sessions.push(row);
            },
        }
        Ok(())
    }

    /// Removes the session of the account `user_id`. Removing a session that
    /// does not exist changes nothing.
    pub fn delete_session(&mut self, user_id: i32) -> (r: Result<(), DbError>)
        requires
            old(self).wf(),
        ensures
            final(self).wf(),
            r is Ok,
            final(self)@ == old(self)@.without_session(user_id as int),
    {
        match self.row_of_session(user_id) {
            Some(at) => {
                proof {
                    lemma_remove(self.sessions@, session_key(), session_val(), at as int);
                }
                self.sessions.remove(at);
            },
            None => {},
        }
        assert(self@.sessions =~= old(self)@.sessions.remove(user_id as int));
        Ok(())
    }

    /// The account that holds a session with the given token that is still
    /// live at the second `now`, or `RowNotFound` when no account does. A
    /// session whose expiry has passed counts as absent, though its row is
    /// still there.
    pub fn user_by_session(&self, session: &String, now: u64) -> (r: Result<User, DbError>)
        requires
            self.wf(),
        ensures
            r is Ok <==> exists|id: int| self@.resolves(session@, now as int, id),
            match r {
                Ok(user) => self@.resolves(session@, now as int, user@.id)
                    && self@.accounts.dom().contains(user@.id) && self@.accounts[user@.id]
                    == user@,
                Err(e) => e@ == DbErrorView::RowNotFound && forall|id: int|
                    !self@.resolves(session@, now as int, id),
            },
    {
        let mut i: usize = 0;
        while i < self.sessions.len()
            invariant
                self.wf(),
                i <= self.sessions@.len(),
                forall|j: int|
                    0 <= j < i ==> !(self.sessions@[j].session@ == session@
                        && self.sessions@[j].expires_at > now),
            decreases self.sessions@.len() - i,
        {
            if self.sessions[i].session == *session && self.sessions[i].expires_at > now {
                let user_id: i32 = self.sessions[i].user_id;
                proof {
                    lemma_row_in_map(self.sessions@, session_key(), session_val(), i as int);
                    assert(self@.sessions[user_id as int] == self.sessions@[i as int]@);
                    assert(self@.resolves(session@, now as int, user_id as int));
                }
                match self.row_of_id(user_id) {
                    Some(at) => {
                        return Ok(self.users[at].clone());
                    },
                    None => {
                        // A session belongs to an account that exists.
                        proof {
                            assert(false);
                        }
                        return Err(DbError::RowNotFound);
                    },
                }
            }
            i += 1;
        }
        proof {
            assert forall|id: int| !self@.resolves(session@, now as int, id) by {
                if self@.resolves(session@, now as int, id) {
                    lemma_map_has_row(self.sessions@, session_key(), session_val(), id);
                }
            }
        }
        Err(DbError::RowNotFound)
    }
}

} // verus!
