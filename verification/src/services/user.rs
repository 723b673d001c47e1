//! Accounts: registration, login, lookup, change and removal.

use crate::error::AppError;
use crate::modules::user::{CreateDto, LoginDto, UpdateInfoDto, User, UserView};
use crate::services::password::{argon2_accepts, hash, verify};
use crate::services::{delete_outcome, lookup_outcome, text_is};
use crate::store::{
    rfc3339_utc, timestamp, DbError, DbErrorView, NewUser, NewUserView, Store, StoreView,
    EMAIL_KEY, LAST_TIMESTAMP, SEQUENCE_EXHAUSTED, UNIQUE_VIOLATION, USERNAME_KEY,
};
use vstd::prelude::*;

verus! {

/// A well-formed hash that stands in for the hash of an account that does not
/// exist, so that a login with an unknown username costs one password check
/// as a login with a known one does.
pub const DECOY_HASH: &'static str =
    "$argon2id$v=19$m=19456,t=2,p=1$c29tZXNhbHRzb21lc2FsdA$AAAAAAAAAAAAAAAAAAAAAAAAAAAAAAAAAAAAAAAAAAA";

/// What a refused insert or change of an account reports: the unique
/// constraint on usernames is a duplicate username, the one on e-mail
/// addresses a duplicate e-mail address, and every other failure an internal
/// error.
pub open spec fn write_error(e: DbErrorView) -> AppError {
    match e {
        DbErrorView::Database { code: Some(code), constraint: Some(constraint) } => {
            if code == UNIQUE_VIOLATION@ && constraint == USERNAME_KEY@ {
                AppError::DuplicateUsername
            } else if code == UNIQUE_VIOLATION@ && constraint == EMAIL_KEY@ {
                AppError::DuplicateEmail
            } else {
                AppError::InternalServerError
            }
        },
        _ => AppError::InternalServerError,
    }
}

/// What the service reports after the store has answered an insert or a
/// change of an account: the account, or the error that [`write_error`]
/// gives for the failure.
pub fn write_outcome(outcome: Result<User, DbError>) -> (r: Result<User, AppError>)
    ensures
        match outcome {
            Ok(user) => r == Ok::<User, AppError>(user),
            Err(e) => r == Err::<User, AppError>(write_error(e@)),
        },
{
    match outcome {
        Ok(user) => Ok(user),
        Err(e) => match e {
            DbError::Database { code: Some(code), constraint: Some(constraint) } => {
                if text_is(&code, UNIQUE_VIOLATION) {
                    if text_is(&constraint, USERNAME_KEY) {
                        Err(AppError::DuplicateUsername)
                    } else if text_is(&constraint, EMAIL_KEY) {
                        Err(AppError::DuplicateEmail)
                    } else {
                        Err(AppError::InternalServerError)
                    }
                } else {
                    Err(AppError::InternalServerError)
                }
            },
            _ => Err(AppError::InternalServerError),
        },
    }
}

impl CreateDto {
    /// The columns of the account that this input asks for, with the given
    /// password hash. An account without a gender flag gets `false`.
    pub open spec fn columns(&self, password_hash: Seq<char>) -> NewUserView {
        NewUserView {
            name: self.name@,
            username: self.username@,
            email: self.email@,
            password: password_hash,
            gender: match self.gender {
                Some(flag) => flag,
                None => false,
            },
        }
    }
}

/// What a refused insert of an account reports: an internal error where the
/// store has run out of ids, a duplicate username where the username is
/// taken, and a duplicate e-mail address otherwise.
pub open spec fn insert_error(store: StoreView, username: Seq<char>) -> AppError {
    if store.next_id >= i32::MAX {
        AppError::InternalServerError
    } else if store.has_username(username) {
        AppError::DuplicateUsername
    } else {
        AppError::DuplicateEmail
    }
}

/// The constraint names and the error codes of the store are all distinct.
proof fn lemma_codes_differ()
    ensures
        USERNAME_KEY@ != EMAIL_KEY@,
        SEQUENCE_EXHAUSTED@ != UNIQUE_VIOLATION@,
{
    reveal_strlit("users_username_key");
    reveal_strlit("users_email_key");
    reveal_strlit("2200H");
    reveal_strlit("23505");
    assert(USERNAME_KEY@.len() == 18);
    assert(EMAIL_KEY@.len() == 15);
    assert(SEQUENCE_EXHAUSTED@[1] == '2');
    assert(UNIQUE_VIOLATION@[1] == '3');
}

/// Adds the account that the input asks for, with the given password hash,
/// created at the time `stamp`.
///
/// It fails, and changes nothing, exactly when the store refuses the
/// account: with a duplicate username where the username is taken, with a
/// duplicate e-mail address where only the e-mail address is taken, and with
/// an internal error where the store has run out of ids.
pub fn insert_account(
    create_dto: CreateDto,
    password_hash: String,
    stamp: String,
    store: &mut Store,
) -> (r: Result<User, AppError>)
    requires
        old(store).wf(),
    ensures
        final(store).wf(),
        match r {
            Ok(user) => {
                &&& old(store)@.insert_refusal(create_dto.username@, create_dto.email@) is None
                &&& user@ == create_dto.columns(password_hash@).with_id(
                    old(store)@.next_id,
                    stamp@,
                )
                &&& final(store)@ == old(store)@.with_account(user@)
            },
            Err(e) => {
                &&& old(store)@.insert_refusal(create_dto.username@, create_dto.email@) is Some
                &&& e == insert_error(old(store)@, create_dto.username@)
                &&& final(store)@ == old(store)@
            },
        },
{
    let new = NewUser {
        name: create_dto.name,
        username: create_dto.username,
        email: create_dto.email,
        password: password_hash,
        gender: match create_dto.gender {
            Some(flag) => flag,
            None => false,
        },
    };
    proof {
        lemma_codes_differ();
    }
    let outcome = store.insert_user(new, stamp);
    write_outcome(outcome)
}

/// Registers an account at the second `now`: checks the input, hashes the
/// password, and adds the account.
///
/// Input that is refused is a validation error that carries the report of
/// every refused field, and nothing is hashed or stored. Accepted input at a
/// second after the last one that the store can write is an internal error.
/// Otherwise the account is added exactly when the store does not refuse it:
/// it fails with an internal error where the store has run out of ids, with
/// a duplicate username where the username is taken, and with a duplicate
/// e-mail address where only the e-mail address is taken. Every failure
/// leaves the store as it was.
pub fn create(create_dto: CreateDto, store: &mut Store, now: u64) -> (r: Result<User, AppError>)
    requires
        old(store).wf(),
    ensures
        final(store).wf(),
        !create_dto.valid() ==> final(store)@ == old(store)@ && (r matches Err(
            AppError::ValidationError(report),
        ) && report@ == create_dto.faults()),
        create_dto.valid() && now > LAST_TIMESTAMP ==> r == Err::<User, AppError>(
            AppError::InternalServerError,
        ) && final(store)@ == old(store)@,
        create_dto.valid() && now <= LAST_TIMESTAMP ==> match r {
            Ok(user) => {
                &&& old(store)@.insert_refusal(create_dto.username@, create_dto.email@) is None
                &&& argon2_accepts(user@.password, create_dto.password@)
                &&& user@ == create_dto.columns(user@.password).with_id(
                    old(store)@.next_id,
                    rfc3339_utc(now as int),
                )
                &&& final(store)@ == old(store)@.with_account(user@)
            },
            Err(e) => {
                &&& old(store)@.insert_refusal(create_dto.username@, create_dto.email@) is Some
                &&& e == insert_error(old(store)@, create_dto.username@)
                &&& final(store)@ == old(store)@
            },
        },
{
    match create_dto.validate() {
        Ok(_) => {},
        Err(report) => {
            return Err(AppError::ValidationError(report));
        },
    }
    let password_hash = match hash(create_dto.password.as_str()) {
        Ok(password_hash) => password_hash,
        Err(e) => {
            return Err(e);
        },
    };
    let stamp = match timestamp(now) {
        Some(stamp) => stamp,
        None => {
            return Err(AppError::InternalServerError);
        },
    };
    insert_account(create_dto, password_hash, stamp, store)
}

/// What a login reports, given what the lookup of the account brought and
/// whether the password was accepted for it: the account where it was found
/// and the password accepted; invalid credentials where it was found and the
/// password refused, and just the same where no account was found; an
/// internal error where the lookup failed otherwise.
pub open spec fn login_verdict(outcome: Result<User, DbErrorView>, accepted: bool) -> Result<
    User,
    AppError,
> {
    match outcome {
        Ok(user) => if accepted {
            Ok(user)
        } else {
            Err(AppError::InvalidCredentials)
        },
        Err(DbErrorView::RowNotFound) => Err(AppError::InvalidCredentials),
        Err(_) => Err(AppError::InternalServerError),
    }
}

/// The answer of the store with its failure read as a mathematical value.
pub open spec fn outcome_view(outcome: Result<User, DbError>) -> Result<User, DbErrorView> {
    match outcome {
        Ok(user) => Ok(user),
        Err(e) => Err(e@),
    }
}

/// What the service reports for a login after the store has answered the
/// lookup and the password has been checked.
pub fn login_outcome(outcome: Result<User, DbError>, accepted: bool) -> (r: Result<User, AppError>)
    ensures
        r == login_verdict(outcome_view(outcome), accepted),
{
    match outcome {
        Ok(user) => {
            if accepted {
                Ok(user)
            } else {
                Err(AppError::InvalidCredentials)
            }
        },
        Err(e) => match e {
            DbError::RowNotFound => Err(AppError::InvalidCredentials),
            _ => Err(AppError::InternalServerError),
        },
    }
}

/// A login with a username that no account has and a login with the wrong
/// password for an account that exists report the same failure.
pub proof fn lemma_login_failures_alike(user: User, accepted: bool)
    ensures
        login_verdict(Err(DbErrorView::RowNotFound), accepted) == login_verdict(Ok(user), false),
        login_verdict(Ok(user), false) == Err::<User, AppError>(AppError::InvalidCredentials),
{
}

/// Checks the password of a login after the store has answered the lookup
/// of the account: against the hash of the account where one was found, and
/// against a decoy where none was, so that both cost one check. The answer
/// is whether an account was found and its hash accepts the password.
pub fn check_password(outcome: &Result<User, DbError>, password: &str) -> (accepted: bool)
    ensures
        accepted == match outcome {
            Ok(user) => argon2_accepts(user@.password, password@),
            Err(_) => false,
        },
{
    match outcome {
        Ok(user) => verify(user.password.as_str(), password),
        Err(_) => {
            let _ = verify(DECOY_HASH, password);
            false
        },
    }
}

impl StoreView {
    /// Some account has this username and a password hash that accepts this
    /// password.
    pub open spec fn admits(self, username: Seq<char>, password: Seq<char>) -> bool {
        exists|id: int| #[trigger]
            self.accounts.dom().contains(id) && self.accounts[id].username == username
                && argon2_accepts(self.accounts[id].password, password)
    }
}

/// Logs in: looks the account up by its username and checks the password
/// against its hash.
///
/// It succeeds exactly when an account has the username and its hash accepts
/// the password. Every failure is `InvalidCredentials`, whether the username
/// is unknown or the password wrong.
pub fn login(login_dto: LoginDto, store: &Store) -> (r: Result<User, AppError>)
    requires
        store.wf(),
    ensures
        r is Ok <==> store@.admits(login_dto.username@, login_dto.password@),
        match r {
            Ok(user) => {
                &&& store@.accounts.dom().contains(user@.id)
                &&& store@.accounts[user@.id] == user@
                &&& user@.username == login_dto.username@
                &&& argon2_accepts(user@.password, login_dto.password@)
            },
            Err(e) => e == AppError::InvalidCredentials,
        },
{
    let outcome = store.find_by_username(&login_dto.username);
    let accepted = check_password(&outcome, login_dto.password.as_str());
    proof {
        store.lemma_wf_view();
    }
    login_outcome(outcome, accepted)
}

/// The account with the given username, or `NotFoundUser`.
pub fn find(username: String, store: &Store) -> (r: Result<User, AppError>)
    requires
        store.wf(),
    ensures
        match r {
            Ok(user) => {
                &&& store@.accounts.dom().contains(user@.id)
                &&& store@.accounts[user@.id] == user@
                &&& user@.username == username@
            },
            Err(e) => e == AppError::NotFoundUser && !store@.has_username(username@),
        },
{
    lookup_outcome(store.find_by_username(&username))
}

impl UpdateInfoDto {
    /// The name of the account after the change: the given one, or the one
    /// that the account has.
    pub open spec fn new_name(&self, user: UserView) -> Seq<char> {
        match self.name {
            Some(name) => name@,
            None => user.name,
        }
    }

    /// The username of the account after the change.
    pub open spec fn new_username(&self, user: UserView) -> Seq<char> {
        match self.username {
            Some(username) => username@,
            None => user.username,
        }
    }

    /// The e-mail address of the account after the change.
    pub open spec fn new_email(&self, user: UserView) -> Seq<char> {
        match self.email {
            Some(email) => email@,
            None => user.email,
        }
    }

    /// The gender flag of the account after the change.
    pub open spec fn new_gender(&self, user: UserView) -> bool {
        match self.gender {
            Some(flag) => flag,
            None => user.gender,
        }
    }
}

/// What a refused change of the account `id` reports.
pub open spec fn update_error(store: StoreView, id: int, username: Seq<char>) -> AppError {
    if !store.accounts.dom().contains(id) {
        AppError::InternalServerError
    } else if store.username_taken_by_other(id, username) {
        AppError::DuplicateUsername
    } else {
        AppError::DuplicateEmail
    }
}

/// Changes the profile of the account `user.id` at the time `stamp`. A field
/// that the input does not give keeps the value that `user` has for it.
///
/// It fails, and changes nothing, exactly when the store refuses the change:
/// with an internal error where the account is gone, with a duplicate
/// username where another account has the username, and with a duplicate
/// e-mail address where another account has only the e-mail address.
pub fn change_account(
    user: User,
    update_info_dto: UpdateInfoDto,
    stamp: String,
    store: &mut Store,
) -> (r: Result<User, AppError>)
    requires
        old(store).wf(),
    ensures
        final(store).wf(),
        match r {
            Ok(changed) => {
                &&& old(store)@.update_refusal(
                    user@.id,
                    update_info_dto.new_username(user@),
                    update_info_dto.new_email(user@),
                ) is None
                &&& changed@ == old(store)@.changed_account(
                    user@.id,
                    update_info_dto.new_name(user@),
                    update_info_dto.new_username(user@),
                    update_info_dto.new_email(user@),
                    update_info_dto.new_gender(user@),
                    stamp@,
                )
                &&& final(store)@ == old(store)@.with_changed_account(changed@)
            },
            Err(e) => {
                &&& old(store)@.update_refusal(
                    user@.id,
                    update_info_dto.new_username(user@),
                    update_info_dto.new_email(user@),
                ) is Some
                &&& e == update_error(old(store)@, user@.id, update_info_dto.new_username(user@))
                &&& final(store)@ == old(store)@
            },
        },
{
    let name = match update_info_dto.name {
        Some(name) => name,
        None => user.name,
    };
    let username = match update_info_dto.username {
        Some(username) => username,
        None => user.username,
    };
    let email = match update_info_dto.email {
        Some(email) => email,
        None => user.email,
    };
    let gender = match update_info_dto.gender {
        Some(flag) => flag,
        None => user.gender,
    };
    proof {
        lemma_codes_differ();
    }
    let outcome = store.update_user(user.id, name, username, email, gender, stamp);
    write_outcome(outcome)
}

/// Changes the profile of the account `user.id` at the second `now`.
///
/// Input that gives no field is a bad request, and a second after the last
/// one that the store can write is an internal error. Otherwise the profile
/// is changed exactly when the store does not refuse the change: it fails
/// with an internal error where the account is gone, with a duplicate
/// username where another account has the username, and with a duplicate
/// e-mail address where another account has only the e-mail address. Every
/// failure leaves the store as it was.
pub fn update_information(
    user: User,
    update_info_dto: UpdateInfoDto,
    store: &mut Store,
    now: u64,
) -> (r: Result<User, AppError>)
    requires
        old(store).wf(),
    ensures
        final(store).wf(),
        update_info_dto.gives_nothing() ==> r == Err::<User, AppError>(AppError::BadRequest)
            && final(store)@ == old(store)@,
        !update_info_dto.gives_nothing() && now > LAST_TIMESTAMP ==> r == Err::<User, AppError>(
            AppError::InternalServerError,
        ) && final(store)@ == old(store)@,
        !update_info_dto.gives_nothing() && now <= LAST_TIMESTAMP ==> match r {
            Ok(changed) => {
                &&& old(store)@.update_refusal(
                    user@.id,
                    update_info_dto.new_username(user@),
                    update_info_dto.new_email(user@),
                ) is None
                &&& changed@ == old(store)@.changed_account(
                    user@.id,
                    update_info_dto.new_name(user@),
                    update_info_dto.new_username(user@),
                    update_info_dto.new_email(user@),
                    update_info_dto.new_gender(user@),
                    rfc3339_utc(now as int),
                )
                &&& final(store)@ == old(store)@.with_changed_account(changed@)
            },
            Err(e) => {
                &&& old(store)@.update_refusal(
                    user@.id,
                    update_info_dto.new_username(user@),
                    update_info_dto.new_email(user@),
                ) is Some
                &&& e == update_error(old(store)@, user@.id, update_info_dto.new_username(user@))
                &&& final(store)@ == old(store)@
            },
        },
{
    if update_info_dto.is_empty() {
        return Err(AppError::BadRequest);
    }
    let stamp = match timestamp(now) {
        Some(stamp) => stamp,
        None => {
            return Err(AppError::InternalServerError);
        },
    };
    change_account(user, update_info_dto, stamp, store)
}

/// Removes the account `user.id` and, with it, its session. It succeeds
/// whether or not the account was still there.
pub fn delete(user: User, store: &mut Store) -> (r: Result<(), AppError>)
    requires
        old(store).wf(),
    ensures
        final(store).wf(),
        r is Ok,
        final(store)@ == old(store)@.without_account(user@.id),
{
    delete_outcome(store.delete_user(user.id))
}

} // verus!
