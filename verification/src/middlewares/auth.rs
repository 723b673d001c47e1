//! The guard of the protected routes.
//!
//! A request starts unauthenticated. The guard either rejects it, and no
//! handler runs, or resolves its session to an account, which the handler
//! then gets as an argument.

use crate::error::AppError;
use crate::modules::user::User;
use crate::services::session::get_user_by_session;
use crate::store::Store;
use vstd::prelude::*;

verus! {

/// The token of a request, given the value of its session cookie, if it has
/// one. A request without the cookie is rejected with `Unauthorized` before
/// anything is looked up.
pub fn require_session(session: Option<String>) -> (r: Result<String, AppError>)
    ensures
        match session {
            Some(token) => r == Ok::<String, AppError>(token),
            None => r == Err::<String, AppError>(AppError::Unauthorized),
        },
{
    match session {
        Some(token) => Ok(token),
        None => Err(AppError::Unauthorized),
    }
}

/// What the guard decides after the session was looked up: the account
/// where one was found; `Unauthorized` where none was, whatever the reason;
/// any other failure as it came.
pub fn guard_outcome(lookup: Result<User, AppError>) -> (r: Result<User, AppError>)
    ensures
        match lookup {
            Ok(user) => r == Ok::<User, AppError>(user),
            Err(e) => r == Err::<User, AppError>(
                if e is NotFoundUser {
                    AppError::Unauthorized
                } else {
                    e
                },
            ),
        },
{
    match lookup {
        Ok(user) => Ok(user),
        Err(e) => match e {
            AppError::NotFoundUser => Err(AppError::Unauthorized),
            other => Err(other),
        },
    }
}

/// Admits or rejects a request at the second `now`, given the value of its
/// session cookie, if it has one.
///
/// A request is admitted exactly when it carries a token that resolves to an
/// account, and the account is handed on. Every other request is rejected
/// with `Unauthorized`: without a cookie the store is not even asked, and a
/// token that is unknown is not told apart from one that has expired.
pub fn auth_guard(session: Option<String>, store: &Store, now: u64) -> (r: Result<User, AppError>)
    requires
        store.wf(),
    ensures
        r is Ok <==> (session matches Some(token) && exists|id: int|
            store@.resolves(token@, now as int, id)),
        match r {
            Ok(user) => {
                &&& session matches Some(token) && store@.resolves(token@, now as int, user@.id)
                &&& store@.accounts.dom().contains(user@.id)
                &&& store@.accounts[user@.id] == user@
            },
            Err(e) => {
                &&& e == AppError::Unauthorized
                &&& session matches Some(token) ==> forall|id: int|
                    !store@.resolves(token@, now as int, id)
            },
        },
{
    match require_session(session) {
        Ok(token) => guard_outcome(get_user_by_session(token, store, now)),
        Err(e) => Err(e),
    }
}

} // verus!
