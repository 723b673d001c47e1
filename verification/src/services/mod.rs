//! What the service does with accounts and sessions.

pub mod conversation;
pub mod message;
pub mod password;
pub mod session;
pub mod user;

use crate::error::AppError;
use crate::modules::user::User;
use crate::store::{DbError, DbErrorView};
use vstd::prelude::*;

verus! {

/// What a failed lookup of an account reports: the account is not there, or
/// an internal error.
pub open spec fn lookup_error(e: DbErrorView) -> AppError {
    match e {
        DbErrorView::RowNotFound => AppError::NotFoundUser,
        _ => AppError::InternalServerError,
    }
}

/// What the service reports after the store has answered a lookup of an
/// account: the account, `NotFoundUser` where the store found no row, an
/// internal error for any other failure.
pub fn lookup_outcome(outcome: Result<User, DbError>) -> (r: Result<User, AppError>)
    ensures
        match outcome {
            Ok(user) => r == Ok::<User, AppError>(user),
            Err(e) => r == Err::<User, AppError>(lookup_error(e@)),
        },
{
    match outcome {
        Ok(user) => Ok(user),
        Err(e) => match e {
            DbError::RowNotFound => Err(AppError::NotFoundUser),
            _ => Err(AppError::InternalServerError),
        },
    }
}

/// What the service reports after the store has answered the removal of a
/// row: success also where there was no row, an internal error for any other
/// failure.
pub fn delete_outcome(outcome: Result<(), DbError>) -> (r: Result<(), AppError>)
    ensures
        match outcome {
            Ok(_) => r is Ok,
            Err(e) => if e@ == DbErrorView::RowNotFound {
                r is Ok
            } else {
                r == Err::<(), AppError>(AppError::InternalServerError)
            },
        },
{
    match outcome {
        Ok(_) => Ok(()),
        Err(e) => match e {
            DbError::RowNotFound => Ok(()),
            _ => Err(AppError::InternalServerError),
        },
    }
}

/// Whether the text is the given one.
pub(crate) fn text_is(text: &String, expected: &str) -> (same: bool)
    ensures
        same == (text@ == expected@),
{
    let other = expected.to_owned();
    *text == other
}

} // verus!
