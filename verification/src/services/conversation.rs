//! Conversations: what is decided before the store is asked and after it
//! has answered.

use crate::error::AppError;
use crate::modules::conversation::Conversation;
use crate::modules::user::User;
use crate::services::text_is;
use crate::store::{DbError, DbErrorView, NOT_NULL_VIOLATION};
use vstd::prelude::*;

verus! {

/// Whether a conversation may be opened with the account of the given
/// username: not with oneself, which is a bad request.
pub fn check_counterparty(username: &String, user: &User) -> (r: Result<(), AppError>)
    ensures
        r is Ok <==> username@ != user@.username,
        r matches Err(e) ==> e == AppError::BadRequest,
{
    if *username == user.username {
        Err(AppError::BadRequest)
    } else {
        Ok(())
    }
}

/// What a refused insert of a conversation reports. The counterparty is
/// looked up by its username inside the insert, so a username that no
/// account has leaves a required column empty: that refusal means that the
/// counterparty was not found. Every other failure is an internal error.
pub open spec fn create_error(e: DbErrorView) -> AppError {
    match e {
        DbErrorView::Database { code: Some(code), constraint: _ } => {
            if code == NOT_NULL_VIOLATION@ {
                AppError::NotFoundUser
            } else {
                AppError::InternalServerError
            }
        },
        _ => AppError::InternalServerError,
    }
}

/// What the service reports after the store has answered the insert of a
/// conversation: the conversation, or the error that [`create_error`] gives
/// for the failure.
pub fn create_outcome(outcome: Result<Conversation, DbError>) -> (r: Result<
    Conversation,
    AppError,
>)
    ensures
        match outcome {
            Ok(conversation) => r == Ok::<Conversation, AppError>(conversation),
            Err(e) => r == Err::<Conversation, AppError>(create_error(e@)),
        },
{
    match outcome {
        Ok(conversation) => Ok(conversation),
        Err(e) => match e {
            DbError::Database { code: Some(code), constraint: _ } => {
                if text_is(&code, NOT_NULL_VIOLATION) {
                    Err(AppError::NotFoundUser)
                } else {
                    Err(AppError::InternalServerError)
                }
            },
            _ => Err(AppError::InternalServerError),
        },
    }
}

/// What the service reports after the store has answered the query for the
/// conversations of an account: the rows where there are any, `NotFoundData`
/// where there are none, an internal error where the query failed.
pub fn get_all_outcome(outcome: Result<Vec<Conversation>, DbError>) -> (r: Result<
    Vec<Conversation>,
    AppError,
>)
    ensures
        match outcome {
            Ok(rows) => if rows@.len() < 1 {
                r == Err::<Vec<Conversation>, AppError>(AppError::NotFoundData)
            } else {
                r == Ok::<Vec<Conversation>, AppError>(rows)
            },
            Err(_) => r == Err::<Vec<Conversation>, AppError>(AppError::InternalServerError),
        },
{
    match outcome {
        Ok(rows) => {
            if rows.len() < 1 {
                Err(AppError::NotFoundData)
            } else {
                Ok(rows)
            }
        },
        Err(_) => Err(AppError::InternalServerError),
    }
}

} // verus!
