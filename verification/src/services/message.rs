//! Messages: what is decided after the store has answered.

use crate::error::AppError;
use crate::modules::message::Message;
use crate::store::DbError;
use vstd::prelude::*;

verus! {

/// What the service reports after the store has answered the query for the
/// messages of a conversation: the rows where there are any, `NotFoundData`
/// where there are none, an internal error where the query failed.
pub fn get_all_outcome(outcome: Result<Vec<Message>, DbError>) -> (r: Result<
    Vec<Message>,
    AppError,
>)
    ensures
        match outcome {
            Ok(rows) => if rows@.len() < 1 {
                r == Err::<Vec<Message>, AppError>(AppError::NotFoundData)
            } else {
                r == Ok::<Vec<Message>, AppError>(rows)
            },
            Err(_) => r == Err::<Vec<Message>, AppError>(AppError::InternalServerError),
        },
{
    match outcome {
        Ok(rows) => {
            if rows.len() < 1 {
                Err(AppError::NotFoundData)
            } else {
                Ok(rows)
            }
        },
        Err(_) => Err(AppError::InternalServerError),
    }
}

} // verus!
