//! The closed set of failures that the service reports to a caller, and the
//! one mapping from each to the response that carries it.

use crate::response::{
    failure, Body, Response, ResponseView, BAD_REQUEST, FOUND, INTERNAL_SERVER_ERROR, NOT_FOUND,
    UNAUTHORIZED,
};
use vstd::prelude::*;

verus! {

/// What a failed operation reports upward.
#[derive(Debug, PartialEq, Eq)]
pub enum AppError {
    /// Malformed input; the payload names the fields and what is wrong with
    /// them.
    ValidationError(String),
    /// Registration or change with a username that another account holds.
    DuplicateUsername,
    /// Registration or change with an e-mail address that another account
    /// holds.
    DuplicateEmail,
    /// Wrong username or wrong password, never told apart.
    InvalidCredentials,
    /// Missing, unknown or expired session, never told apart.
    Unauthorized,
    /// A referenced account does not exist. It is also what resolving a
    /// token reports when no live session holds it.
    NotFoundUser,
    /// A query matched no rows.
    NotFoundData,
    /// A request that asks for nothing or contradicts itself.
    BadRequest,
    /// A storage or hashing failure that the caller did not cause. Nothing of
    /// its cause is told to the caller.
    InternalServerError,
}

impl Clone for AppError {
    fn clone(&self) -> (copy: AppError)
        ensures
            copy == *self,
    {
        match self {
            AppError::ValidationError(report) => AppError::ValidationError(report.clone()),
            AppError::DuplicateUsername => AppError::DuplicateUsername,
            AppError::DuplicateEmail => AppError::DuplicateEmail,
            AppError::InvalidCredentials => AppError::InvalidCredentials,
            AppError::Unauthorized => AppError::Unauthorized,
            AppError::NotFoundUser => AppError::NotFoundUser,
            AppError::NotFoundData => AppError::NotFoundData,
            AppError::BadRequest => AppError::BadRequest,
            AppError::InternalServerError => AppError::InternalServerError,
        }
    }
}

impl AppError {
    /// The status that reports this failure.
    pub open spec fn status_code(&self) -> u16 {
        match self {
            AppError::ValidationError(_) => BAD_REQUEST,
            AppError::DuplicateUsername => FOUND,
            AppError::DuplicateEmail => FOUND,
            AppError::InvalidCredentials => UNAUTHORIZED,
            AppError::Unauthorized => UNAUTHORIZED,
            AppError::NotFoundUser => NOT_FOUND,
            AppError::NotFoundData => NOT_FOUND,
            AppError::BadRequest => BAD_REQUEST,
            AppError::InternalServerError => INTERNAL_SERVER_ERROR,
        }
    }

    /// The message that reports this failure.
    pub open spec fn message_text(&self) -> Seq<char> {
        match self {
            AppError::ValidationError(report) => report@,
            AppError::DuplicateUsername => "User found!"@,
            AppError::DuplicateEmail => "User found!"@,
            AppError::InvalidCredentials => "Unauthorized"@,
            AppError::Unauthorized => "Unauthorized"@,
            AppError::NotFoundUser => "User NOT found!"@,
            AppError::NotFoundData => "Data NOT found!"@,
            AppError::BadRequest => "Bad Request"@,
            AppError::InternalServerError => "Internal Server Error"@,
        }
    }

    /// The response that reports this failure: its status, no cookie, and in
    /// the body its message and the status once more.
    pub open spec fn response(&self) -> ResponseView {
        failure(self.status_code(), self.message_text())
    }

    /// The status that reports this failure.
    pub fn status(&self) -> (code: u16)
        ensures
            code == self.status_code(),
    {
        match self {
            AppError::ValidationError(_) => BAD_REQUEST,
            AppError::DuplicateUsername => FOUND,
            AppError::DuplicateEmail => FOUND,
            AppError::InvalidCredentials => UNAUTHORIZED,
            AppError::Unauthorized => UNAUTHORIZED,
            AppError::NotFoundUser => NOT_FOUND,
            AppError::NotFoundData => NOT_FOUND,
            AppError::BadRequest => BAD_REQUEST,
            AppError::InternalServerError => INTERNAL_SERVER_ERROR,
        }
    }

    /// The message that reports this failure.
    pub fn message(&self) -> (text: String)
        ensures
            text@ == self.message_text(),
    {
        match self {
            AppError::ValidationError(report) => report.clone(),
            AppError::DuplicateUsername => "User found!".to_owned(),
            AppError::DuplicateEmail => "User found!".to_owned(),
            AppError::InvalidCredentials => "Unauthorized".to_owned(),
            AppError::Unauthorized => "Unauthorized".to_owned(),
            AppError::NotFoundUser => "User NOT found!".to_owned(),
            AppError::NotFoundData => "Data NOT found!".to_owned(),
            AppError::BadRequest => "Bad Request".to_owned(),
            AppError::InternalServerError => "Internal Server Error".to_owned(),
        }
    }

    /// The response that reports this failure: its status, no cookie, and in
    /// the body its message and the status once more.
    pub fn into_response(self) -> (response: Response)
        ensures
            response@ == self.response(),
    {
        let status = self.status();
        let message = self.message();
        Response { status, set_cookie: None, body: Body::Message { message, status } }
    }
}

} // verus!
