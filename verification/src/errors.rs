//! Errors of the service and the HTTP answer each one becomes.
use vstd::prelude::*;

use crate::models::ApiError;

verus! {

/// An error of the service. A failed database call carries the database's message.
#[derive(Debug, Clone)]
pub enum AppError {
    Database(String),
    NotFound(String),
    Unauthorized(String),
    Forbidden(String),
    BadRequest(String),
    Internal(String),
}

/// The HTTP status code of each error.
pub open spec fn spec_status(e: AppError) -> u16 {
    match e {
        AppError::NotFound(_) => 404,
        AppError::Unauthorized(_) => 401,
        AppError::Forbidden(_) => 403,
        AppError::BadRequest(_) => 400,
        AppError::Database(_) | AppError::Internal(_) => 500,
    }
}

/// The error type named in the body of the answer.
pub open spec fn spec_error_type(e: AppError) -> Seq<char> {
    match e {
        AppError::NotFound(_) => "not_found"@,
        AppError::Unauthorized(_) => "unauthorized"@,
        AppError::Forbidden(_) => "forbidden"@,
        AppError::BadRequest(_) => "bad_request"@,
        AppError::Database(_) | AppError::Internal(_) => "internal_error"@,
    }
}

/// The message of each error: a fixed label, a colon and the error's detail.
pub open spec fn spec_message(e: AppError) -> Seq<char> {
    match e {
        AppError::Database(m) => "Database error: "@ + m@,
        AppError::NotFound(m) => "Not found: "@ + m@,
        AppError::Unauthorized(m) => "Unauthorized: "@ + m@,
        AppError::Forbidden(m) => "Forbidden: "@ + m@,
        AppError::BadRequest(m) => "Bad request: "@ + m@,
        AppError::Internal(m) => "Internal error: "@ + m@,
    }
}

/// Concatenation of a label and a detail.
fn labelled(label: &str, detail: &String) -> (s: String)
    ensures
        s@ == label@ + detail@,
{
    let mut s = label.to_owned();
    s.append(detail.as_str());
    s
}

impl AppError {
    /// The HTTP status code of the answer to this error.
    pub fn status_code(&self) -> (code: u16)
        ensures
            code == spec_status(*self),
    {
        match self {
            AppError::NotFound(_) => 404,
            AppError::Unauthorized(_) => 401,
            AppError::Forbidden(_) => 403,
            AppError::BadRequest(_) => 400,
            AppError::Database(_) | AppError::Internal(_) => 500,
        }
    }

    /// The error type named in the body of the answer.
    pub fn error_type(&self) -> (t: &'static str)
        ensures
            t@ == spec_error_type(*self),
    {
        match self {
            AppError::NotFound(_) => "not_found",
            AppError::Unauthorized(_) => "unauthorized",
            AppError::Forbidden(_) => "forbidden",
            AppError::BadRequest(_) => "bad_request",
            AppError::Database(_) | AppError::Internal(_) => "internal_error",
        }
    }

    /// The message of the error, as its display text.
    pub fn message(&self) -> (m: String)
        ensures
            m@ == spec_message(*self),
    {
        match self {
            AppError::Database(m) => labelled("Database error: ", m),
            AppError::NotFound(m) => labelled("Not found: ", m),
            AppError::Unauthorized(m) => labelled("Unauthorized: ", m),
            AppError::Forbidden(m) => labelled("Forbidden: ", m),
            AppError::BadRequest(m) => labelled("Bad request: ", m),
            AppError::Internal(m) => labelled("Internal error: ", m),
        }
    }

    /// The body of the HTTP answer to this error.
    pub fn error_response(&self) -> (body: ApiError)
        ensures
            body.error@ == spec_error_type(*self),
            body.message@ == spec_message(*self),
    {
        ApiError { error: self.error_type().to_owned(), message: self.message() }
    }
}

} // verus!
