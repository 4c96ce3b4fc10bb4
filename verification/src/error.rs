//! The errors that the todo service answers with.
use vstd::prelude::*;

verus! {

#[verifier::external_type_specification]
#[verifier::external_body]
pub struct ExSqlxError(sqlx::Error);

/// A failed request: the client's fault, a missing todo, or the database.
#[derive(Debug)]
pub enum ApiError {
    BadRequest(String),
    NotFound(String),
    Database(sqlx::Error),
}

/// What a contract can see of an [`ApiError`].
pub enum ErrorView {
    BadRequest(Seq<char>),
    NotFound(Seq<char>),
    Database,
}

impl View for ApiError {
    type V = ErrorView;

    open spec fn view(&self) -> ErrorView {
        match self {
            ApiError::BadRequest(m) => ErrorView::BadRequest(m@),
            ApiError::NotFound(m) => ErrorView::NotFound(m@),
            ApiError::Database(_) => ErrorView::Database,
        }
    }
}

pub type ApiResult<T> = Result<T, ApiError>;

/// The error view of a result, if it failed.
pub open spec fn error_of<T>(r: ApiResult<T>) -> Option<ErrorView> {
    match r {
        Ok(_) => None,
        Err(e) => Some(e@),
    }
}

/// The value `sqlx::Error::Protocol(message)`: the variant that reports a protocol
/// violation, carrying `message`.
pub uninterp spec fn protocol_error_value(message: Seq<char>) -> sqlx::Error;

/// Builds the database error that reports a protocol violation with `message`.
///
/// Calls the constructor `sqlx::Error::Protocol`, whose value depends on the message
/// alone; the contract names that value and says nothing more of it.
#[verifier::external_body]
pub(crate) fn protocol_error(message: String) -> (e: sqlx::Error)
    ensures
        e == protocol_error_value(message@),
{
    sqlx::Error::Protocol(message)
}

} // verus!
