//! The error taxonomy: a closed set of failure kinds shared by every layer.
//!
//! Each kind carries a human-readable message and maps to a distinct
//! externally observable status.  Storage failures are classified at the
//! point of detection and propagate unchanged through the service layer.

use vstd::prelude::*;

verus! {

/// Mathematical image of an error: the kind together with its message.
pub ghost enum ErrorView {
    UnexpectedError(Seq<char>),
    DatabaseError(Seq<char>),
    NotFound(Seq<char>),
    BadRequest(Seq<char>),
    Forbidden(Seq<char>),
    Unauthorized(Seq<char>),
    Conflict(Seq<char>),
    ServiceUnavailable(Seq<char>),
}

/// The closed set of error kinds.  `DatabaseError` wraps a storage cause and
/// `UnexpectedError` a parse/encoding cause; both are internal and their raw
/// cause is not meant for the caller (see [`ApiError::external_message`]).
#[derive(Debug)]
pub enum ApiError {
    UnexpectedError(String),
    DatabaseError(String),
    NotFound(String),
    BadRequest(String),
    Forbidden(String),
    Unauthorized(String),
    Conflict(String),
    ServiceUnavailable(String),
}

impl View for ApiError {
    type V = ErrorView;

    open spec fn view(&self) -> ErrorView {
        match self {
            ApiError::UnexpectedError(m) => ErrorView::UnexpectedError(m@),
            ApiError::DatabaseError(m) => ErrorView::DatabaseError(m@),
            ApiError::NotFound(m) => ErrorView::NotFound(m@),
            ApiError::BadRequest(m) => ErrorView::BadRequest(m@),
            ApiError::Forbidden(m) => ErrorView::Forbidden(m@),
            ApiError::Unauthorized(m) => ErrorView::Unauthorized(m@),
            ApiError::Conflict(m) => ErrorView::Conflict(m@),
            ApiError::ServiceUnavailable(m) => ErrorView::ServiceUnavailable(m@),
        }
    }
}

/// The externally visible status of an error kind.
pub open spec fn status_of(e: ErrorView) -> u16 {
    match e {
        ErrorView::UnexpectedError(_) => 500,
        ErrorView::DatabaseError(_) => 500,
        ErrorView::NotFound(_) => 404,
        ErrorView::BadRequest(_) => 400,
        ErrorView::Forbidden(_) => 403,
        ErrorView::Unauthorized(_) => 401,
        ErrorView::Conflict(_) => 409,
        ErrorView::ServiceUnavailable(_) => 503,
    }
}

/// The message an error carries.
pub open spec fn message_of(e: ErrorView) -> Seq<char> {
    match e {
        ErrorView::UnexpectedError(m) => m,
        ErrorView::DatabaseError(m) => m,
        ErrorView::NotFound(m) => m,
        ErrorView::BadRequest(m) => m,
        ErrorView::Forbidden(m) => m,
        ErrorView::Unauthorized(m) => m,
        ErrorView::Conflict(m) => m,
        ErrorView::ServiceUnavailable(m) => m,
    }
}

/// Whether an error is internal: its raw cause is for the server log, not
/// for the caller.
pub open spec fn is_internal(e: ErrorView) -> bool {
    e is DatabaseError || e is UnexpectedError
}

impl ApiError {
    /// The status this error maps to at the boundary.
    pub fn status_code(&self) -> (c: u16)
        ensures
            c == status_of(self@),
    {
        match self {
            ApiError::UnexpectedError(_) => 500,
            ApiError::DatabaseError(_) => 500,
            ApiError::NotFound(_) => 404,
            ApiError::BadRequest(_) => 400,
            ApiError::Forbidden(_) => 403,
            ApiError::Unauthorized(_) => 401,
            ApiError::Conflict(_) => 409,
            ApiError::ServiceUnavailable(_) => 503,
        }
    }

    /// The message carried by this error, raw.
    pub fn message(&self) -> (m: &String)
        ensures
            m@ == message_of(self@),
    {
        match self {
            ApiError::UnexpectedError(m) => m,
            ApiError::DatabaseError(m) => m,
            ApiError::NotFound(m) => m,
            ApiError::BadRequest(m) => m,
            ApiError::Forbidden(m) => m,
            ApiError::Unauthorized(m) => m,
            ApiError::Conflict(m) => m,
            ApiError::ServiceUnavailable(m) => m,
        }
    }

    /// The message for the response body.  Internal kinds get a generic
    /// text so that storage details never leak to the caller; every other
    /// kind passes its message through.
    pub fn external_message(&self) -> (m: String)
        ensures
            is_internal(self@) ==> m@ == "Internal server error"@,
            !is_internal(self@) ==> m@ == message_of(self@),
    {
        match self {
            ApiError::UnexpectedError(_) => "Internal server error".to_owned(),
            ApiError::DatabaseError(_) => "Internal server error".to_owned(),
            ApiError::NotFound(m) => m.clone(),
            ApiError::BadRequest(m) => m.clone(),
            ApiError::Forbidden(m) => m.clone(),
            ApiError::Unauthorized(m) => m.clone(),
            ApiError::Conflict(m) => m.clone(),
            ApiError::ServiceUnavailable(m) => m.clone(),
        }
    }
}

/// Classifies the failure of a targeted read or update: a "no rows
/// returned" condition becomes `NotFound` with a message naming the lookup,
/// any other driver failure surfaces as `DatabaseError` wrapping the cause.
pub fn classify_fetch_failure(row_not_found: bool, not_found_message: String, cause: String) -> (e:
    ApiError)
    ensures
        row_not_found ==> e@ == ErrorView::NotFound(not_found_message@),
        !row_not_found ==> e@ == ErrorView::DatabaseError(cause@),
{
    if row_not_found {
        ApiError::NotFound(not_found_message)
    } else {
        ApiError::DatabaseError(cause)
    }
}

/// Classifies the failure of an insert or update that may break a
/// uniqueness constraint: a constraint violation becomes `Conflict` naming
/// the conflicting entity, any other driver failure surfaces as
/// `DatabaseError` wrapping the cause.
pub fn classify_write_failure(constraint_violation: bool, conflict_message: String, cause: String) -> (e:
    ApiError)
    ensures
        constraint_violation ==> e@ == ErrorView::Conflict(conflict_message@),
        !constraint_violation ==> e@ == ErrorView::DatabaseError(cause@),
{
    if constraint_violation {
        ApiError::Conflict(conflict_message)
    } else {
        ApiError::DatabaseError(cause)
    }
}

} // verus!
