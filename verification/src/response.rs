//! The envelope of API responses and the errors the API answers with.
use vstd::prelude::*;

verus! {

/// Whether a response carries data or an error.
#[derive(Clone, Copy, Debug, PartialEq, Eq, Structural)]
pub enum ResponseStatus {
    Success,
    Error,
}

/// A response: a status, and either the data or an error message.
pub struct ApiResponse<T> {
    pub status: ResponseStatus,
    pub data: Option<T>,
    pub msg: Option<String>,
}

impl<T> ApiResponse<T> {
    /// A successful response carrying `data`.
    pub fn ok(data: T) -> (r: Self)
        ensures
            r.status == ResponseStatus::Success,
            r.data == Some(data),
            r.msg is None,
    {
        ApiResponse { status: ResponseStatus::Success, data: Some(data), msg: None }
    }

    /// An error response carrying the message `msg`.
    pub fn error(msg: String) -> (r: Self)
        ensures
            r.status == ResponseStatus::Error,
            r.data is None,
            r.msg == Some(msg),
    {
        ApiResponse { status: ResponseStatus::Error, data: None, msg: Some(msg) }
    }
}

/// An error answered by the API.
#[derive(Debug)]
pub enum ApiError {
    DbError(String),
    NotImplemented(String),
    Unauthorized(String),
    NotFound(String),
    BadRequest(String),
    ServiceUnavailable(String),
    InternalServerError,
}

/// The HTTP status code answered for an error.
pub open spec fn status_code_spec(e: ApiError) -> u16 {
    match e {
        ApiError::DbError(_) => 500,
        ApiError::NotImplemented(_) => 501,
        ApiError::Unauthorized(_) => 401,
        ApiError::NotFound(_) => 404,
        ApiError::BadRequest(_) => 400,
        ApiError::ServiceUnavailable(_) => 503,
        ApiError::InternalServerError => 500,
    }
}

/// The message answered for an error: the one it carries, or
/// `Internal server error`.
pub open spec fn error_message_spec(e: ApiError) -> Seq<char> {
    match e {
        ApiError::DbError(m) => m@,
        ApiError::NotImplemented(m) => m@,
        ApiError::Unauthorized(m) => m@,
        ApiError::NotFound(m) => m@,
        ApiError::BadRequest(m) => m@,
        ApiError::ServiceUnavailable(m) => m@,
        ApiError::InternalServerError => "Internal server error"@,
    }
}

/// `e` is a bad request with the message `msg`.
pub open spec fn is_bad_request(e: ApiError, msg: Seq<char>) -> bool {
    e matches ApiError::BadRequest(m) && m@ == msg
}

impl ApiError {
    /// The HTTP status code of this error.
    pub fn status_code(&self) -> (r: u16)
        ensures
            r == status_code_spec(*self),
    {
        match self {
            ApiError::DbError(_) => 500,
            ApiError::NotImplemented(_) => 501,
            ApiError::Unauthorized(_) => 401,
            ApiError::NotFound(_) => 404,
            ApiError::BadRequest(_) => 400,
            ApiError::ServiceUnavailable(_) => 503,
            ApiError::InternalServerError => 500,
        }
    }

    /// The status code and the error response that answer this error.
    pub fn into_response_parts(self) -> (r: (u16, ApiResponse<()>))
        ensures
            r.0 == status_code_spec(self),
            r.1.status == ResponseStatus::Error,
            r.1.data is None,
            r.1.msg matches Some(m) && m@ == error_message_spec(self),
    {
        let code = self.status_code();
        let msg = match self {
            ApiError::DbError(m) => m,
            ApiError::NotImplemented(m) => m,
            ApiError::Unauthorized(m) => m,
            ApiError::NotFound(m) => m,
            ApiError::BadRequest(m) => m,
            ApiError::ServiceUnavailable(m) => m,
            ApiError::InternalServerError => "Internal server error".to_owned(),
        };
        (code, ApiResponse::error(msg))
    }

    /// A bad request with the message `msg`.
    pub fn bad_request(msg: &str) -> (r: ApiError)
        ensures
            is_bad_request(r, msg@),
    {
        ApiError::BadRequest(msg.to_owned())
    }
}

} // verus!
