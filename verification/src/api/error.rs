//! Errors the HTTP API answers with: a status code, a short machine-readable
//! code and a human-readable message.

use vstd::prelude::*;
use vstd::string::*;

verus! {

/// What an error answer consists of.
pub struct ApiErrorView {
    pub status: u16,
    pub error: Seq<char>,
    pub message: Seq<char>,
}

/// An error answer of the API.
#[derive(Debug, Clone, PartialEq, Eq)]
pub struct ApiError {
    /// The HTTP status code.
    pub status_code: u16,
    /// A short code naming the kind of error.
    pub error: String,
    /// A message for people.
    pub message: String,
}

impl View for ApiError {
    type V = ApiErrorView;

    open spec fn view(&self) -> ApiErrorView {
        ApiErrorView { status: self.status_code, error: self.error@, message: self.message@ }
    }
}

/// The answer to a login with wrong credentials.
pub open spec fn invalid_credentials_error() -> ApiErrorView {
    ApiErrorView { status: 401, error: "unauthorized"@, message: "Invalid credentials."@ }
}

/// The answer to a request without any accepted credentials.
pub open spec fn authentication_required_error() -> ApiErrorView {
    ApiErrorView {
        status: 401,
        error: "authentication_required"@,
        message: "Authentication required."@,
    }
}

/// The answer to a request whose session has expired.
pub open spec fn session_expired_error() -> ApiErrorView {
    ApiErrorView { status: 401, error: "session_expired"@, message: "The session has expired."@ }
}

/// The answer to a setup request once setup is done.
pub open spec fn setup_already_completed_error() -> ApiErrorView {
    ApiErrorView {
        status: 409,
        error: "setup_already_completed"@,
        message: "Setup has already been completed."@,
    }
}

/// The answer to a malformed request.
pub open spec fn bad_request_error() -> ApiErrorView {
    ApiErrorView { status: 400, error: "bad_request"@, message: "Bad request."@ }
}

/// The answer when the server failed.
pub open spec fn server_error_error() -> ApiErrorView {
    ApiErrorView { status: 500, error: "server_error"@, message: "Something went wrong."@ }
}

/// A failure reported by a service, to be answered to the client.
#[derive(Debug, Clone, PartialEq, Eq)]
pub enum ServiceError {
    /// The request was malformed; the message says how.
    BadRequest(String),
    /// The request conflicts with what is stored.
    Conflict(String),
    /// What the request names does not exist.
    NotFound(String),
    /// The service itself failed; the text describes it for the log.
    Internal(String),
}

/// The answer given for a service failure. An internal failure is not
/// described to the client.
pub open spec fn service_error_answer(e: ServiceError) -> ApiErrorView {
    match e {
        ServiceError::BadRequest(msg) => ApiErrorView { status: 400, error: "bad_request"@, message: msg@ },
        ServiceError::Conflict(msg) => ApiErrorView { status: 409, error: "conflict"@, message: msg@ },
        ServiceError::NotFound(msg) => ApiErrorView { status: 404, error: "not_found"@, message: msg@ },
        ServiceError::Internal(_) => server_error_error(),
    }
}

impl ApiError {
    fn make(status_code: u16, error: &str, message: &str) -> (r: Self)
        ensures
            r@ == (ApiErrorView { status: status_code, error: error@, message: message@ }),
    {
        ApiError { status_code, error: String::from_str(error), message: String::from_str(message) }
    }

    /// 401: the credentials were wrong.
    pub fn invalid_credentials() -> (r: Self)
        ensures
            r@ == invalid_credentials_error(),
    {
        Self::make(401, "unauthorized", "Invalid credentials.")
    }

    /// 401: no accepted credentials came with the request.
    pub fn authentication_required() -> (r: Self)
        ensures
            r@ == authentication_required_error(),
    {
        Self::make(401, "authentication_required", "Authentication required.")
    }

    /// 401: the session has expired.
    pub fn session_expired() -> (r: Self)
        ensures
            r@ == session_expired_error(),
    {
        Self::make(401, "session_expired", "The session has expired.")
    }

    /// 409: setup was already done.
    pub fn setup_already_completed() -> (r: Self)
        ensures
            r@ == setup_already_completed_error(),
    {
        Self::make(409, "setup_already_completed", "Setup has already been completed.")
    }

    /// 400: the request was malformed.
    pub fn bad_request() -> (r: Self)
        ensures
            r@ == bad_request_error(),
    {
        Self::make(400, "bad_request", "Bad request.")
    }

    /// 500: the server failed.
    pub fn server_error() -> (r: Self)
        ensures
            r@ == server_error_error(),
    {
        Self::make(500, "server_error", "Something went wrong.")
    }

    /// The same error with another message.
    pub fn with_message(self, message: String) -> (r: Self)
        ensures
            r.status_code == self.status_code,
            r.error@ == self.error@,
            r.message@ == message@,
    {
        ApiError { status_code: self.status_code, error: self.error, message }
    }

    /// The answer for a failure reported by a service.
    pub fn from_service_error(err: ServiceError) -> (r: Self)
        ensures
            r@ == service_error_answer(err),
    {
        match err {
            ServiceError::BadRequest(msg) => ApiError {
                status_code: 400,
                error: String::from_str("bad_request"),
                message: msg,
            },
            ServiceError::Conflict(msg) => ApiError {
                status_code: 409,
                error: String::from_str("conflict"),
                message: msg,
            },
            ServiceError::NotFound(msg) => ApiError {
                status_code: 404,
                error: String::from_str("not_found"),
                message: msg,
            },
            ServiceError::Internal(_) => Self::server_error(),
        }
    }
}

impl Default for ApiError {
    /// Status 200 with an empty code and message.
    fn default() -> (r: Self)
        ensures
            r@ == (ApiErrorView { status: 200, error: Seq::empty(), message: Seq::empty() }),
    {
        ApiError { status_code: 200, error: String::new(), message: String::new() }
    }
}

} // verus!
