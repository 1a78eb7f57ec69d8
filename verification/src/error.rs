//! The kinds of error, and the status code and client-facing message
//! each is answered with.

use vstd::prelude::*;
use vstd::string::*;

verus! {

/// Everything that can go wrong while serving a request.
#[derive(Debug, Clone, PartialEq, Eq)]
pub enum AppError {
    /// Bad credentials, or a missing, invalid or expired token.
    Auth(String),
    /// The persistence layer failed; holds its description of the failure.
    Database(String),
    /// Malformed input or a violated business rule.
    Validation(String),
    /// A cryptographic or otherwise internal failure.
    Internal(String),
    /// The entity asked for does not exist.
    NotFound(String),
}

/// The mathematical value of an [`AppError`].
pub enum AppErrorView {
    Auth(Seq<char>),
    Database(Seq<char>),
    Validation(Seq<char>),
    Internal(Seq<char>),
    NotFound(Seq<char>),
}

impl View for AppError {
    type V = AppErrorView;

    open spec fn view(&self) -> AppErrorView {
        match self {
            AppError::Auth(m) => AppErrorView::Auth(m@),
            AppError::Database(m) => AppErrorView::Database(m@),
            AppError::Validation(m) => AppErrorView::Validation(m@),
            AppError::Internal(m) => AppErrorView::Internal(m@),
            AppError::NotFound(m) => AppErrorView::NotFound(m@),
        }
    }
}

/// What is sent to the client for an error: the status code and the body's
/// `message` field.
#[derive(Debug, Clone, PartialEq, Eq)]
pub struct ErrorResponse {
    pub status: u16,
    pub message: String,
}

pub const UNAUTHORIZED: u16 = 401;

pub const BAD_REQUEST: u16 = 400;

pub const NOT_FOUND: u16 = 404;

pub const INTERNAL_SERVER_ERROR: u16 = 500;

impl AppErrorView {
    /// The HTTP status code of each kind of error.
    pub open spec fn status_code(self) -> u16 {
        match self {
            AppErrorView::Auth(_) => UNAUTHORIZED,
            AppErrorView::Database(_) => INTERNAL_SERVER_ERROR,
            AppErrorView::Validation(_) => BAD_REQUEST,
            AppErrorView::Internal(_) => INTERNAL_SERVER_ERROR,
            AppErrorView::NotFound(_) => NOT_FOUND,
        }
    }

    /// The full description of the error, as it is logged on the server.
    pub open spec fn text(self) -> Seq<char> {
        match self {
            AppErrorView::Auth(m) => "Authentication error: "@ + m,
            AppErrorView::Database(m) => "Database error: "@ + m,
            AppErrorView::Validation(m) => "Validation error: "@ + m,
            AppErrorView::Internal(m) => "Internal server error: "@ + m,
            AppErrorView::NotFound(m) => "Not found: "@ + m,
        }
    }

    /// The message shown to the client: the description, except that an
    /// error answered with status 500 never shows its cause.
    pub open spec fn client_message(self) -> Seq<char> {
        if self.status_code() == INTERNAL_SERVER_ERROR {
            "An internal server error occurred"@
        } else {
            self.text()
        }
    }
}

/// A result taken by the views of what it holds.
pub open spec fn result_view<T: View>(r: Result<T, AppError>) -> Result<T::V, AppErrorView> {
    match r {
        Ok(value) => Ok(value@),
        Err(e) => Err(e@),
    }
}

impl AppError {
    /// The HTTP status code this error is answered with.
    pub fn status_code(&self) -> (code: u16)
        ensures
            code == self@.status_code(),
    {
        match self {
            AppError::Auth(_) => UNAUTHORIZED,
            AppError::Database(_) => INTERNAL_SERVER_ERROR,
            AppError::Validation(_) => BAD_REQUEST,
            AppError::Internal(_) => INTERNAL_SERVER_ERROR,
            AppError::NotFound(_) => NOT_FOUND,
        }
    }

    /// The full description of the error.
    pub fn to_string(&self) -> (text: String)
        ensures
            text@ == self@.text(),
    {
        match self {
            AppError::Auth(m) => String::from_str("Authentication error: ").concat(m.as_str()),
            AppError::Database(m) => String::from_str("Database error: ").concat(m.as_str()),
            AppError::Validation(m) => String::from_str("Validation error: ").concat(m.as_str()),
            AppError::Internal(m) => String::from_str("Internal server error: ").concat(
                m.as_str(),
            ),
            AppError::NotFound(m) => String::from_str("Not found: ").concat(m.as_str()),
        }
    }

    /// The status code and the sanitised message sent to the client.
    pub fn error_response(&self) -> (response: ErrorResponse)
        ensures
            response.status == self@.status_code(),
            response.message@ == self@.client_message(),
    {
        let status: u16 = self.status_code();
        let message = if status == INTERNAL_SERVER_ERROR {
            String::from_str("An internal server error occurred")
        } else {
            self.to_string()
        };
        ErrorResponse { status, message }
    }
}

} // verus!
