//! The application error type, independent of any transport.
//!
//! The HTTP shell maps each kind to a status code and a JSON body; the
//! library pins both the mapping and the exact message text.

use vstd::prelude::*;

verus! {

/// Mathematical content of an [`AppError`].
pub ghost enum AppErrorView {
    BadRequest(Seq<char>),
    NotFound(Seq<char>),
    ExecutionError(Seq<char>),
    Internal(Seq<char>),
}

/// Error kinds of the backend.
#[derive(Debug)]
pub enum AppError {
    /// The payload was syntactically correct but semantically invalid.
    BadRequest(String),
    /// The requested resource (e.g. an active plan) does not exist.
    NotFound(String),
    /// The broker call failed: unreachable, non-success HTTP, bad retcode,
    /// timeout or parse failure.
    ExecutionError(String),
    /// Catch-all for unexpected failures.
    Internal(String),
}

impl View for AppError {
    type V = AppErrorView;

    open spec fn view(&self) -> AppErrorView {
        match self {
            AppError::BadRequest(s) => AppErrorView::BadRequest(s@),
            AppError::NotFound(s) => AppErrorView::NotFound(s@),
            AppError::ExecutionError(s) => AppErrorView::ExecutionError(s@),
            AppError::Internal(s) => AppErrorView::Internal(s@),
        }
    }
}

impl Clone for AppError {
    fn clone(&self) -> (r: Self)
        ensures
            r@ == self@,
    {
        match self {
            AppError::BadRequest(s) => AppError::BadRequest(s.clone()),
            AppError::NotFound(s) => AppError::NotFound(s.clone()),
            AppError::ExecutionError(s) => AppError::ExecutionError(s.clone()),
            AppError::Internal(s) => AppError::Internal(s.clone()),
        }
    }
}

/// The full display text of an error, with its kind prefix.
pub open spec fn spec_error_message(e: AppErrorView) -> Seq<char> {
    match e {
        AppErrorView::BadRequest(m) => "Bad request: "@ + m,
        AppErrorView::NotFound(m) => "Not found: "@ + m,
        AppErrorView::ExecutionError(m) => "Trade execution error: "@ + m,
        AppErrorView::Internal(m) => "Internal error: "@ + m,
    }
}

/// The text carried in an HTTP error body: the bare message, except that an
/// internal error keeps its prefix.
pub open spec fn spec_response_message(e: AppErrorView) -> Seq<char> {
    match e {
        AppErrorView::BadRequest(m) => m,
        AppErrorView::NotFound(m) => m,
        AppErrorView::ExecutionError(m) => m,
        AppErrorView::Internal(m) => "Internal error: "@ + m,
    }
}

impl AppError {
    /// The HTTP status the kind maps to.
    pub fn status_code(&self) -> (r: u16)
        ensures
            self@ is BadRequest ==> r == 400,
            self@ is NotFound ==> r == 404,
            self@ is ExecutionError ==> r == 502,
            self@ is Internal ==> r == 500,
    {
        match self {
            AppError::BadRequest(_) => 400,
            AppError::NotFound(_) => 404,
            AppError::ExecutionError(_) => 502,
            AppError::Internal(_) => 500,
        }
    }

    /// The full display text, with the kind prefix.
    pub fn message(&self) -> (r: String)
        ensures
            r@ == spec_error_message(self@),
    {
        match self {
            AppError::BadRequest(m) => String::from_str("Bad request: ").concat(m.as_str()),
            AppError::NotFound(m) => String::from_str("Not found: ").concat(m.as_str()),
            AppError::ExecutionError(m) => String::from_str("Trade execution error: ").concat(
                m.as_str(),
            ),
            AppError::Internal(m) => String::from_str("Internal error: ").concat(m.as_str()),
        }
    }

    /// The text for an HTTP error body.
    pub fn response_message(&self) -> (r: String)
        ensures
            r@ == spec_response_message(self@),
    {
        match self {
            AppError::BadRequest(m) => m.clone(),
            AppError::NotFound(m) => m.clone(),
            AppError::ExecutionError(m) => m.clone(),
            AppError::Internal(m) => String::from_str("Internal error: ").concat(m.as_str()),
        }
    }
}

} // verus!
