//! Errors of the control surface.

use vstd::prelude::*;
use vstd::string::*;

verus! {

/// What can go wrong while a request is served.
#[derive(Debug)]
pub enum AppError {
    Database(String),
    Auth(String),
    Validation(String),
    NotFound(String),
    Conflict(String),
    Internal(String),
}

/// Mathematical value of [`AppError`].
pub enum AppErrorView {
    Database(Seq<char>),
    Auth(Seq<char>),
    Validation(Seq<char>),
    NotFound(Seq<char>),
    Conflict(Seq<char>),
    Internal(Seq<char>),
}

impl View for AppError {
    type V = AppErrorView;

    open spec fn view(&self) -> AppErrorView {
        match self {
            AppError::Database(m) => AppErrorView::Database(m@),
            AppError::Auth(m) => AppErrorView::Auth(m@),
            AppError::Validation(m) => AppErrorView::Validation(m@),
            AppError::NotFound(m) => AppErrorView::NotFound(m@),
            AppError::Conflict(m) => AppErrorView::Conflict(m@),
            AppError::Internal(m) => AppErrorView::Internal(m@),
        }
    }
}

/// Result of an operation of the control surface.
pub type AppResult<T> = Result<T, AppError>;

impl AppErrorView {
    /// HTTP status that answers the error.
    pub open spec fn status_code(self) -> u16 {
        match self {
            AppErrorView::Database(_) => 500,
            AppErrorView::Auth(_) => 401,
            AppErrorView::Validation(_) => 400,
            AppErrorView::NotFound(_) => 404,
            AppErrorView::Conflict(_) => 409,
            AppErrorView::Internal(_) => 500,
        }
    }

    /// Message shown to the client. What the database said is withheld.
    pub open spec fn message(self) -> Seq<char> {
        match self {
            AppErrorView::Database(_) => "Database operation failed"@,
            AppErrorView::Auth(m) => m,
            AppErrorView::Validation(m) => m,
            AppErrorView::NotFound(m) => m,
            AppErrorView::Conflict(m) => m,
            AppErrorView::Internal(m) => m,
        }
    }

    /// The error in words, with its kind in front.
    pub open spec fn text(self) -> Seq<char> {
        match self {
            AppErrorView::Database(m) => "Database error: "@ + m,
            AppErrorView::Auth(m) => "Authentication error: "@ + m,
            AppErrorView::Validation(m) => "Validation error: "@ + m,
            AppErrorView::NotFound(m) => "Not found: "@ + m,
            AppErrorView::Conflict(m) => "Conflict: "@ + m,
            AppErrorView::Internal(m) => "Internal server error: "@ + m,
        }
    }
}

impl AppError {
    /// A failed authentication.
    pub fn auth(message: &str) -> (out: Self)
        ensures
            out@ == AppErrorView::Auth(message@),
    {
        AppError::Auth(message.to_owned())
    }

    /// A request that breaks a rule on its fields.
    pub fn validation(message: &str) -> (out: Self)
        ensures
            out@ == AppErrorView::Validation(message@),
    {
        AppError::Validation(message.to_owned())
    }

    /// Something asked for that does not exist.
    pub fn not_found(message: &str) -> (out: Self)
        ensures
            out@ == AppErrorView::NotFound(message@),
    {
        AppError::NotFound(message.to_owned())
    }

    /// A request at odds with what is stored.
    pub fn conflict(message: &str) -> (out: Self)
        ensures
            out@ == AppErrorView::Conflict(message@),
    {
        AppError::Conflict(message.to_owned())
    }

    /// A fault of the server itself.
    pub fn internal(message: &str) -> (out: Self)
        ensures
            out@ == AppErrorView::Internal(message@),
    {
        AppError::Internal(message.to_owned())
    }

    /// A fault of the data store.
    pub fn database(message: &str) -> (out: Self)
        ensures
            out@ == AppErrorView::Database(message@),
    {
        AppError::Database(message.to_owned())
    }

    /// HTTP status that answers the error.
    pub fn status_code(&self) -> (out: u16)
        ensures
            out == self@.status_code(),
    {
        match self {
            AppError::Database(_) => 500,
            AppError::Auth(_) => 401,
            AppError::Validation(_) => 400,
            AppError::NotFound(_) => 404,
            AppError::Conflict(_) => 409,
            AppError::Internal(_) => 500,
        }
    }

    /// Message shown to the client.
    pub fn message(&self) -> (out: String)
        ensures
            out@ == self@.message(),
    {
        match self {
            AppError::Database(_) => "Database operation failed".to_owned(),
            AppError::Auth(m) => m.clone(),
            AppError::Validation(m) => m.clone(),
            AppError::NotFound(m) => m.clone(),
            AppError::Conflict(m) => m.clone(),
            AppError::Internal(m) => m.clone(),
        }
    }

    /// The error in words, with its kind in front.
    pub fn to_string(&self) -> (out: String)
        ensures
            out@ == self@.text(),
    {
        match self {
            AppError::Database(m) => "Database error: ".to_owned().concat(m.as_str()),
            AppError::Auth(m) => "Authentication error: ".to_owned().concat(m.as_str()),
            AppError::Validation(m) => "Validation error: ".to_owned().concat(m.as_str()),
            AppError::NotFound(m) => "Not found: ".to_owned().concat(m.as_str()),
            AppError::Conflict(m) => "Conflict: ".to_owned().concat(m.as_str()),
            AppError::Internal(m) => "Internal server error: ".to_owned().concat(m.as_str()),
        }
    }
}

} // verus!
