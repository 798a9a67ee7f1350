//! Errors that reach a client, and how they are reported.

use vstd::prelude::*;
use vstd::string::*;

verus! {

/// Mathematical content of an [`AppError`].
pub enum AppErrorView {
    NotFound(Seq<char>),
    BadRequest(Seq<char>),
    Internal(Seq<char>),
}

/// A failure of a request, by category, with a message for the client.
#[derive(Debug, Clone, PartialEq, Eq)]
pub enum AppError {
    /// An unknown job id or a log that was never created.
    NotFound(String),
    /// Malformed or incomplete input.
    BadRequest(String),
    /// A failure of the machine: spawn, file system, I/O.
    Internal(String),
}

impl View for AppError {
    type V = AppErrorView;

    open spec fn view(&self) -> AppErrorView {
        match self {
            AppError::NotFound(m) => AppErrorView::NotFound(m@),
            AppError::BadRequest(m) => AppErrorView::BadRequest(m@),
            AppError::Internal(m) => AppErrorView::Internal(m@),
        }
    }
}

impl AppErrorView {
    /// The message without its category.
    pub open spec fn message(self) -> Seq<char> {
        match self {
            AppErrorView::NotFound(m) => m,
            AppErrorView::BadRequest(m) => m,
            AppErrorView::Internal(m) => m,
        }
    }

    /// The HTTP status that stands for the category.
    pub open spec fn status_code(self) -> u16 {
        match self {
            AppErrorView::NotFound(_) => 404,
            AppErrorView::BadRequest(_) => 400,
            AppErrorView::Internal(_) => 500,
        }
    }

    /// The words that introduce the category in a log line.
    pub open spec fn prefix(self) -> Seq<char> {
        match self {
            AppErrorView::NotFound(_) => "Not found: "@,
            AppErrorView::BadRequest(_) => "Bad request: "@,
            AppErrorView::Internal(_) => "Internal error: "@,
        }
    }

    /// The full line: category, then message.
    pub open spec fn description(self) -> Seq<char> {
        self.prefix() + self.message()
    }
}

impl AppError {
    /// The HTTP status to answer with: 404, 400 or 500.
    pub fn status_code(&self) -> (code: u16)
        ensures
            code == self@.status_code(),
    {
        match self {
            AppError::NotFound(_) => 404,
            AppError::BadRequest(_) => 400,
            AppError::Internal(_) => 500,
        }
    }

    /// The message that goes into the body of the answer.
    pub fn message(&self) -> (text: String)
        ensures
            text@ == self@.message(),
    {
        match self {
            AppError::NotFound(m) => m.clone(),
            AppError::BadRequest(m) => m.clone(),
            AppError::Internal(m) => m.clone(),
        }
    }

    /// The error as one line of text, category first.
    pub fn describe(&self) -> (text: String)
        ensures
            text@ == self@.description(),
    {
        match self {
            AppError::NotFound(m) => String::from_str("Not found: ").concat(m.as_str()),
            AppError::BadRequest(m) => String::from_str("Bad request: ").concat(m.as_str()),
            AppError::Internal(m) => String::from_str("Internal error: ").concat(m.as_str()),
        }
    }
}

} // verus!
