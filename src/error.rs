//! The error kinds of the service and how each becomes a reply.

use vstd::prelude::*;
use crate::json::Field;
use crate::reply::{Reply, ReplyView, internal_error_message, json_reply_of};

verus! {

/// A failure to serve a request.
#[derive(Debug)]
pub enum AppError {
    /// The request's input breaks a validation rule; answered with 400.
    ValidationError(String),
    /// The requested thing does not exist; answered with 404.
    NotFound(String),
    /// Something failed inside the service; answered with 500 and a fixed
    /// message that discloses nothing.
    InternalError,
}

/// The mathematical content of an [`AppError`]: the status it is answered
/// with and the message it reports.
pub struct ErrorView {
    pub status: u16,
    pub message: Seq<char>,
}

impl View for AppError {
    type V = ErrorView;

    open spec fn view(&self) -> ErrorView {
        match self {
            AppError::ValidationError(m) => ErrorView { status: 400, message: m@ },
            AppError::NotFound(m) => ErrorView { status: 404, message: m@ },
            AppError::InternalError => ErrorView { status: 500, message: internal_error_message() },
        }
    }
}

/// A rejected input, reported with `message`.
pub open spec fn invalid(message: Seq<char>) -> ErrorView {
    ErrorView { status: 400, message }
}

/// The reply for an error: its status and `{"error":"<message>"}`.
pub open spec fn error_reply_of(e: ErrorView) -> ReplyView {
    json_reply_of(e.status, Field::Error, e.message)
}

impl AppError {
    /// The status code this error is answered with.
    pub fn status(&self) -> (r: u16)
        ensures
            r == self@.status,
    {
        match self {
            AppError::ValidationError(_) => 400,
            AppError::NotFound(_) => 404,
            AppError::InternalError => 500,
        }
    }

    /// The message this error reports.
    pub fn message(&self) -> (r: String)
        ensures
            r@ == self@.message,
    {
        match self {
            AppError::ValidationError(m) => m.clone(),
            AppError::NotFound(m) => m.clone(),
            AppError::InternalError => String::from_str("Internal Server Error"),
        }
    }

    /// The reply that reports this error.
    pub fn into_response(self) -> (r: Reply)
        ensures
            r@ == error_reply_of(self@),
    {
        let status = self.status();
        let message = self.message();
        Reply::json(status, Field::Error, message.as_str())
    }
}

} // verus!
