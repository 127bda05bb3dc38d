//! The one error type of the library.

use vstd::prelude::*;

use crate::text::{decimal, decimal_of};

verus! {

/// A status code that GitHub answered with, and what it means here.
#[derive(Debug)]
pub struct ErrorResponse {
    pub message: String,
    pub status: u16,
}

/// Why a step against the GitHub API did not succeed.
#[derive(Debug)]
pub enum FreshEyesError {
    /// The request did not complete: DNS, TLS, timeout or an unreadable body.
    RequestError(String),
    /// A value that the request needs was not given; names that value.
    ValueUndefinedError(String),
    /// GitHub answered with a status that is not a success.
    StatusCodeError(ErrorResponse),
    /// Forking the repository failed, for the reason held inside.
    ForkError(Box<FreshEyesError>),
    /// No credential was given, so no request was sent.
    MissingTokenError,
    /// Anything that fits none of the kinds above.
    Unknown(String),
}

/// The text with which an error is reported to a person.
pub open spec fn error_text(e: FreshEyesError) -> Seq<char>
    decreases e,
{
    match e {
        FreshEyesError::RequestError(t) => "An error occurred while the request was being executed: "@ + t@,
        FreshEyesError::ValueUndefinedError(v) => "value of "@ + v@ + " is undefined"@,
        FreshEyesError::StatusCodeError(r) => r.message@ + " (status "@ + decimal_of(r.status as nat) + ")"@,
        FreshEyesError::ForkError(inner) => "error forking the repository: "@ + error_text(*inner),
        FreshEyesError::MissingTokenError => "authorization token not found"@,
        FreshEyesError::Unknown(m) => "unknown error: "@ + m@,
    }
}

impl FreshEyesError {
    /// The text with which this error is reported to a person.
    pub fn message(&self) -> (r: String)
        ensures
            r@ == error_text(*self),
        decreases self,
    {
        match self {
            FreshEyesError::RequestError(t) => {
                let mut r = String::from_str("An error occurred while the request was being executed: ");
                r.append(t.as_str());
                r
            },
            FreshEyesError::ValueUndefinedError(v) => {
                let mut r = String::from_str("value of ");
                r.append(v.as_str());
                r.append(" is undefined");
                r
            },
            FreshEyesError::StatusCodeError(e) => {
                let mut r = e.message.clone();
                r.append(" (status ");
                let code = decimal(e.status as u64);
                r.append(code.as_str());
                r.append(")");
                r
            },
            FreshEyesError::ForkError(inner) => {
                let mut r = String::from_str("error forking the repository: ");
                let detail = inner.message();
                r.append(detail.as_str());
                r
            },
            FreshEyesError::MissingTokenError => String::from_str("authorization token not found"),
            FreshEyesError::Unknown(m) => {
                let mut r = String::from_str("unknown error: ");
                r.append(m.as_str());
                r
            },
        }
    }
}

} // verus!
