//! Errors as envelopes: what a failed request is answered with.

use crate::common::code_spec;
use crate::common::ApiResult;
use actix_web::http::StatusCode;
use vstd::prelude::*;
use vstd::string::StringExecFns;

verus! {

/// The reason phrase that the `http` crate knows for a status code, as
/// `StatusCode::canonical_reason` gives it; `None` for a number that is no
/// status code, or one without a phrase.
pub uninterp spec fn reason_named(status: u16) -> Option<Seq<char>>;

/// The message of an envelope for a status without a reason phrase.
pub open spec fn unknown_error_spec() -> Seq<char> {
    "Unknown error"@
}

/// The message of the envelope for a failed request.
pub open spec fn reason_or_unknown(reason: Option<Seq<char>>) -> Seq<char> {
    match reason {
        Some(text) => text,
        None => unknown_error_spec(),
    }
}

/// The lead of an application error's own message.
pub open spec fn unexpected_spec() -> Seq<char> {
    "An unexpected error occurred: "@
}

/// `StatusCode::from_u16`, then `StatusCode::canonical_reason`: the reason
/// phrase of a status code. The contract claims only that the phrase is a
/// function of the number; which phrase it is, is the `http` crate's.
#[verifier::external_body]
fn canonical_reason(status: u16) -> (reason: Option<&'static str>)
    ensures
        match reason {
            Some(text) => reason_named(status) == Some(text@),
            None => reason_named(status) is None,
        },
{
    match StatusCode::from_u16(status) {
        Ok(code) => code.canonical_reason(),
        Err(_) => None,
    }
}

/// The envelope for a failed request whose status has the reason phrase
/// `reason`, or has none.
pub fn error_body(reason: Option<&str>) -> (result: ApiResult<()>)
    ensures
        result.code@ == code_spec(),
        result.message@ == reason_or_unknown(
            match reason {
                Some(text) => Some(text@),
                None => None,
            },
        ),
        result.data is None,
{
    match reason {
        Some(text) => ApiResult::error(text),
        None => ApiResult::error("Unknown error"),
    }
}

/// The envelope for a request that failed with the status `status`: its
/// message is the status's reason phrase.
pub fn error_handler(status: u16) -> (result: ApiResult<()>)
    ensures
        result.code@ == code_spec(),
        result.message@ == reason_or_unknown(reason_named(status)),
        result.data is None,
{
    error_body(canonical_reason(status))
}

/// An error of the application.
#[derive(Debug)]
pub enum AppError {
    /// An error from anywhere below, by its message.
    AnyhowError(String),
}

impl AppError {
    /// The message of the error that this one wraps.
    pub open spec fn cause(&self) -> Seq<char> {
        match self {
            AppError::AnyhowError(cause) => cause@,
        }
    }

    /// The envelope that answers a request which ended in this error: no
    /// data, and the cause as the message.
    pub fn error_response(&self) -> (result: ApiResult<()>)
        ensures
            result.code@ == code_spec(),
            result.message@ == self.cause(),
            result.data is None,
    {
        match self {
            AppError::AnyhowError(cause) => ApiResult::error(cause.as_str()),
        }
    }

    /// The error's own message: a fixed lead, then the cause.
    pub fn message(&self) -> (text: String)
        ensures
            text@ == unexpected_spec() + self.cause(),
    {
        match self {
            AppError::AnyhowError(cause) => {
                String::from_str("An unexpected error occurred: ").concat(cause.as_str())
            },
        }
    }
}

} // verus!
