//! The envelope that every answer of the service travels in.

use vstd::prelude::*;
use vstd::string::StringExecFns;

verus! {

/// The business status code that every envelope carries.
pub open spec fn code_spec() -> Seq<char> {
    "200"@
}

/// The message of an envelope that carries data.
pub open spec fn success_message_spec() -> Seq<char> {
    "success"@
}

/// An answer: a business status code, a message, and the data if there is
/// any.
#[derive(Debug)]
pub struct ApiResult<T> {
    /// Business status code.
    pub code: String,
    /// Message for the reader.
    pub message: String,
    /// The data of the answer.
    pub data: Option<T>,
}

impl<T> ApiResult<T> {
    /// An answer without data, with the given message.
    pub fn error(message: &str) -> (result: ApiResult<T>)
        ensures
            result.code@ == code_spec(),
            result.message@ == message@,
            result.data is None,
    {
        ApiResult {
            code: String::from_str("200"),
            message: String::from_str(message),
            data: None,
        }
    }

    /// An answer that carries `data`.
    pub fn success(data: T) -> (result: ApiResult<T>)
        ensures
            result.code@ == code_spec(),
            result.message@ == success_message_spec(),
            result.data == Some(data),
    {
        ApiResult {
            code: String::from_str("200"),
            message: String::from_str("success"),
            data: Some(data),
        }
    }
}

/// One page of a longer list.
#[derive(Debug)]
pub struct Pagination<T> {
    /// Number of this page.
    pub page: u32,
    /// Entries per page.
    pub size: u32,
    /// Number of pages.
    pub pages: u64,
    /// Number of entries in all.
    pub total: u64,
    /// The entries of this page.
    pub data: Option<Vec<T>>,
}

} // verus!
