//! The errors that the server's request handling can answer with.

use vstd::prelude::*;

verus! {

/// Why a request was refused.
#[derive(Debug, Clone, PartialEq, Eq)]
pub enum AppError {
    /// The topic name is not 1 to 64 letters, digits, `-` or `_`.
    TopicInvalid,
    /// The message body exceeds the configured size limit.
    MessageTooLarge,
    /// The caller exceeded its request rate.
    TooManyRequests,
    /// Credentials are missing or wrong.
    Unauthorized,
    /// The caller is known but not allowed to do this.
    Forbidden,
    /// The request is malformed; the text says how.
    BadRequest(String),
    /// The server failed; the text says where.
    Internal(String),
}

} // verus!
