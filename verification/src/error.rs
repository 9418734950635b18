//! The ways in which a call to the service can fail.
use crate::decimal::{decimal, decimal_string};
use vstd::prelude::*;
use vstd::string::StringExecFns;

verus! {

/// Every failure of the client is one of these.
#[derive(Debug, Clone, PartialEq, Eq)]
pub enum ApiError {
    /// The endpoint, carried here, is not a well-formed URL.
    UrlError(String),
    /// The request never produced an HTTP response; carries the transport's
    /// own description.
    TransportError(String),
    /// A response arrived whose status is not 2xx; its body was not looked at.
    RequestFailed(u16),
    /// The body of a successful response does not have the expected shape;
    /// carries the decoder's diagnostic.
    DecodeError(String),
    /// The token exchange answered without both token fields; carries the
    /// query line that was parsed, which ends in the body as it was received.
    AuthResponseIncomplete(String),
}

impl ApiError {
    /// The text that `message` renders.
    pub open spec fn message_text(&self) -> Seq<char> {
        match self {
            ApiError::UrlError(url) => "malformed endpoint URL: "@ + url@,
            ApiError::TransportError(reason) => reason@,
            ApiError::RequestFailed(status) => "request failed with status "@ + decimal(
                *status as int,
            ),
            ApiError::DecodeError(reason) => reason@,
            ApiError::AuthResponseIncomplete(line) => "oauth_tokens not both in response: "@
                + line@,
        }
    }

    /// A one-line description of the failure, with the status code, the
    /// decoder's diagnostic or the offending text in it.
    pub fn message(&self) -> (text: String)
        ensures
            text@ == self.message_text(),
    {
        match self {
            ApiError::UrlError(url) => {
                String::from_str("malformed endpoint URL: ").concat(url.as_str())
            },
            ApiError::TransportError(reason) => reason.clone(),
            ApiError::RequestFailed(status) => {
                let digits = decimal_string(*status as i64);
                String::from_str("request failed with status ").concat(digits.as_str())
            },
            ApiError::DecodeError(reason) => reason.clone(),
            ApiError::AuthResponseIncomplete(line) => {
                String::from_str("oauth_tokens not both in response: ").concat(line.as_str())
            },
        }
    }
}

} // verus!
