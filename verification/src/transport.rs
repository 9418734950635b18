//! The boundary to the network: a request goes out through a function of
//! the caller, and what comes back is judged here.
use crate::error::ApiError;
use crate::request::Request;
use crate::status::is_success;
use vstd::prelude::*;

verus! {

/// An HTTP response as far as the client reads it.
#[derive(Debug, Clone, PartialEq, Eq)]
pub struct Response {
    pub status: u16,
    pub body: String,
}

/// How a reply is judged: a transport failure is passed on with its
/// description; a status other than 2xx fails whatever the body holds; else
/// the body is handed on.
pub open spec fn is_received(res: Result<String, ApiError>, reply: Result<Response, String>)
    -> bool {
    match reply {
        Err(reason) => res == Err::<String, ApiError>(ApiError::TransportError(reason)),
        Ok(response) => if is_success(response.status) {
            res == Ok::<String, ApiError>(response.body)
        } else {
            res == Err::<String, ApiError>(ApiError::RequestFailed(response.status))
        },
    }
}

/// Judges what a transport brought back: the response, or its own account
/// of why there is none.
pub fn received(reply: Result<Response, String>) -> (res: Result<String, ApiError>)
    ensures
        is_received(res, reply),
{
    match reply {
        Err(reason) => Err(ApiError::TransportError(reason)),
        Ok(response) => if is_success(response.status) {
            Ok(response.body)
        } else {
            Err(ApiError::RequestFailed(response.status))
        },
    }
}

/// Sends `request` once through `send` and judges the reply. Nothing is
/// sent a second time, whatever comes back.
pub fn round_trip<S>(request: Request, send: S) -> (res: Result<String, ApiError>) where
    S: FnOnce(Request) -> Result<Response, String>,

    requires
        call_requires(send, (request,)),
    ensures
        exists|reply: Result<Response, String>| #[trigger]
            call_ensures(send, (request,), reply) && is_received(res, reply),
{
    let reply = send(request);
    received(reply)
}

} // verus!
