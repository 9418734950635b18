//! One call to the service from end to end: the signed request goes out
//! once, the status of the response is judged before anything reads its
//! body, and the body is decoded last.
use crate::decode::{decode, decode_single, is_first, is_value};
use crate::error::ApiError;
use crate::request::{is_request_outcome, Request};
use crate::status::is_success;
use crate::transport::{round_trip, Response};
use vstd::prelude::*;

verus! {

/// How the reply to an action that answers with one document is judged.
/// The decoder enters only where the status is 2xx.
pub open spec fn is_document_reply<T, D>(
    res: Result<T, ApiError>,
    reply: Result<Response, String>,
    decoder: D,
) -> bool where D: FnOnce(String) -> Result<T, String> {
    match reply {
        Err(reason) => res == Err::<T, ApiError>(ApiError::TransportError(reason)),
        Ok(response) => if is_success(response.status) {
            exists|decoded: Result<T, String>| #[trigger]
                call_ensures(decoder, (response.body,), decoded) && is_value(res, decoded)
        } else {
            res == Err::<T, ApiError>(ApiError::RequestFailed(response.status))
        },
    }
}

/// How the reply to an action that answers with an array is judged.
/// The decoder enters only where the status is 2xx.
pub open spec fn is_single_reply<T, D>(
    res: Result<T, ApiError>,
    reply: Result<Response, String>,
    decoder: D,
) -> bool where D: FnOnce(String) -> Result<Vec<T>, String> {
    match reply {
        Err(reason) => res == Err::<T, ApiError>(ApiError::TransportError(reason)),
        Ok(response) => if is_success(response.status) {
            exists|decoded: Result<Vec<T>, String>| #[trigger]
                call_ensures(decoder, (response.body,), decoded) && is_first(res, decoded)
        } else {
            res == Err::<T, ApiError>(ApiError::RequestFailed(response.status))
        },
    }
}

/// What a call that answers with one document comes to: the failure to
/// build the request, or the judgement of the reply to the request built.
pub open spec fn is_document_call<T, S, D>(
    res: Result<T, ApiError>,
    send: S,
    decoder: D,
    base: Seq<char>,
    action: Seq<char>,
    params: Map<Seq<char>, Seq<char>>,
    consumer_key: Seq<char>,
    consumer_secret: Seq<char>,
    token: Option<(Seq<char>, Seq<char>)>,
) -> bool where
    S: FnOnce(Request) -> Result<Response, String>,
    D: FnOnce(String) -> Result<T, String>,
 {
    exists|built: Result<Request, ApiError>| #[trigger]
        is_request_outcome(built, base, action, params, consumer_key, consumer_secret, token)
            && match built {
            Err(error) => res == Err::<T, ApiError>(error),
            Ok(request) => exists|reply: Result<Response, String>| #[trigger]
                call_ensures(send, (request,), reply) && is_document_reply(res, reply, decoder),
        }
}

/// What a call that answers with an array comes to.
pub open spec fn is_single_call<T, S, D>(
    res: Result<T, ApiError>,
    send: S,
    decoder: D,
    base: Seq<char>,
    action: Seq<char>,
    params: Map<Seq<char>, Seq<char>>,
    consumer_key: Seq<char>,
    consumer_secret: Seq<char>,
    token: Option<(Seq<char>, Seq<char>)>,
) -> bool where
    S: FnOnce(Request) -> Result<Response, String>,
    D: FnOnce(String) -> Result<Vec<T>, String>,
 {
    exists|built: Result<Request, ApiError>| #[trigger]
        is_request_outcome(built, base, action, params, consumer_key, consumer_secret, token)
            && match built {
            Err(error) => res == Err::<T, ApiError>(error),
            Ok(request) => exists|reply: Result<Response, String>| #[trigger]
                call_ensures(send, (request,), reply) && is_single_reply(res, reply, decoder),
        }
}

/// A reply whose status is not 2xx fails with that status, whatever its
/// body holds and whatever the decoder would make of it.
pub proof fn lemma_document_fails_on_status<T, D>(
    res: Result<T, ApiError>,
    response: Response,
    decoder: D,
) where D: FnOnce(String) -> Result<T, String>
    requires
        !is_success(response.status),
        is_document_reply(res, Ok(response), decoder),
    ensures
        res == Err::<T, ApiError>(ApiError::RequestFailed(response.status)),
{
}

/// The same of an action that answers with an array.
pub proof fn lemma_single_fails_on_status<T, D>(
    res: Result<T, ApiError>,
    response: Response,
    decoder: D,
) where D: FnOnce(String) -> Result<Vec<T>, String>
    requires
        !is_success(response.status),
        is_single_reply(res, Ok(response), decoder),
    ensures
        res == Err::<T, ApiError>(ApiError::RequestFailed(response.status)),
{
}

/// Carries out a call that answers with one document, where `built` is the
/// request or the reason why there is none.
pub fn call_document<T, S, D>(built: Result<Request, ApiError>, send: S, decoder: D) -> (res:
    Result<T, ApiError>) where
    S: FnOnce(Request) -> Result<Response, String>,
    D: FnOnce(String) -> Result<T, String>,

    requires
        built matches Ok(request) ==> call_requires(send, (request,)),
        forall|body: String| call_requires(decoder, (body,)),
    ensures
        match built {
            Err(error) => res == Err::<T, ApiError>(error),
            Ok(request) => exists|reply: Result<Response, String>| #[trigger]
                call_ensures(send, (request,), reply) && is_document_reply(res, reply, decoder),
        },
{
    match built {
        Err(error) => Err(error),
        Ok(request) => match round_trip(request, send) {
            Err(error) => Err(error),
            Ok(body) => decode(body, decoder),
        },
    }
}

/// Carries out a call that answers with an array, where `built` is the
/// request or the reason why there is none.
pub fn call_single<T, S, D>(built: Result<Request, ApiError>, send: S, decoder: D) -> (res:
    Result<T, ApiError>) where
    S: FnOnce(Request) -> Result<Response, String>,
    D: FnOnce(String) -> Result<Vec<T>, String>,

    requires
        built matches Ok(request) ==> call_requires(send, (request,)),
        forall|body: String| call_requires(decoder, (body,)),
    ensures
        match built {
            Err(error) => res == Err::<T, ApiError>(error),
            Ok(request) => exists|reply: Result<Response, String>| #[trigger]
                call_ensures(send, (request,), reply) && is_single_reply(res, reply, decoder),
        },
{
    match built {
        Err(error) => Err(error),
        Ok(request) => match round_trip(request, send) {
            Err(error) => Err(error),
            Ok(body) => decode_single(body, decoder),
        },
    }
}

} // verus!
