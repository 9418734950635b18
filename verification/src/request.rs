//! Signed requests: the endpoint of an action, its form parameters and the
//! OAuth 1.0a `Authorization` header over both.
use crate::client::Client;
use crate::error::ApiError;
use crate::params::{map_of, Params};
use crate::query::{is_url, url_parses};
use std::borrow::Cow;
use std::collections::HashMap;
use vstd::prelude::*;
use vstd::string::StringExecFns;

verus! {

/// What a transport has to send: an HTTP request to `url` with `params` as
/// the form-encoded body and `authorization` as the `Authorization` header.
/// The method is always `POST`.
#[derive(Debug)]
pub struct Request {
    pub method: String,
    pub url: String,
    pub params: Params,
    pub authorization: String,
}

/// The header value that `oauth1::authorize` builds for a request when it
/// draws `nonce` as the nonce and reads `timestamp` (in seconds) as the time:
/// the HMAC-SHA1 signature over the method, the URI and the sorted parameters,
/// keyed by the consumer secret and the token secret, together with the
/// `oauth_*` fields.
pub uninterp spec fn oauth_header(
    method: Seq<char>,
    uri: Seq<char>,
    consumer_key: Seq<char>,
    consumer_secret: Seq<char>,
    token: Option<(Seq<char>, Seq<char>)>,
    params: Map<Seq<char>, Seq<char>>,
    nonce: Seq<char>,
    timestamp: int,
) -> Seq<char>;

/// Address of `action` below `base`.
pub open spec fn endpoint(base: Seq<char>, action: Seq<char>) -> Seq<char> {
    base + "/api/1.1/"@ + action
}

/// A header value begins with the scheme `OAuth` and a space.
pub open spec fn has_oauth_scheme(header: Seq<char>) -> bool {
    header.len() >= 6 && header.subrange(0, 6) == "OAuth "@
}

/// The token as texts.
pub open spec fn token_texts(token: Option<(&str, &str)>) -> Option<(Seq<char>, Seq<char>)> {
    match token {
        Some((key, secret)) => Some((key@, secret@)),
        None => None,
    }
}

/// `header` is an `Authorization` value for the request, for some nonce and
/// some time of signing.
pub open spec fn is_signature(
    header: Seq<char>,
    method: Seq<char>,
    uri: Seq<char>,
    consumer_key: Seq<char>,
    consumer_secret: Seq<char>,
    token: Option<(Seq<char>, Seq<char>)>,
    params: Map<Seq<char>, Seq<char>>,
) -> bool {
    &&& has_oauth_scheme(header)
    &&& exists|nonce: Seq<char>, timestamp: int|
        header == #[trigger] oauth_header(
            method,
            uri,
            consumer_key,
            consumer_secret,
            token,
            params,
            nonce,
            timestamp,
        )
}

/// What building a signed request comes to: failure exactly where the
/// endpoint is not a URL; otherwise a POST to the endpoint that carries
/// exactly `params` and a signature over them.
pub open spec fn is_request_outcome(
    res: Result<Request, ApiError>,
    base: Seq<char>,
    action: Seq<char>,
    params: Map<Seq<char>, Seq<char>>,
    consumer_key: Seq<char>,
    consumer_secret: Seq<char>,
    token: Option<(Seq<char>, Seq<char>)>,
) -> bool {
    match res {
        Ok(request) => {
            &&& url_parses(endpoint(base, action))
            &&& request.method@ == "POST"@
            &&& request.url@ == endpoint(base, action)
            &&& request.params@ == params
            &&& is_signature(
                request.authorization@,
                "POST"@,
                endpoint(base, action),
                consumer_key,
                consumer_secret,
                token,
                params,
            )
        },
        Err(error) => {
            &&& !url_parses(endpoint(base, action))
            &&& error matches ApiError::UrlError(url)
            &&& url@ == endpoint(base, action)
        },
    }
}

/// Signing is a function of the request, the credentials, the nonce and the
/// time of signing, and of nothing else: two headers over parameters that
/// bind the same names to the same values, in whatever order those were put
/// together, made with the same nonce at the same time, are the same header.
pub proof fn lemma_same_inputs_same_header(
    first: Seq<char>,
    second: Seq<char>,
    method: Seq<char>,
    uri: Seq<char>,
    consumer_key: Seq<char>,
    consumer_secret: Seq<char>,
    token: Option<(Seq<char>, Seq<char>)>,
    first_params: Map<Seq<char>, Seq<char>>,
    second_params: Map<Seq<char>, Seq<char>>,
    nonce: Seq<char>,
    timestamp: int,
)
    requires
        forall|name: Seq<char>|
            first_params.contains_key(name) <==> second_params.contains_key(name),
        forall|name: Seq<char>|
            first_params.contains_key(name) ==> first_params[name] == second_params[name],
        first == oauth_header(
            method,
            uri,
            consumer_key,
            consumer_secret,
            token,
            first_params,
            nonce,
            timestamp,
        ),
        second == oauth_header(
            method,
            uri,
            consumer_key,
            consumer_secret,
            token,
            second_params,
            nonce,
            timestamp,
        ),
    ensures
        first == second,
{
    assert(first_params =~= second_params);
}

/// Parameters put together in either order are the same parameters.
pub proof fn lemma_params_ignore_order(
    params: Map<Seq<char>, Seq<char>>,
    name: Seq<char>,
    value: Seq<char>,
    other_name: Seq<char>,
    other_value: Seq<char>,
)
    requires
        name != other_name,
    ensures
        params.insert(name, value).insert(other_name, other_value) == params.insert(
            other_name,
            other_value,
        ).insert(name, value),
{
    assert(params.insert(name, value).insert(other_name, other_value) =~= params.insert(
        other_name,
        other_value,
    ).insert(name, value));
}

/// Root of the service in production.
pub const SERVICE_URL: &'static str = "https://www.instapaper.com";

/// Trusted: calls `oauth1::authorize` with the consumer and token credentials
/// and with `pairs` as a hash map, in which the later of two pairs with one
/// name counts. That function draws a random nonce and reads the clock, and
/// computes the header from those two and its arguments by sorting,
/// percent-encoding and HMAC-SHA1; the parameters enter as a map, their
/// order does not. So the header is `oauth_header` of the arguments for some
/// nonce and some timestamp. It is formatted as `OAuth ` followed by the
/// `oauth_*` fields.
#[verifier::external_body]
fn authorize(
    method: &str,
    uri: &str,
    consumer_key: &str,
    consumer_secret: &str,
    token: Option<(&str, &str)>,
    pairs: &Vec<(String, String)>,
) -> (header: String)
    ensures
        has_oauth_scheme(header@),
        exists|nonce: Seq<char>, timestamp: int|
            header@ == #[trigger] oauth_header(
                method@,
                uri@,
                consumer_key@,
                consumer_secret@,
                token_texts(token),
                map_of(pairs@),
                nonce,
                timestamp,
            ),
{
    let consumer = oauth1::Token::new(consumer_key, consumer_secret);
    let token = match token {
        Some((key, secret)) => Some(oauth1::Token::new(key, secret)),
        None => None,
    };
    let mut form: HashMap<&str, Cow<str>> = HashMap::new();
    for pair in pairs.iter() {
        form.insert(pair.0.as_str(), Cow::Borrowed(pair.1.as_str()));
    }
    oauth1::authorize(method, uri, &consumer, token.as_ref(), Some(form))
}

/// Builds the signed POST for `action` below `base`, with `params` as its
/// form parameters. The client's token signs along if it has one; without an
/// `oauth_key` the request is signed by the consumer credentials alone.
pub fn signed_request(base: &str, action: &str, params: Params, client: &Client) -> (res: Result<
    Request,
    ApiError,
>)
    ensures
        is_request_outcome(
            res,
            base@,
            action@,
            params@,
            client.consumer_key@,
            client.consumer_secret@,
            client.token(),
        ),
{
    let url = String::from_str(base).concat("/api/1.1/").concat(action);
    if !is_url(url.as_str()) {
        return Err(ApiError::UrlError(url));
    }
    let empty = String::new();
    let token = match &client.oauth_key {
        Some(key) => {
            let secret = match &client.oauth_secret {
                Some(secret) => secret.as_str(),
                None => empty.as_str(),
            };
            Some((key.as_str(), secret))
        },
        None => None,
    };
    let authorization = authorize(
        "POST",
        url.as_str(),
        client.consumer_key.as_str(),
        client.consumer_secret.as_str(),
        token,
        params.entries(),
    );
    Ok(Request { method: String::from_str("POST"), url, params, authorization })
}

} // verus!
