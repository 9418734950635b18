//! The xAuth token exchange: a user name and a password are traded for the
//! token credentials that sign every later request.
use crate::client::Client;
use crate::error::ApiError;
use crate::params::Params;
use crate::query::{find_last, last_value, parse_query, texts_of, url_query_pairs};
use crate::request::{is_request_outcome, signed_request, Request};
use crate::status::is_success;
use crate::transport::{round_trip, Response};
use vstd::prelude::*;
use vstd::string::StringExecFns;

verus! {

/// Parameters of `oauth/access_token`.
pub open spec fn exchange_params(username: Seq<char>, password: Seq<char>) -> Map<
    Seq<char>,
    Seq<char>,
> {
    Map::empty().insert("x_auth_username"@, username).insert("x_auth_password"@, password).insert(
        "x_auth_mode"@,
        "client_auth"@,
    )
}

/// The answer of the exchange is a query string, not a document; it is read
/// as the query of this URL, and reported as such.
pub open spec fn query_line(body: Seq<char>) -> Seq<char> {
    "https://junk.com/?"@ + body
}

/// Token and token secret among `pairs`, where both are there. Other pairs
/// are ignored; of several pairs with one name the last counts.
pub open spec fn token_fields(pairs: Seq<(Seq<char>, Seq<char>)>) -> Option<
    (Seq<char>, Seq<char>),
> {
    match (last_value(pairs, "oauth_token"@), last_value(pairs, "oauth_token_secret"@)) {
        (Some(key), Some(secret)) => Some((key, secret)),
        _ => None,
    }
}

/// What reading the pairs of an answer comes to: the authenticated client
/// where both fields are there, else `AuthResponseIncomplete` with the line
/// that was parsed. A line that could not be parsed at all has no pairs.
pub open spec fn is_exchange_outcome(
    res: Result<Client, ApiError>,
    consumer_key: Seq<char>,
    consumer_secret: Seq<char>,
    line: Seq<char>,
    pairs: Option<Seq<(Seq<char>, Seq<char>)>>,
) -> bool {
    match res {
        Ok(client) => {
            &&& pairs matches Some(found)
            &&& token_fields(found) matches Some((key, secret))
            &&& client.consumer_key@ == consumer_key
            &&& client.consumer_secret@ == consumer_secret
            &&& client.oauth_key matches Some(oauth_key)
            &&& oauth_key@ == key
            &&& client.oauth_secret matches Some(oauth_secret)
            &&& oauth_secret@ == secret
        },
        Err(error) => {
            &&& pairs matches Some(found) ==> token_fields(found) is None
            &&& error matches ApiError::AuthResponseIncomplete(reported)
            &&& reported@ == line
        },
    }
}

/// No two pairs have the same name.
pub open spec fn names_distinct(pairs: Seq<(Seq<char>, Seq<char>)>) -> bool {
    forall|i: int, j: int| 0 <= i < j < pairs.len() ==> pairs[i].0 != pairs[j].0
}

/// Where no name occurs twice, looking a name up finds a value exactly when
/// the pair of that name and value is among the pairs.
pub proof fn lemma_last_value_is_membership(
    pairs: Seq<(Seq<char>, Seq<char>)>,
    name: Seq<char>,
    value: Seq<char>,
)
    requires
        names_distinct(pairs),
    ensures
        last_value(pairs, name) == Some(value) <==> pairs.contains((name, value)),
    decreases pairs.len(),
{
    if pairs.len() > 0 {
        let front = pairs.drop_last();
        let last = pairs.len() - 1;
        lemma_last_value_is_membership(front, name, value);
        if pairs.contains((name, value)) {
            let i = choose|i: int| 0 <= i < pairs.len() && pairs[i] == (name, value);
            if i < last {
                assert(front[i] == (name, value));
                assert(pairs[i].0 != pairs[last].0);
            }
        }
        if front.contains((name, value)) {
            let i = choose|i: int| 0 <= i < front.len() && front[i] == (name, value);
            assert(pairs[i] == (name, value));
        }
        if pairs[last] == (name, value) {
            assert(pairs.contains((name, value)));
        }
    }
}

/// Reading the token fields does not depend on the order of the pairs: two
/// answers that hold the same pairs, each name once, give the same fields.
pub proof fn lemma_token_fields_ignore_order(
    first: Seq<(Seq<char>, Seq<char>)>,
    second: Seq<(Seq<char>, Seq<char>)>,
)
    requires
        names_distinct(first),
        names_distinct(second),
        forall|pair: (Seq<char>, Seq<char>)| first.contains(pair) <==> second.contains(pair),
    ensures
        token_fields(first) == token_fields(second),
{
    lemma_last_value_ignores_order(first, second, "oauth_token"@);
    lemma_last_value_ignores_order(first, second, "oauth_token_secret"@);
}

/// Under the same conditions every single lookup agrees.
pub proof fn lemma_last_value_ignores_order(
    first: Seq<(Seq<char>, Seq<char>)>,
    second: Seq<(Seq<char>, Seq<char>)>,
    name: Seq<char>,
)
    requires
        names_distinct(first),
        names_distinct(second),
        forall|pair: (Seq<char>, Seq<char>)| first.contains(pair) <==> second.contains(pair),
    ensures
        last_value(first, name) == last_value(second, name),
{
    match last_value(first, name) {
        Some(value) => {
            lemma_last_value_is_membership(first, name, value);
            lemma_last_value_is_membership(second, name, value);
        },
        None => {
            match last_value(second, name) {
                Some(value) => {
                    lemma_last_value_is_membership(first, name, value);
                    lemma_last_value_is_membership(second, name, value);
                },
                None => {},
            }
        },
    }
}

/// An answer that holds just the token and the token secret yields both,
/// whichever of the two comes first.
pub proof fn lemma_token_fields_either_order(token: Seq<char>, secret: Seq<char>)
    ensures
        token_fields(seq![("oauth_token"@, token), ("oauth_token_secret"@, secret)]) == Some(
            (token, secret),
        ),
        token_fields(seq![("oauth_token_secret"@, secret), ("oauth_token"@, token)]) == Some(
            (token, secret),
        ),
{
    reveal_strlit("oauth_token");
    reveal_strlit("oauth_token_secret");
    assert("oauth_token"@.len() == 11 && "oauth_token_secret"@.len() == 18);
    let forward = seq![("oauth_token"@, token), ("oauth_token_secret"@, secret)];
    let backward = seq![("oauth_token_secret"@, secret), ("oauth_token"@, token)];
    assert(forward.drop_last() =~= seq![("oauth_token"@, token)]);
    assert(backward.drop_last() =~= seq![("oauth_token_secret"@, secret)]);
    reveal_with_fuel(last_value, 3);
}

/// The message of an incomplete answer ends in the body as it was received.
pub proof fn lemma_incomplete_message_ends_in_body(error: ApiError, body: Seq<char>)
    requires
        error matches ApiError::AuthResponseIncomplete(line) && line@ == query_line(body),
    ensures
        error.message_text() == "oauth_tokens not both in response: https://junk.com/?"@ + body,
        error.message_text().len() >= body.len(),
        error.message_text().subrange(
            error.message_text().len() - body.len(),
            error.message_text().len() as int,
        ) == body,
{
    reveal_strlit("oauth_tokens not both in response: https://junk.com/?");
    reveal_strlit("oauth_tokens not both in response: ");
    reveal_strlit("https://junk.com/?");
    let whole = "oauth_tokens not both in response: https://junk.com/?"@;
    assert(whole =~= "oauth_tokens not both in response: "@ + "https://junk.com/?"@);
    assert(error.message_text() =~= whole + body);
    assert((whole + body).subrange((whole + body).len() - body.len(), (whole + body).len() as int)
        =~= body);
}

/// The request that trades `username` and `password` for token credentials:
/// `oauth/access_token` in mode `client_auth`, signed by the consumer
/// credentials alone.
pub fn authenticate_request(
    base: &str,
    username: &str,
    password: &str,
    consumer_key: &str,
    consumer_secret: &str,
) -> (res: Result<Request, ApiError>)
    ensures
        is_request_outcome(
            res,
            base@,
            "oauth/access_token"@,
            exchange_params(username@, password@),
            consumer_key@,
            consumer_secret@,
            None,
        ),
{
    let params = Params::new().insert("x_auth_username", username).insert(
        "x_auth_password",
        password,
    ).insert("x_auth_mode", "client_auth");
    let client = Client::unauthenticated(consumer_key, consumer_secret);
    signed_request(base, "oauth/access_token", params, &client)
}

/// Picks the token credentials out of the pairs of an answer and joins them
/// to the consumer credentials. `line` is what was parsed into `pairs`.
pub fn client_from_pairs(
    consumer_key: &str,
    consumer_secret: &str,
    line: String,
    pairs: Option<Vec<(String, String)>>,
) -> (res: Result<Client, ApiError>)
    ensures
        is_exchange_outcome(
            res,
            consumer_key@,
            consumer_secret@,
            line@,
            match pairs {
                Some(found) => Some(texts_of(found@)),
                None => None,
            },
        ),
{
    let found = match pairs {
        Some(found) => found,
        None => {
            return Err(ApiError::AuthResponseIncomplete(line));
        },
    };
    let oauth_token = find_last(&found, "oauth_token");
    let oauth_token_secret = find_last(&found, "oauth_token_secret");
    match (oauth_token, oauth_token_secret) {
        (Some(key), Some(secret)) => Ok(
            Client {
                consumer_key: consumer_key.to_owned(),
                consumer_secret: consumer_secret.to_owned(),
                oauth_key: Some(key.clone()),
                oauth_secret: Some(secret.clone()),
            },
        ),
        _ => Err(ApiError::AuthResponseIncomplete(line)),
    }
}

/// Reads the body of a successful answer to the request of
/// `authenticate_request`. The body is parsed as a query string: with both
/// `oauth_token` and `oauth_token_secret` in it, in any order and among any
/// other fields, the result is the authenticated client; without one of them
/// it is `AuthResponseIncomplete`, which carries the line that ends in the
/// body.
pub fn authenticated_client(consumer_key: &str, consumer_secret: &str, body: &str) -> (res: Result<
    Client,
    ApiError,
>)
    ensures
        is_exchange_outcome(
            res,
            consumer_key@,
            consumer_secret@,
            query_line(body@),
            url_query_pairs(query_line(body@)),
        ),
{
    let line = String::from_str("https://junk.com/?").concat(body);
    let pairs = parse_query(line.as_str());
    client_from_pairs(consumer_key, consumer_secret, line, pairs)
}

/// How the reply to the exchange is judged: a transport failure is passed
/// on; a status other than 2xx fails whatever the body holds; else the body
/// is read for the token credentials.
pub open spec fn is_exchange_reply(
    res: Result<Client, ApiError>,
    reply: Result<Response, String>,
    consumer_key: Seq<char>,
    consumer_secret: Seq<char>,
) -> bool {
    match reply {
        Err(reason) => res == Err::<Client, ApiError>(ApiError::TransportError(reason)),
        Ok(response) => if is_success(response.status) {
            is_exchange_outcome(
                res,
                consumer_key,
                consumer_secret,
                query_line(response.body@),
                url_query_pairs(query_line(response.body@)),
            )
        } else {
            res == Err::<Client, ApiError>(ApiError::RequestFailed(response.status))
        },
    }
}

/// A reply whose status is not 2xx fails with that status, whatever its
/// body holds.
pub proof fn lemma_exchange_fails_on_status(
    res: Result<Client, ApiError>,
    response: Response,
    consumer_key: Seq<char>,
    consumer_secret: Seq<char>,
)
    requires
        !is_success(response.status),
        is_exchange_reply(res, Ok(response), consumer_key, consumer_secret),
    ensures
        res == Err::<Client, ApiError>(ApiError::RequestFailed(response.status)),
{
}

/// What the exchange comes to: the failure to build the request, or the
/// judgement of the reply to the request built.
pub open spec fn is_exchange_call<S>(
    res: Result<Client, ApiError>,
    send: S,
    base: Seq<char>,
    username: Seq<char>,
    password: Seq<char>,
    consumer_key: Seq<char>,
    consumer_secret: Seq<char>,
) -> bool where S: FnOnce(Request) -> Result<Response, String> {
    exists|built: Result<Request, ApiError>| #[trigger]
        is_request_outcome(
            built,
            base,
            "oauth/access_token"@,
            exchange_params(username, password),
            consumer_key,
            consumer_secret,
            None,
        ) && match built {
            Err(error) => res == Err::<Client, ApiError>(error),
            Ok(request) => exists|reply: Result<Response, String>| #[trigger]
                call_ensures(send, (request,), reply) && is_exchange_reply(
                    res,
                    reply,
                    consumer_key,
                    consumer_secret,
                ),
        }
}

/// Obtains the token credentials of a user: sends the request of
/// `authenticate_request` through `send` and reads the answer. The client
/// that comes back signs every later request; its four fields can be stored
/// and put together again without another exchange.
pub fn authenticate<S>(
    base: &str,
    username: &str,
    password: &str,
    consumer_key: &str,
    consumer_secret: &str,
    send: S,
) -> (res: Result<Client, ApiError>) where S: FnOnce(Request) -> Result<Response, String>
    requires
        forall|request: Request| call_requires(send, (request,)),
    ensures
        is_exchange_call(res, send, base@, username@, password@, consumer_key@, consumer_secret@),
{
    let built = authenticate_request(base, username, password, consumer_key, consumer_secret);
    match built {
        Err(error) => Err(error),
        Ok(request) => match round_trip(request, send) {
            Err(error) => Err(error),
            Ok(body) => authenticated_client(consumer_key, consumer_secret, body.as_str()),
        },
    }
}

} // verus!
