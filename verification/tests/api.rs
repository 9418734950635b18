use instapaper::{
    authenticate, ApiError, Bookmark, Client, Highlight, List, Request, Response, User,
};
use serde_json::Value;

const BASE: &str = "http://127.0.0.1:1234";

fn client() -> Client {
    Client {
        consumer_key: String::new(),
        consumer_secret: String::new(),
        oauth_key: Some(String::new()),
        oauth_secret: Some(String::new()),
    }
}

fn text(object: &Value, name: &str) -> Result<String, String> {
    match object.get(name).and_then(Value::as_str) {
        Some(found) => Ok(found.to_string()),
        None => Err(format!("missing field `{}`", name)),
    }
}

fn integer(object: &Value, name: &str) -> Result<i64, String> {
    match object.get(name).and_then(Value::as_i64) {
        Some(found) => Ok(found),
        None => Err(format!("missing field `{}`", name)),
    }
}

fn seconds(object: &Value, name: &str) -> Result<u64, String> {
    match object.get(name).and_then(Value::as_f64) {
        Some(found) => Ok(found.to_bits()),
        None => Err(format!("missing field `{}`", name)),
    }
}

fn items(value: &Value) -> Result<&Vec<Value>, String> {
    match value.as_array() {
        Some(found) => Ok(found),
        None => Err(String::from("expected a sequence")),
    }
}

fn bookmark(object: &Value) -> Result<Bookmark, String> {
    Ok(Bookmark {
        title: text(object, "title")?,
        hash: text(object, "hash")?,
        bookmark_id: integer(object, "bookmark_id")?,
        progress_timestamp_bits: seconds(object, "progress_timestamp")?,
        description: text(object, "description")?,
        url: text(object, "url")?,
        time_bits: seconds(object, "time")?,
        starred: text(object, "starred")?,
        kind: text(object, "type")?,
        private_source: text(object, "private_source")?,
    })
}

fn user(object: &Value) -> Result<User, String> {
    Ok(User {
        username: text(object, "username")?,
        user_id: integer(object, "user_id")?,
        kind: text(object, "type")?,
        subscription: text(object, "subscription_is_active")?,
    })
}

fn highlight(object: &Value) -> Result<Highlight, String> {
    Ok(Highlight {
        highlight_id: integer(object, "highlight_id")?,
        bookmark_id: integer(object, "bookmark_id")?,
        text: text(object, "text")?,
        note: object.get("note").and_then(Value::as_str).map(String::from),
        time: integer(object, "time")?,
        position: integer(object, "position")?,
        kind: text(object, "type")?,
    })
}

fn parse(body: &str) -> Result<Value, String> {
    serde_json::from_str::<Value>(body).map_err(|e| e.to_string())
}

fn bookmarks_of(body: String) -> Result<Vec<Bookmark>, String> {
    let value = parse(&body)?;
    items(&value)?.iter().map(bookmark).collect()
}

fn users_of(body: String) -> Result<Vec<User>, String> {
    let value = parse(&body)?;
    items(&value)?.iter().map(user).collect()
}

fn list_of(body: String) -> Result<List, String> {
    let value = parse(&body)?;
    let bookmarks = match value.get("bookmarks") {
        Some(found) => items(found)?.iter().map(bookmark).collect::<Result<Vec<_>, _>>()?,
        None => return Err(String::from("missing field `bookmarks`")),
    };
    let highlights = match value.get("highlights") {
        Some(found) => items(found)?.iter().map(highlight).collect::<Result<Vec<_>, _>>()?,
        None => return Err(String::from("missing field `highlights`")),
    };
    let owner = match value.get("user") {
        Some(found) => user(found)?,
        None => return Err(String::from("missing field `user`")),
    };
    let delete_ids = match value.get("delete_ids") {
        Some(found) => items(found)?.iter().filter_map(Value::as_i64).collect(),
        None => Vec::new(),
    };
    Ok(List { bookmarks, user: owner, highlights, delete_ids })
}

const DEFAULT_USER_JSON: &str =
    r#"{"username":"","user_id":0,"type":"","subscription_is_active":""}"#;

fn bookmark_json(title: &str) -> String {
    format!(
        "{{\"title\":\"{}\",\"hash\":\"\",\"bookmark_id\":0,\"progress_timestamp\":0.0,\
         \"description\":\"\",\"url\":\"\",\"time\":0.0,\"starred\":\"\",\"type\":\"\",\
         \"private_source\":\"\"}}",
        title
    )
}

/// Answers a POST to `path` below `BASE` with `status` and `body`, and any
/// other request with 501.
fn mock(path: &str, status: u16, body: &str) -> impl FnOnce(Request) -> Result<Response, String> {
    let expected = format!("{}{}", BASE, path);
    let body = body.to_string();
    move |request: Request| {
        let signed = request.authorization.starts_with("OAuth ");
        if request.method == "POST" && request.url == expected && signed {
            Ok(Response { status, body })
        } else {
            Ok(Response { status: 501, body: String::new() })
        }
    }
}

#[test]
fn test_add_bookmark() {
    let bookmark = Bookmark { title: "How I Read".to_string(), ..Bookmark::default() };
    let json = format!("[{}]", bookmark_json("How I Read"));

    let m = mock("/api/1.1/bookmarks/add", 201, &json);

    let result = client().add(BASE, "https://sirupsen.com/read", "How I Read", "", m, bookmarks_of);
    assert!(result.is_ok(), "{}", result.err().unwrap().message());
    assert_eq!(bookmark, result.unwrap());
}

#[test]
fn test_add_bookmark_garbage_json() {
    let m = mock("/api/1.1/bookmarks/add", 201, r#"[garbageeee]"#);

    let result = client().add(BASE, "https://sirupsen.com/read", "How I Read", "", m, bookmarks_of);
    assert!(result.is_err(), "Expected an error on garbage");
    let err = result.err().unwrap();
    assert!(matches!(err, ApiError::DecodeError(_)));
    assert_eq!("expected value at line 1 column 2", err.message());
}

#[test]
fn test_add_bookmark_error_code() {
    let m = mock("/api/1.1/bookmarks/add", 500, r#""#);

    let result = client().add(BASE, "https://sirupsen.com/read", "How I Read", "", m, bookmarks_of);
    assert!(result.is_err(), "Expected an error on 500");
    assert_eq!(ApiError::RequestFailed(500), result.err().unwrap());
}

#[test]
fn test_authenticate() {
    let m = mock(
        "/api/1.1/oauth/access_token",
        200,
        r#"oauth_token=token&oauth_token_secret=secret"#,
    );

    let result = authenticate(BASE, "username", "password", "key", "secret", m);
    assert!(result.is_ok(), "{}", result.err().unwrap().message());
    let client = result.unwrap();
    assert_eq!("token", client.oauth_key.unwrap());
    assert_eq!("secret", client.oauth_secret.unwrap());
}

#[test]
fn test_authenticate_reversed() {
    let m = mock(
        "/api/1.1/oauth/access_token",
        200,
        r#"oauth_token_secret=secret&oauth_token=token"#,
    );

    let result = authenticate(BASE, "username", "password", "key", "secret", m);
    assert!(result.is_ok(), "{}", result.err().unwrap().message());
    let client = result.unwrap();
    assert_eq!("token", client.oauth_key.unwrap());
    assert_eq!("secret", client.oauth_secret.unwrap());
}

#[test]
fn test_authenticate_corrupted_qline() {
    let m = mock("/api/1.1/oauth/access_token", 200, r#"badqline"#);

    let result = authenticate(BASE, "username", "password", "key", "secret", m);
    assert!(result.is_err(), "Expected an error");
    let err = result.err().unwrap();
    assert_eq!(
        "oauth_tokens not both in response: https://junk.com/?badqline",
        err.message()
    )
}

#[test]
fn test_authenticate_qline_one_good_result() {
    let m = mock("/api/1.1/oauth/access_token", 200, r#"oauth_token=1&oauth_noep=walrus"#);

    let result = authenticate(BASE, "username", "password", "key", "secret", m);
    assert!(result.is_err(), "Expected an error");
    let err = result.err().unwrap();
    assert_eq!(
        "oauth_tokens not both in response: https://junk.com/?oauth_token=1&oauth_noep=walrus",
        err.message()
    )
}

#[test]
fn test_bookmarks() {
    let list = List::default();
    let json = format!(
        "{{\"bookmarks\":[],\"user\":{},\"highlights\":[],\"delete_ids\":[]}}",
        DEFAULT_USER_JSON
    );

    let m = mock("/api/1.1/bookmarks/list", 201, &json);

    let result = client().bookmarks(BASE, m, list_of);
    assert!(result.is_ok(), "{}", result.err().unwrap().message());
    assert_eq!(list, result.unwrap());
}

#[test]
fn test_bookmarks_error_status() {
    let m = mock("/api/1.1/bookmarks/list", 500, "argh error!");

    let result = client().bookmarks(BASE, m, list_of);
    assert!(result.is_err(), "Expected an error on 500");
    assert_eq!(ApiError::RequestFailed(500), result.err().unwrap());
}

#[test]
fn test_verify() {
    let user = User::default();
    let json = format!("[{}]", DEFAULT_USER_JSON);

    let m = mock("/api/1.1/account/verify_credentials", 201, &json);

    let result = client().verify(BASE, m, users_of);
    assert!(result.is_ok(), "{}", result.err().unwrap().message());
    assert_eq!(user, result.unwrap());
}

#[test]
fn test_verify_server_error() {
    let m = mock("/api/1.1/account/verify_credentials", 500, "omgggg");

    let result = client().verify(BASE, m, users_of);
    assert!(result.is_err(), "Expected an error on 500");
    assert_eq!(ApiError::RequestFailed(500), result.err().unwrap());
}
