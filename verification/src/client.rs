//! The credentials that requests are signed with, and the actions of the
//! service. Every action comes twice: as the signed request alone, for a
//! caller that does its own sending, and as the whole call, which sends the
//! request through a function of the caller and decodes the answer.
use crate::call::{call_document, call_single, is_document_call, is_single_call};
use crate::decimal::{decimal, decimal_string};
use crate::error::ApiError;
use crate::model::{Bookmark, List, User};
use crate::params::Params;
use crate::request::{is_request_outcome, signed_request, Request};
use crate::transport::Response;
use vstd::prelude::*;

verus! {

/// Consumer credentials of the application and, once a user has been
/// authenticated, that user's token credentials.
#[derive(Debug, Clone, PartialEq, Eq)]
pub struct Client {
    pub consumer_key: String,
    pub consumer_secret: String,
    pub oauth_key: Option<String>,
    pub oauth_secret: Option<String>,
}

/// Parameters of `bookmarks/archive`.
pub open spec fn archive_params(bookmark_id: i64) -> Map<Seq<char>, Seq<char>> {
    Map::empty().insert("bookmark_id"@, decimal(bookmark_id as int))
}

/// Parameters of `bookmarks/add`: always the URL; title and description only
/// where they are not empty.
pub open spec fn add_params(url: Seq<char>, title: Seq<char>, description: Seq<char>) -> Map<
    Seq<char>,
    Seq<char>,
> {
    let with_url = Map::empty().insert("url"@, url);
    let with_title = if title.len() > 0 {
        with_url.insert("title"@, title)
    } else {
        with_url
    };
    if description.len() > 0 {
        with_title.insert("description"@, description)
    } else {
        with_title
    }
}

/// Parameters of `bookmarks/list`: one page of at most 500 entries of `folder`.
pub open spec fn list_params(folder: Seq<char>) -> Map<Seq<char>, Seq<char>> {
    Map::empty().insert("limit"@, "500"@).insert("folder_id"@, folder)
}

/// `bookmarks/add` always sends `url` and nothing but `url`, `title` and
/// `description`; it sends `title` exactly when the title is not empty, and
/// `description` exactly when the description is not empty.
pub proof fn lemma_add_params_names(url: Seq<char>, title: Seq<char>, description: Seq<char>)
    ensures
        add_params(url, title, description).contains_key("url"@),
        add_params(url, title, description)["url"@] == url,
        add_params(url, title, description).contains_key("title"@) <==> title.len() > 0,
        title.len() > 0 ==> add_params(url, title, description)["title"@] == title,
        add_params(url, title, description).contains_key("description"@) <==> description.len()
            > 0,
        description.len() > 0 ==> add_params(url, title, description)["description"@]
            == description,
        forall|name: Seq<char>| #[trigger]
            add_params(url, title, description).contains_key(name) ==> name == "url"@ || name
                == "title"@ || name == "description"@,
{
    reveal_strlit("url");
    reveal_strlit("title");
    reveal_strlit("description");
    assert("url"@.len() == 3 && "title"@.len() == 5 && "description"@.len() == 11);
}

impl Default for Client {
    /// A client with empty consumer credentials and no token.
    fn default() -> (client: Client)
        ensures
            client.consumer_key@.len() == 0,
            client.consumer_secret@.len() == 0,
            client.oauth_key is None,
            client.oauth_secret is None,
    {
        Client {
            consumer_key: String::new(),
            consumer_secret: String::new(),
            oauth_key: None,
            oauth_secret: None,
        }
    }
}

impl Client {
    /// Both token fields are present, or neither is.
    pub open spec fn well_formed(&self) -> bool {
        self.oauth_key is Some <==> self.oauth_secret is Some
    }

    /// The token that requests are signed with: none without an `oauth_key`;
    /// a missing secret counts as the empty text.
    pub open spec fn token(&self) -> Option<(Seq<char>, Seq<char>)> {
        match self.oauth_key {
            Some(key) => Some(
                (
                    key@,
                    match self.oauth_secret {
                        Some(secret) => secret@,
                        None => Seq::empty(),
                    },
                ),
            ),
            None => None,
        }
    }

    /// A client that holds consumer credentials only.
    pub fn unauthenticated(consumer_key: &str, consumer_secret: &str) -> (client: Client)
        ensures
            client.consumer_key@ == consumer_key@,
            client.consumer_secret@ == consumer_secret@,
            client.oauth_key is None,
            client.oauth_secret is None,
            client.well_formed(),
            client.token() is None,
    {
        Client {
            consumer_key: consumer_key.to_owned(),
            consumer_secret: consumer_secret.to_owned(),
            oauth_key: None,
            oauth_secret: None,
        }
    }

    /// The request that verifies the credentials: `account/verify_credentials`
    /// without parameters. The service answers with an array of users.
    pub fn verify_request(&self, base: &str) -> (res: Result<Request, ApiError>)
        ensures
            is_request_outcome(
                res,
                base@,
                "account/verify_credentials"@,
                Map::empty(),
                self.consumer_key@,
                self.consumer_secret@,
                self.token(),
            ),
    {
        signed_request(base, "account/verify_credentials", Params::new(), self)
    }

    /// The request that moves a bookmark to the archive: `bookmarks/archive`
    /// with the id in decimal. The service answers with an array of bookmarks.
    pub fn archive_request(&self, base: &str, bookmark_id: i64) -> (res: Result<Request, ApiError>)
        ensures
            is_request_outcome(
                res,
                base@,
                "bookmarks/archive"@,
                archive_params(bookmark_id),
                self.consumer_key@,
                self.consumer_secret@,
                self.token(),
            ),
    {
        let id = decimal_string(bookmark_id);
        let params = Params::new().insert("bookmark_id", id.as_str());
        signed_request(base, "bookmarks/archive", params, self)
    }

    /// The request that lists the bookmarks and highlights of `folder`:
    /// `bookmarks/list`, limited to 500 entries. `folder` is a folder id, or
    /// `unread` or `archive`. The service answers with one listing.
    pub fn bookmarks_in_request(&self, base: &str, folder: &str) -> (res: Result<Request, ApiError>)
        ensures
            is_request_outcome(
                res,
                base@,
                "bookmarks/list"@,
                list_params(folder@),
                self.consumer_key@,
                self.consumer_secret@,
                self.token(),
            ),
    {
        let params = Params::new().insert("limit", "500").insert("folder_id", folder);
        signed_request(base, "bookmarks/list", params, self)
    }

    /// The request that lists the `unread` folder.
    pub fn bookmarks_request(&self, base: &str) -> (res: Result<Request, ApiError>)
        ensures
            is_request_outcome(
                res,
                base@,
                "bookmarks/list"@,
                list_params("unread"@),
                self.consumer_key@,
                self.consumer_secret@,
                self.token(),
            ),
    {
        self.bookmarks_in_request(base, "unread")
    }

    /// The request that adds a bookmark for `url`: `bookmarks/add`. An empty
    /// `title` or `description` is left out, so that the service picks its
    /// default. The service answers with an array of bookmarks.
    pub fn add_request(&self, base: &str, url: &str, title: &str, description: &str) -> (res: Result<
        Request,
        ApiError,
    >)
        ensures
            is_request_outcome(
                res,
                base@,
                "bookmarks/add"@,
                add_params(url@, title@, description@),
                self.consumer_key@,
                self.consumer_secret@,
                self.token(),
            ),
    {
        let mut params = Params::new().insert("url", url);
        if !title.is_empty() {
            params = params.insert("title", title);
        }
        if !description.is_empty() {
            params = params.insert("description", description);
        }
        signed_request(base, "bookmarks/add", params, self)
    }
    /// Verifies the credentials: sends the request of `verify_request` and
    /// returns the first user of the array that comes back.
    pub fn verify<S, D>(&self, base: &str, send: S, decoder: D) -> (res: Result<User, ApiError>) where
        S: FnOnce(Request) -> Result<Response, String>,
        D: FnOnce(String) -> Result<Vec<User>, String>,

        requires
            forall|request: Request| call_requires(send, (request,)),
            forall|body: String| call_requires(decoder, (body,)),
        ensures
            is_single_call(
                res,
                send,
                decoder,
                base@,
                "account/verify_credentials"@,
                Map::empty(),
                self.consumer_key@,
                self.consumer_secret@,
                self.token(),
            ),
    {
        call_single(self.verify_request(base), send, decoder)
    }

    /// Moves a bookmark to the archive: sends the request of
    /// `archive_request` and returns the first bookmark of the array that
    /// comes back.
    pub fn archive<S, D>(&self, base: &str, bookmark_id: i64, send: S, decoder: D) -> (res: Result<
        Bookmark,
        ApiError,
    >) where
        S: FnOnce(Request) -> Result<Response, String>,
        D: FnOnce(String) -> Result<Vec<Bookmark>, String>,

        requires
            forall|request: Request| call_requires(send, (request,)),
            forall|body: String| call_requires(decoder, (body,)),
        ensures
            is_single_call(
                res,
                send,
                decoder,
                base@,
                "bookmarks/archive"@,
                archive_params(bookmark_id),
                self.consumer_key@,
                self.consumer_secret@,
                self.token(),
            ),
    {
        call_single(self.archive_request(base, bookmark_id), send, decoder)
    }

    /// Lists the bookmarks and highlights of `folder`: sends the request of
    /// `bookmarks_in_request` and returns the listing that comes back.
    pub fn bookmarks_in<S, D>(&self, base: &str, folder: &str, send: S, decoder: D) -> (res: Result<
        List,
        ApiError,
    >) where
        S: FnOnce(Request) -> Result<Response, String>,
        D: FnOnce(String) -> Result<List, String>,

        requires
            forall|request: Request| call_requires(send, (request,)),
            forall|body: String| call_requires(decoder, (body,)),
        ensures
            is_document_call(
                res,
                send,
                decoder,
                base@,
                "bookmarks/list"@,
                list_params(folder@),
                self.consumer_key@,
                self.consumer_secret@,
                self.token(),
            ),
    {
        call_document(self.bookmarks_in_request(base, folder), send, decoder)
    }

    /// Lists the `unread` folder.
    pub fn bookmarks<S, D>(&self, base: &str, send: S, decoder: D) -> (res: Result<List, ApiError>) where
        S: FnOnce(Request) -> Result<Response, String>,
        D: FnOnce(String) -> Result<List, String>,

        requires
            forall|request: Request| call_requires(send, (request,)),
            forall|body: String| call_requires(decoder, (body,)),
        ensures
            is_document_call(
                res,
                send,
                decoder,
                base@,
                "bookmarks/list"@,
                list_params("unread"@),
                self.consumer_key@,
                self.consumer_secret@,
                self.token(),
            ),
    {
        self.bookmarks_in(base, "unread", send, decoder)
    }

    /// Adds a bookmark for `url`: sends the request of `add_request` and
    /// returns the first bookmark of the array that comes back. Pass an
    /// empty `title` or `description` for the default of the service.
    pub fn add<S, D>(
        &self,
        base: &str,
        url: &str,
        title: &str,
        description: &str,
        send: S,
        decoder: D,
    ) -> (res: Result<Bookmark, ApiError>) where
        S: FnOnce(Request) -> Result<Response, String>,
        D: FnOnce(String) -> Result<Vec<Bookmark>, String>,

        requires
            forall|request: Request| call_requires(send, (request,)),
            forall|body: String| call_requires(decoder, (body,)),
        ensures
            is_single_call(
                res,
                send,
                decoder,
                base@,
                "bookmarks/add"@,
                add_params(url@, title@, description@),
                self.consumer_key@,
                self.consumer_secret@,
                self.token(),
            ),
    {
        call_single(self.add_request(base, url, title, description), send, decoder)
    }
}

} // verus!
