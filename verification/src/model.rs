//! The records that the service answers with.
use vstd::prelude::*;

verus! {

/// One saved piece of media (an article, a video) to be read later.
#[derive(Debug, Clone, PartialEq, Eq)]
pub struct Bookmark {
    pub title: String,
    pub hash: String,
    pub bookmark_id: i64,
    /// Epoch seconds of the last progress update, as the bits of an IEEE 754
    /// double.
    pub progress_timestamp_bits: u64,
    pub description: String,
    pub url: String,
    /// Epoch seconds at which the bookmark was saved, as the bits of an
    /// IEEE 754 double.
    pub time_bits: u64,
    /// `"1"` or `"0"`: the service sends a string, not a boolean.
    pub starred: String,
    pub kind: String,
    pub private_source: String,
}

/// The account that a client acts for.
#[derive(Debug, Clone, PartialEq, Eq)]
pub struct User {
    pub username: String,
    pub user_id: i64,
    pub kind: String,
    /// Whether a subscription is active: a string, not a boolean.
    pub subscription: String,
}

/// A passage marked in a bookmarked article.
#[derive(Debug, Clone, PartialEq, Eq)]
pub struct Highlight {
    pub highlight_id: i64,
    /// The bookmark that the passage belongs to, by its id.
    pub bookmark_id: i64,
    pub text: String,
    pub note: Option<String>,
    pub time: i64,
    pub position: i64,
    pub kind: String,
}

/// One listing of a folder: its bookmarks and highlights in the order
/// received, the owner and the ids that were deleted.
#[derive(Debug, Clone, PartialEq, Eq)]
pub struct List {
    pub bookmarks: Vec<Bookmark>,
    pub user: User,
    pub highlights: Vec<Highlight>,
    pub delete_ids: Vec<i64>,
}

impl Default for Bookmark {
    /// A bookmark with empty texts and zero numbers.
    fn default() -> (bookmark: Bookmark)
        ensures
            bookmark.title@.len() == 0,
            bookmark.hash@.len() == 0,
            bookmark.bookmark_id == 0,
            bookmark.progress_timestamp_bits == 0,
            bookmark.description@.len() == 0,
            bookmark.url@.len() == 0,
            bookmark.time_bits == 0,
            bookmark.starred@.len() == 0,
            bookmark.kind@.len() == 0,
            bookmark.private_source@.len() == 0,
    {
        Bookmark {
            title: String::new(),
            hash: String::new(),
            bookmark_id: 0,
            progress_timestamp_bits: 0,
            description: String::new(),
            url: String::new(),
            time_bits: 0,
            starred: String::new(),
            kind: String::new(),
            private_source: String::new(),
        }
    }
}

impl Default for User {
    /// A user with empty texts and id zero.
    fn default() -> (user: User)
        ensures
            user.username@.len() == 0,
            user.user_id == 0,
            user.kind@.len() == 0,
            user.subscription@.len() == 0,
    {
        User { username: String::new(), user_id: 0, kind: String::new(), subscription: String::new() }
    }
}

impl Default for Highlight {
    /// A highlight with empty texts, zero numbers and no note.
    fn default() -> (highlight: Highlight)
        ensures
            highlight.highlight_id == 0,
            highlight.bookmark_id == 0,
            highlight.text@.len() == 0,
            highlight.note is None,
            highlight.time == 0,
            highlight.position == 0,
            highlight.kind@.len() == 0,
    {
        Highlight {
            highlight_id: 0,
            bookmark_id: 0,
            text: String::new(),
            note: None,
            time: 0,
            position: 0,
            kind: String::new(),
        }
    }
}

impl Default for List {
    /// A listing that holds nothing, owned by the default user.
    fn default() -> (list: List)
        ensures
            list.bookmarks@.len() == 0,
            list.highlights@.len() == 0,
            list.delete_ids@.len() == 0,
            list.user.username@.len() == 0,
            list.user.user_id == 0,
            list.user.kind@.len() == 0,
            list.user.subscription@.len() == 0,
    {
        List {
            bookmarks: Vec::new(),
            user: User::default(),
            highlights: Vec::new(),
            delete_ids: Vec::new(),
        }
    }
}

} // verus!
