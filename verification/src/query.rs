//! URLs and the name/value pairs of their query strings.
use vstd::prelude::*;

verus! {

/// What `url::Url::parse` followed by `Url::query_pairs` yields for `text`:
/// the percent-decoded name/value pairs of the query string in the order
/// written, or `None` where `text` is not an absolute URL.
pub uninterp spec fn url_query_pairs(text: Seq<char>) -> Option<Seq<(Seq<char>, Seq<char>)>>;

/// The pairs of `pairs` as plain texts.
pub open spec fn texts_of(pairs: Seq<(String, String)>) -> Seq<(Seq<char>, Seq<char>)> {
    Seq::new(pairs.len(), |i: int| (pairs[i].0@, pairs[i].1@))
}

/// Whether `text` is a well-formed absolute URL.
pub open spec fn url_parses(text: Seq<char>) -> bool {
    url_query_pairs(text) is Some
}

/// The value of the last pair named `name`, if there is one.
pub open spec fn last_value(pairs: Seq<(Seq<char>, Seq<char>)>, name: Seq<char>) -> Option<
    Seq<char>,
>
    decreases pairs.len(),
{
    if pairs.len() == 0 {
        None
    } else if pairs.last().0 == name {
        Some(pairs.last().1)
    } else {
        last_value(pairs.drop_last(), name)
    }
}

/// Trusted: calls `url::Url::parse` on `text` and, where that succeeds,
/// collects `Url::query_pairs` of the parsed URL. Both depend on `text`
/// alone, so the outcome is named `url_query_pairs(text)`; nothing more is
/// claimed of it. A parse error becomes `None`.
#[verifier::external_body]
pub(crate) fn parse_query(text: &str) -> (pairs: Option<Vec<(String, String)>>)
    ensures
        pairs matches Some(found) ==> url_query_pairs(text@) == Some(texts_of(found@)),
        pairs is None ==> url_query_pairs(text@) is None,
{
    match url::Url::parse(text) {
        Ok(parsed) => Some(parsed.query_pairs().into_owned().collect()),
        Err(_) => None,
    }
}

/// Tells whether `text` is a well-formed absolute URL.
pub fn is_url(text: &str) -> (ok: bool)
    ensures
        ok == url_parses(text@),
{
    parse_query(text).is_some()
}

/// Looks up the value of the last pair named `name`.
pub fn find_last<'a>(pairs: &'a Vec<(String, String)>, name: &str) -> (value: Option<&'a String>)
    ensures
        value matches Some(v) ==> last_value(texts_of(pairs@), name@) == Some(v@),
        value is None ==> last_value(texts_of(pairs@), name@) is None,
{
    let key = name.to_owned();
    let ghost texts = texts_of(pairs@);
    let mut found: Option<&'a String> = None;
    let mut i: usize = 0;
    while i < pairs.len()
        invariant
            i <= pairs.len(),
            key@ == name@,
            texts == texts_of(pairs@),
            found matches Some(v) ==> last_value(texts.take(i as int), name@) == Some(v@),
            found is None ==> last_value(texts.take(i as int), name@) is None,
        decreases pairs.len() - i,
    {
        proof {
            assert(texts.take(i + 1).drop_last() =~= texts.take(i as int));
            assert(texts.take(i + 1).last() == (pairs@[i as int].0@, pairs@[i as int].1@));
        }
        if pairs[i].0 == key {
            found = Some(&pairs[i].1);
        }
        i = i + 1;
    }
    proof {
        assert(texts.take(pairs.len() as int) =~= texts);
    }
    found
}

} // verus!
