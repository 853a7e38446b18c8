//! Where a request goes: an endpoint path joined to the base URL, with the
//! query parameters appended. Parsing, joining and encoding are left to `url`.

use vstd::prelude::*;
use vstd::utf8::encode_utf8;
use crate::error::{Error, ErrorView};

verus! {

/// A parsed URL as `url` holds it.
#[verifier::external_type_specification]
#[verifier::external_body]
pub struct ExUrl(url::Url);

/// What `url::Url::parse` makes of `input`.
pub uninterp spec fn url_parsed(input: Seq<char>) -> Result<url::Url, url::ParseError>;

/// What `url::Url::join` makes of `input` against the base `base`.
pub uninterp spec fn url_joined(base: url::Url, input: Seq<char>) -> Result<url::Url, url::ParseError>;

/// The URL that `url` becomes when `pairs` are appended to its query through
/// `url::Url::query_pairs_mut` and `extend_pairs`.
pub uninterp spec fn url_with_pairs(url: url::Url, pairs: Seq<(Seq<char>, Seq<char>)>) -> url::Url;

/// The serialization of `url`, as `url::Url::as_str` gives it.
pub uninterp spec fn url_text(url: url::Url) -> Seq<char>;

/// Name and value pairs with their texts as sequences of characters.
pub open spec fn pairs_view(pairs: Seq<(String, String)>) -> Seq<(Seq<char>, Seq<char>)> {
    pairs.map_values(|pair: (String, String)| (pair.0@, pair.1@))
}

/// How many bytes `text` takes in UTF-8.
pub open spec fn utf8_len(text: Seq<char>) -> nat {
    encode_utf8(text).len()
}

/// A bound on the bytes that `pairs` take in a query: each byte of a name or
/// a value becomes three at most, and each pair brings `=` and a separator.
pub open spec fn query_room(pairs: Seq<(Seq<char>, Seq<char>)>) -> nat
    decreases pairs.len(),
{
    if pairs.len() == 0 {
        0
    } else {
        query_room(pairs.drop_last()) + 3 * utf8_len(pairs.last().0) + 3 * utf8_len(
            pairs.last().1,
        ) + 2
    }
}

/// Whether `url` stays within the four gigabytes that `url` can address once
/// `pairs` are appended to its query.
pub open spec fn query_fits(url: url::Url, pairs: Seq<(Seq<char>, Seq<char>)>) -> bool {
    utf8_len(url_text(url)) + 1 + query_room(pairs) <= u32::MAX
}

/// Calls `url::Url::parse`. Trusted: the result is `url_parsed` of the input.
#[verifier::external_body]
fn parse_url(input: &str) -> (r: Result<url::Url, url::ParseError>)
    ensures
        r == url_parsed(input@),
{
    url::Url::parse(input)
}

/// Calls `url::Url::join`. Trusted: the result is `url_joined` of the base and the input.
#[verifier::external_body]
fn join_url(base: &url::Url, input: &str) -> (r: Result<url::Url, url::ParseError>)
    ensures
        r == url_joined(*base, input@),
{
    base.join(input)
}

/// Calls `url::Url::as_str`. Trusted: the result is `url_text` of the URL.
#[verifier::external_body]
fn url_as_str<'a>(url: &'a url::Url) -> (r: &'a str)
    ensures
        r@ == url_text(*url),
{
    url.as_str()
}

/// Calls `url::Url::query_pairs_mut` and, on what it returns,
/// `form_urlencoded::Serializer::extend_pairs`. Trusted: the URL becomes
/// `url_with_pairs` of the URL and the pairs. Both panic where a position in
/// the serialization passes `u32::MAX`; the bound keeps every position below.
#[verifier::external_body]
fn extend_query(url: &mut url::Url, pairs: &Vec<(String, String)>)
    requires
        query_fits(*old(url), pairs_view(pairs@)),
    ensures
        *final(url) == url_with_pairs(*old(url), pairs_view(pairs@)),
{
    url.query_pairs_mut().extend_pairs(pairs);
}

/// Gives `url::ParseError::Overflow`, the error of `url` for a URL of more
/// than four gigabytes.
#[verifier::external_body]
fn overflow() -> url::ParseError {
    url::ParseError::Overflow
}

/// The bound grows with the pairs: that of a prefix is at most that of the whole.
pub proof fn lemma_query_room_prefix(pairs: Seq<(Seq<char>, Seq<char>)>, n: int)
    requires
        0 <= n <= pairs.len(),
    ensures
        query_room(pairs.take(n)) <= query_room(pairs),
    decreases pairs.len(),
{
    if n == pairs.len() {
        assert(pairs.take(n) =~= pairs);
    } else {
        assert(pairs.drop_last().take(n) =~= pairs.take(n));
        lemma_query_room_prefix(pairs.drop_last(), n);
    }
}

/// The endpoint that `ext` names against the base URL `base`.
pub open spec fn joined(base: Seq<char>, ext: Seq<char>) -> Result<url::Url, url::ParseError> {
    match url_parsed(base) {
        Err(e) => Err(e),
        Ok(parent) => url_joined(parent, ext),
    }
}

/// Resolves the endpoint path `ext` against the base URL `base`, by the
/// rules for relative references: a base without a trailing slash loses its
/// last path segment.
pub fn join(base: &str, ext: &str) -> (r: Result<url::Url, Error>)
    ensures
        crate::error::outcome(r) == match joined(base@, ext@) {
            Ok(url) => Ok::<url::Url, ErrorView>(url),
            Err(e) => Err::<url::Url, ErrorView>(ErrorView::Url(e)),
        },
{
    let parent = match parse_url(base) {
        Err(e) => { return Err(Error::Url(e)); },
        Ok(parent) => parent,
    };
    match join_url(&parent, ext) {
        Err(e) => Err(Error::Url(e)),
        Ok(url) => Ok(url),
    }
}

/// Tells whether a URL of `len` bytes stays within bounds once `pairs` are
/// appended to its query.
pub fn fits(len: usize, pairs: &Vec<(String, String)>) -> (r: bool)
    ensures
        r == (len + 1 + query_room(pairs_view(pairs@)) <= u32::MAX),
{
    let limit: u64 = 0xffff_ffff;
    if len as u64 >= limit {
        return false;
    }
    let ghost all = pairs_view(pairs@);
    let mut room: u64 = len as u64 + 1;
    let mut i: usize = 0;
    proof {
        assert(all.take(0) =~= Seq::<(Seq<char>, Seq<char>)>::empty());
    }
    while i < pairs.len()
        invariant
            i <= pairs.len(),
            all == pairs_view(pairs@),
            limit == 0xffff_ffff,
            room == len + 1 + query_room(all.take(i as int)),
            room <= limit,
        decreases pairs.len() - i,
    {
        let name_len = pairs[i].0.as_str().as_bytes().len();
        let value_len = pairs[i].1.as_str().as_bytes().len();
        proof {
            assert(all.take(i + 1).drop_last() =~= all.take(i as int));
            assert(all.take(i + 1).last() == (pairs@[i as int].0@, pairs@[i as int].1@));
            lemma_query_room_prefix(all, i + 1);
        }
        if name_len as u64 > limit || value_len as u64 > limit {
            return false;
        }
        let step: u64 = 3 * (name_len as u64) + 3 * (value_len as u64) + 2;
        if step > limit - room {
            return false;
        }
        room = room + step;
        i = i + 1;
    }
    proof {
        assert(all.take(i as int) =~= all);
    }
    true
}

/// What appending `pairs` to the query of `url` gives: the new URL, or
/// nothing where it would pass four gigabytes.
pub open spec fn queried(url: url::Url, pairs: Seq<(Seq<char>, Seq<char>)>) -> Option<url::Url> {
    if query_fits(url, pairs) {
        Some(url_with_pairs(url, pairs))
    } else {
        None
    }
}

/// Appends `pairs` to the query of `url`, each name and value in
/// `application/x-www-form-urlencoded` form. A URL that would pass four
/// gigabytes is a URL error.
pub fn with_query(url: url::Url, pairs: &Vec<(String, String)>) -> (r: Result<url::Url, Error>)
    ensures
        match queried(url, pairs_view(pairs@)) {
            Some(extended) => r == Ok::<url::Url, Error>(extended),
            None => r matches Err(Error::Url(_)),
        },
{
    let len = url_as_str(&url).as_bytes().len();
    if fits(len, pairs) {
        let mut url = url;
        extend_query(&mut url, pairs);
        Ok(url)
    } else {
        Err(Error::Url(overflow()))
    }
}

/// Gives the serialization of `url`.
pub fn text(url: &url::Url) -> (r: String)
    ensures
        r@ == url_text(*url),
{
    url_as_str(url).to_owned()
}

} // verus!
