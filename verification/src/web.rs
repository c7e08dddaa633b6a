//! URL and form parsing and base64 encoding, as the `url`, `form_urlencoded`
//! and `base64` crates do it.
//!
//! Nothing in this file is proved: each function states what the crate it
//! calls returns, and the rest of the library reasons from those statements.

use vstd::prelude::*;

verus! {

/// Whether `url::Url::parse` accepts `text` as an absolute URL.
pub uninterp spec fn url_parses(text: Seq<char>) -> bool;

/// The path that `url::Url::path` reports for the URL written as `text`.
pub uninterp spec fn url_path_of(text: Seq<char>) -> Seq<char>;

/// The decoded name and value pairs that `url::Url::query_pairs` yields for
/// the URL written as `text`, in the order of the query string.
pub uninterp spec fn url_query_of(text: Seq<char>) -> Seq<(Seq<char>, Seq<char>)>;

/// Whether `url::Url::origin` of the URLs written as `a` and `b` compare
/// equal.
pub uninterp spec fn url_origins_equal(a: Seq<char>, b: Seq<char>) -> bool;

/// What `url::Url::port_or_known_default` reports for the URL written as
/// `text`.
pub uninterp spec fn url_port_of(text: Seq<char>) -> Option<u16>;

/// The decoded name and value pairs that `form_urlencoded::parse` yields
/// for `body`, in the order of the body.
pub uninterp spec fn form_pairs_of(body: Seq<u8>) -> Seq<(Seq<char>, Seq<char>)>;

/// The text that `base64::prelude::BASE64_STANDARD` encodes `bytes` to.
pub uninterp spec fn base64_standard_of(bytes: Seq<u8>) -> Seq<char>;

/// Calls `Engine::encode` of `base64::prelude::BASE64_STANDARD` on `bytes`.
/// The crate gives up only where the encoded length does not fit in
/// `usize`, which takes more bytes than any slice in memory holds.
#[verifier::external_body]
pub(crate) fn base64_standard(bytes: &[u8]) -> (r: String)
    ensures
        r@ == base64_standard_of(bytes@),
{
    base64::Engine::encode(&base64::prelude::BASE64_STANDARD, bytes)
}

/// The mathematical value of a list of name and value pairs.
pub open spec fn pairs_view(pairs: Seq<(String, String)>) -> Seq<(Seq<char>, Seq<char>)> {
    Seq::new(pairs.len(), |i: int| (pairs[i].0@, pairs[i].1@))
}

/// Calls `url::Url::parse` and drops the result: tells whether `text` is an
/// absolute URL in the eyes of the `url` crate.
#[verifier::external_body]
pub(crate) fn url_is_valid(text: &str) -> (r: bool)
    ensures
        r == url_parses(text@),
{
    url::Url::parse(text).is_ok()
}

/// Calls `url::Url::path` on the parsed `text`. `None` exactly when the
/// text does not parse; otherwise the path as the crate reports it.
#[verifier::external_body]
pub(crate) fn url_path(text: &str) -> (r: Option<String>)
    ensures
        r is Some <==> url_parses(text@),
        r is Some ==> r->0@ == url_path_of(text@),
{
    url::Url::parse(text).ok().map(|u| u.path().to_owned())
}

/// Calls `url::Url::query_pairs` on the parsed `text` and collects what it
/// yields. `None` exactly when the text does not parse.
#[verifier::external_body]
pub(crate) fn url_query_pairs(text: &str) -> (r: Option<Vec<(String, String)>>)
    ensures
        r is Some <==> url_parses(text@),
        r is Some ==> pairs_view(r->0@) == url_query_of(text@),
{
    url::Url::parse(text).ok().map(|u| u.query_pairs().into_owned().collect())
}

/// Calls `url::Url::origin` on both parsed texts and compares the two
/// origins with the crate's own `==`. `None` exactly when one of the texts
/// does not parse.
#[verifier::external_body]
pub(crate) fn url_same_origin(a: &str, b: &str) -> (r: Option<bool>)
    ensures
        r.is_some() == (url_parses(a@) && url_parses(b@)),
        r is Some ==> r->0 == url_origins_equal(a@, b@),
{
    match (url::Url::parse(a), url::Url::parse(b)) {
        (Ok(x), Ok(y)) => Some(x.origin() == y.origin()),
        _ => None,
    }
}

/// Calls `url::Url::port_or_known_default` on the parsed `text`. The outer
/// `None` comes exactly when the text does not parse, the inner one when
/// the URL names no port and its scheme has no default.
#[verifier::external_body]
pub(crate) fn url_port(text: &str) -> (r: Option<Option<u16>>)
    ensures
        r is Some <==> url_parses(text@),
        r is Some ==> r->0 == url_port_of(text@),
{
    url::Url::parse(text).ok().map(|u| u.port_or_known_default())
}

/// Calls `form_urlencoded::parse` on `body` and collects what it yields.
#[verifier::external_body]
pub(crate) fn form_pairs(body: &[u8]) -> (r: Vec<(String, String)>)
    ensures
        pairs_view(r@) == form_pairs_of(body@),
{
    form_urlencoded::parse(body).into_owned().collect()
}

} // verus!
