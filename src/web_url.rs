//! Absolute URLs, held as their serialization. Parsing, appending a path
//! segment and setting the query are done by the `url` crate.
use vstd::prelude::*;

verus! {

#[verifier::external_type_specification]
#[verifier::external_body]
pub struct ExParseError(url::ParseError);

/// The serialization of what `url::Url::parse` makes of a text, or `None`
/// where it refuses the text.
pub uninterp spec fn parsed_url(s: Seq<char>) -> Option<Seq<char>>;

/// The serialization after `push`ing a path segment onto the parsed text,
/// or `None` where the text does not parse or cannot take path segments.
pub uninterp spec fn url_with_segment(u: Seq<char>, seg: Seq<char>) -> Option<Seq<char>>;

/// The serialization after setting the query of the parsed text, or `None`
/// where the text does not parse.
pub uninterp spec fn url_with_query(u: Seq<char>, q: Seq<char>) -> Option<Seq<char>>;

/// Characters that no URL component percent-encodes.
pub open spec fn is_plain_char(c: char) -> bool {
    ('a' <= c && c <= 'z') || ('A' <= c && c <= 'Z') || ('0' <= c && c <= '9') || c == '-'
        || c == '_'
}

/// A path segment made of plain characters only.
pub open spec fn is_plain_segment(seg: Seq<char>) -> bool {
    seg.len() > 0 && forall|i: int| 0 <= i < seg.len() ==> is_plain_char(#[trigger] seg[i])
}

/// A query made of plain characters, `=` and `&`.
pub open spec fn is_plain_query(q: Seq<char>) -> bool {
    forall|i: int|
        0 <= i < q.len() ==> is_plain_char(#[trigger] q[i]) || q[i] == '=' || q[i] == '&'
}

/// A serialization with neither a query nor a fragment.
pub open spec fn has_no_query_or_fragment(u: Seq<char>) -> bool {
    forall|i: int| 0 <= i < u.len() ==> #[trigger] u[i] != '?' && u[i] != '#'
}

/// An `http` or `https` serialization whose path does not end in a slash,
/// with neither a query nor a fragment.
pub open spec fn is_plain_http_url(u: Seq<char>) -> bool {
    (u.take(8) == "https://"@ || u.take(7) == "http://"@) && has_no_query_or_fragment(u)
        && u.len() > 0 && u.last() != '/'
}

/// Relies on `url::Url::parse` and the `Display` of `url::Url`: the text of the
/// parsed URL, or the parser's error.
#[verifier::external_body]
pub(crate) fn parse_url(s: &str) -> (r: Result<String, url::ParseError>)
    ensures
        r is Ok <==> parsed_url(s@) is Some,
        r is Ok ==> parsed_url(s@) == Some(r->Ok_0@),
{
    url::Url::parse(s).map(|u| u.to_string())
}

/// Relies on `url::Url::path_segments_mut` and `url::PathSegmentsMut::push`,
/// on the URL that `url::Url::parse` makes of `u`: a slash and the
/// percent-encoded segment are appended to a path other than `/`, before any
/// query or fragment. `path_segments_mut` refuses a URL that cannot be a base.
#[verifier::external_body]
pub(crate) fn push_segment(u: &str, seg: &str) -> (r: Option<String>)
    ensures
        r is Some <==> url_with_segment(u@, seg@) is Some,
        r is Some ==> url_with_segment(u@, seg@) == Some(r->0@),
        parsed_url(u@) is Some && is_plain_http_url(parsed_url(u@)->0) && is_plain_segment(seg@)
            ==> r is Some && r->0@ == parsed_url(u@)->0 + "/"@ + seg@,
{
    let mut url = url::Url::parse(u).ok()?;
    url.path_segments_mut().ok()?.push(seg);
    Some(url.to_string())
}

/// Relies on `url::Url::set_query`, on the URL that `url::Url::parse` makes of
/// `u`: on a URL with neither query nor fragment, `?` and the query,
/// percent-encoded, are appended.
#[verifier::external_body]
pub(crate) fn set_query(u: &str, q: &str) -> (r: Option<String>)
    ensures
        r is Some <==> url_with_query(u@, q@) is Some,
        r is Some ==> url_with_query(u@, q@) == Some(r->0@),
        parsed_url(u@) is Some && has_no_query_or_fragment(parsed_url(u@)->0) && is_plain_query(q@)
            ==> r is Some && r->0@ == parsed_url(u@)->0 + "?"@ + q@,
{
    let mut url = url::Url::parse(u).ok()?;
    url.set_query(Some(q));
    Some(url.to_string())
}

} // verus!
