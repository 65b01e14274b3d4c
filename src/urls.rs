//! URLs: the shapes of URL text whose parsing is known exactly, and the
//! calls into the `url` crate that build the endpoint URLs.

use vstd::prelude::*;

verus! {

#[verifier::external_type_specification]
#[verifier::external_body]
pub struct ExUrl(url::Url);

#[verifier::external_type_specification]
#[verifier::external_body]
pub struct ExParseError(url::ParseError);

pub open spec fn is_lower(c: char) -> bool {
    'a' <= c && c <= 'z'
}

pub open spec fn is_alnum(c: char) -> bool {
    is_lower(c) || ('A' <= c && c <= 'Z') || ('0' <= c && c <= '9')
}

/// A character that a URL path keeps as it is: unreserved, `:`, `@`, or a
/// slash.
pub open spec fn path_char(c: char) -> bool {
    is_alnum(c) || c == '-' || c == '.' || c == '_' || c == '~' || c == ':' || c == '@' || c == '/'
}

/// A character that a pushed path segment keeps as it is.
pub open spec fn segment_char(c: char) -> bool {
    is_alnum(c) || c == '-' || c == '.' || c == '_' || c == '~' || c == ':' || c == '@'
}

/// A host name of lower-case letters, in labels joined by single dots.
pub open spec fn plain_host(h: Seq<char>) -> bool {
    &&& h.len() > 0
    &&& is_lower(h[0])
    &&& is_lower(h[h.len() - 1])
    &&& forall|i: int| 0 <= i < h.len() ==> is_lower(#[trigger] h[i]) || (h[i] == '.' && is_lower(h[i + 1]))
}

/// `https://`, a plain host and the root path: a URL that is its own
/// serialization and whose path is a directory.
pub open spec fn plain_base(s: Seq<char>) -> bool {
    &&& s.len() > 9
    &&& s.subrange(0, 8) == "https://"@
    &&& s[s.len() - 1] == '/'
    &&& plain_host(s.subrange(8, s.len() - 1))
}

/// A relative path that resolves without change: segments that begin with a
/// letter or digit and hold only unreserved characters, `:` and `@`, joined
/// by single slashes, with no `:` in the first segment (where it would end a
/// scheme).
pub open spec fn plain_path(p: Seq<char>) -> bool {
    &&& p.len() > 0
    &&& p[p.len() - 1] != '/'
    &&& forall|i: int| 0 <= i < p.len() ==> path_char(#[trigger] p[i])
    &&& forall|i: int| 0 <= i < p.len() && (i == 0 || p[i - 1] == '/') ==> is_alnum(#[trigger] p[i])
    &&& forall|i: int| 0 <= i < p.len() && #[trigger] p[i] == ':' ==> p.subrange(0, i).contains('/')
}

/// A plain base followed by a plain path.
pub open spec fn plain_url(t: Seq<char>) -> bool {
    exists|i: int| 0 < i < t.len() && plain_base(t.subrange(0, i)) && plain_path(#[trigger] t.subrange(i, t.len() as int))
}

/// A path segment that is appended without change: it begins with a letter
/// or digit, and needs no percent-encoding.
pub open spec fn plain_segment(s: Seq<char>) -> bool {
    &&& s.len() > 0
    &&& is_alnum(s[0])
    &&& forall|i: int| 0 <= i < s.len() ==> segment_char(#[trigger] s[i])
}

/// The serialization of a URL.
pub uninterp spec fn url_text(u: url::Url) -> Seq<char>;

/// The serialization of `input` resolved against the URL whose
/// serialization is `base`, or `None` where that fails.
pub uninterp spec fn joined_url(base: Seq<char>, input: Seq<char>) -> Option<Seq<char>>;

/// The serialization of a URL after a segment is appended to its path.
pub uninterp spec fn segment_pushed(url: Seq<char>, segment: Seq<char>) -> Seq<char>;

/// Relies on `Url::parse`: an `https` URL with a lower-case host and the
/// root path is already in serialized form, and parses to itself.
#[verifier::external_body]
pub(crate) fn parse_url(s: &str) -> (r: Result<url::Url, url::ParseError>)
    ensures
        plain_base(s@) ==> r is Ok && url_text(r->Ok_0) == s@,
{
    url::Url::parse(s)
}

/// Relies on `Url::join`: the result depends on the two texts alone, and a
/// plain path resolved against a plain base is appended to it.
#[verifier::external_body]
pub(crate) fn join_url(base: &url::Url, input: &str) -> (r: Result<url::Url, url::ParseError>)
    ensures
        r is Ok <==> joined_url(url_text(*base), input@) is Some,
        r is Ok ==> joined_url(url_text(*base), input@) == Some(url_text(r->Ok_0)),
        plain_base(url_text(*base)) && plain_path(input@) ==> r is Ok && url_text(r->Ok_0)
            == url_text(*base) + input@,
{
    base.join(input)
}

/// Relies on `Url::path_segments_mut` and `PathSegmentsMut::push`: an
/// `https` URL can be a base, and the segment is added after a slash,
/// percent-encoded; a plain segment needs no encoding.
#[verifier::external_body]
pub(crate) fn push_segment(u: &mut url::Url, segment: &str)
    requires
        plain_url(url_text(*old(u))),
    ensures
        url_text(*final(u)) == segment_pushed(url_text(*old(u)), segment@),
        plain_segment(segment@) ==> url_text(*final(u)) == url_text(*old(u)) + "/"@ + segment@,
{
    if let Ok(mut segments) = u.path_segments_mut() {
        segments.push(segment);
    }
}

} // verus!
