//! HTTP header values and the default header map of a client.

use vstd::prelude::*;

verus! {

#[verifier::external_type_specification]
#[verifier::external_body]
pub struct ExHeaderValue(reqwest::header::HeaderValue);

#[verifier::external_type_specification]
#[verifier::external_body]
#[verifier::reject_recursive_types(T)]
pub struct ExHeaderMap<T>(reqwest::header::HeaderMap<T>);

#[verifier::external_type_specification]
#[verifier::external_body]
pub struct ExInvalidHeaderValue(reqwest::header::InvalidHeaderValue);

/// A character that may stand in an HTTP header value: any character from
/// the space on except DEL, and the horizontal tab. (A character outside
/// ASCII is encoded as bytes of `0x80` and above, which are all allowed.)
pub open spec fn header_char_ok(c: char) -> bool {
    (c as u32 >= 32 && c as u32 != 127) || c == '\t'
}

/// Text that can be made into a header value.
pub open spec fn header_text_ok(s: Seq<char>) -> bool {
    forall|i: int| 0 <= i < s.len() ==> #[trigger] header_char_ok(s[i])
}

/// A header name that can be given as a static string: lower-case letters
/// and hyphens, not empty.
pub open spec fn static_name_ok(s: Seq<char>) -> bool {
    0 < s.len() <= 64 && forall|i: int|
        0 <= i < s.len() ==> (('a' <= #[trigger] s[i] && s[i] <= 'z') || s[i] == '-')
}

/// The entries of a header map: each is a header name and the text of its
/// value. Entries of distinct names stand in the order they were appended.
pub uninterp spec fn header_entries(m: reqwest::header::HeaderMap) -> Seq<(Seq<char>, Seq<char>)>;

/// Relies on `HeaderMap::with_capacity`: a map with no entries.
#[verifier::external_body]
pub(crate) fn empty_header_map() -> (r: reqwest::header::HeaderMap)
    ensures
        header_entries(r) == Seq::<(Seq<char>, Seq<char>)>::empty(),
{
    reqwest::header::HeaderMap::with_capacity(1)
}

/// Relies on `HeaderValue::from_str`, which accepts exactly the text whose
/// bytes are all at least 32 and not 127, or a tab; on
/// `HeaderName::from_static`, which takes a lower-case name; and on
/// `HeaderMap::append`, which adds the entry. The map groups the values of
/// one name together, so the entry is last only for a name not yet there.
#[verifier::external_body]
pub(crate) fn append_header(
    m: &mut reqwest::header::HeaderMap,
    name: &'static str,
    value: &str,
) -> (r: Result<(), reqwest::header::InvalidHeaderValue>)
    requires
        static_name_ok(name@),
        forall|i: int| 0 <= i < header_entries(*old(m)).len() ==> (#[trigger] header_entries(*old(m))[i]).0 != name@,
    ensures
        r is Ok <==> header_text_ok(value@),
        r is Ok ==> header_entries(*final(m)) == header_entries(*old(m)).push((name@, value@)),
        r is Err ==> header_entries(*final(m)) == header_entries(*old(m)),
{
    let v = reqwest::header::HeaderValue::from_str(value)?;
    m.append(reqwest::header::HeaderName::from_static(name), v);
    Ok(())
}

} // verus!
