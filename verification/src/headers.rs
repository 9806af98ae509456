//! HTTP header fields, as the middleware reads and edits them.
//!
//! A header map is seen as a map from lower-case field names to the values
//! stored under them, in the order in which they were added. A value is seen as
//! its bytes and the mark that says whether it is sensitive.

use vstd::prelude::*;

verus! {

/// The field that asks for a part of a resource only.
pub const RANGE: &'static str = "range";

/// The field that lists the codings a client is ready to decode.
pub const ACCEPT_ENCODING: &'static str = "accept-encoding";

/// The field that names the coding a body was sent in.
pub const CONTENT_ENCODING: &'static str = "content-encoding";

/// The field that gives the length of a body as sent.
pub const CONTENT_LENGTH: &'static str = "content-length";

/// The number of distinct names under which a header map always takes one more.
pub const NAMES_ALWAYS_TAKEN: usize = 6554;

/// `http`'s multimap of header fields.
#[verifier::external_type_specification]
#[verifier::external_body]
#[verifier::reject_recursive_types(T)]
pub struct ExHeaderMap<T>(http::HeaderMap<T>);

/// `http`'s header field value.
#[verifier::external_type_specification]
#[verifier::external_body]
pub struct ExHeaderValue(http::HeaderValue);

/// What `http` reports when a header map is too large to grow.
#[verifier::external_type_specification]
#[verifier::external_body]
pub struct ExMaxSizeReached(http::header::MaxSizeReached);

/// What a header map holds: under each name, in lower case, its values, the first
/// value first. Of each value it gives the bytes, and whether it is marked as
/// sensitive.
pub uninterp spec fn fields(
    headers: http::HeaderMap<http::HeaderValue>,
) -> Map<Seq<char>, Seq<(Seq<u8>, bool)>>;

/// What a header value holds: its bytes, and whether it is marked as sensitive.
pub uninterp spec fn value_parts(value: http::HeaderValue) -> (Seq<u8>, bool);

/// Whether `name` is made of lower-case letters and hyphens and is short enough
/// to be looked up as it stands.
pub open spec fn is_plain_name(name: Seq<char>) -> bool {
    &&& 1 <= name.len() <= 64
    &&& forall|i: int| 0 <= i < name.len() ==> ('a' <= #[trigger] name[i] <= 'z' || name[i] == '-')
}

/// Whether `byte` may stand in a value that is written as text.
pub open spec fn is_visible(byte: u8) -> bool {
    32 <= byte < 127 || byte == 9
}

/// `http::HeaderMap::contains_key`: tells whether the map has a value under
/// `name`.
#[verifier::external_body]
pub(crate) fn contains_key(
    headers: &http::HeaderMap<http::HeaderValue>,
    name: &'static str,
) -> (found: bool)
    requires
        is_plain_name(name@),
    ensures
        found == fields(*headers).contains_key(name@),
{
    headers.contains_key(name)
}

/// `http::HeaderMap::get`: the first value under `name`, if there is one. A name
/// that is in the map has at least one value.
#[verifier::external_body]
pub(crate) fn get<'a>(
    headers: &'a http::HeaderMap<http::HeaderValue>,
    name: &'static str,
) -> (value: Option<&'a http::HeaderValue>)
    requires
        is_plain_name(name@),
    ensures
        match value {
            Some(v) => fields(*headers).contains_key(name@) && fields(*headers)[name@].len() > 0
                && fields(*headers)[name@][0] == value_parts(*v),
            None => !fields(*headers).contains_key(name@),
        },
{
    headers.get(name)
}

/// `http::HeaderMap::remove`: takes `name` and all its values out of the map,
/// leaves every other field as it was, and hands back the first value.
#[verifier::external_body]
pub(crate) fn remove(
    headers: &mut http::HeaderMap<http::HeaderValue>,
    name: &'static str,
) -> (value: Option<http::HeaderValue>)
    requires
        is_plain_name(name@),
    ensures
        fields(*final(headers)) == fields(*old(headers)).remove(name@),
        match value {
            Some(v) => fields(*old(headers)).contains_key(name@) && fields(*old(
                headers,
            ))[name@].len() > 0 && fields(*old(headers))[name@][0] == value_parts(v),
            None => !fields(*old(headers)).contains_key(name@),
        },
{
    headers.remove(name)
}

/// `http::HeaderMap::try_insert`: puts `value` under `name` in place of all
/// values that were there, leaves every other field as it was, and hands back
/// the first value replaced.
///
/// The map refuses only where its table has reached the largest size there is
/// (32,768 slots) and would have to grow: either because three quarters of the
/// slots are taken, or because lookups have become slow and a fifth of them are.
/// With fewer than a fifth of the slots taken it never refuses. A map that
/// refuses keeps what it holds. Whether a fuller map refuses depends on how its
/// table was built up, of which nothing is stated.
#[verifier::external_body]
pub(crate) fn try_insert(
    headers: &mut http::HeaderMap<http::HeaderValue>,
    name: &'static str,
    value: http::HeaderValue,
) -> (replaced: Result<Option<http::HeaderValue>, http::header::MaxSizeReached>)
    requires
        is_plain_name(name@),
    ensures
        match replaced {
            Ok(first) => {
                &&& fields(*final(headers)) == fields(*old(headers)).insert(
                    name@,
                    seq![value_parts(value)],
                )
                &&& match first {
                    Some(v) => fields(*old(headers)).contains_key(name@) && fields(*old(
                        headers,
                    ))[name@].len() > 0 && fields(*old(headers))[name@][0] == value_parts(v),
                    None => !fields(*old(headers)).contains_key(name@),
                }
            },
            Err(_) => {
                &&& fields(*final(headers)) == fields(*old(headers))
                &&& fields(*old(headers)).dom().len() >= NAMES_ALWAYS_TAKEN
            },
        },
{
    headers.try_insert(name, value)
}

/// `http::HeaderValue::from_static`: the value made of the bytes of `text`, not
/// marked as sensitive. It panics on bytes that are not visible ASCII, a space or a tab.
#[verifier::external_body]
pub(crate) fn from_static(text: &'static str) -> (value: http::HeaderValue)
    requires
        forall|i: int|
            0 <= i < vstd::utf8::encode_utf8(text@).len() ==> is_visible(
                #[trigger] vstd::utf8::encode_utf8(text@)[i],
            ),
    ensures
        value_parts(value) == (vstd::utf8::encode_utf8(text@), false),
{
    http::HeaderValue::from_static(text)
}

/// `http::HeaderValue::as_bytes`: the bytes of the value.
#[verifier::external_body]
pub(crate) fn as_bytes(value: &http::HeaderValue) -> (bytes: &[u8])
    ensures
        bytes@ == value_parts(*value).0,
{
    value.as_bytes()
}

/// The names that the middleware looks up can be looked up as they stand.
pub(crate) proof fn lemma_names_are_plain()
    ensures
        is_plain_name(RANGE@),
        is_plain_name(ACCEPT_ENCODING@),
        is_plain_name(CONTENT_ENCODING@),
        is_plain_name(CONTENT_LENGTH@),
{
    reveal_strlit("range");
    reveal_strlit("accept-encoding");
    reveal_strlit("content-encoding");
    reveal_strlit("content-length");
}

} // verus!
