//! The header fields of a request.

use vstd::prelude::*;
use vstd::utf8::encode_utf8;

verus! {

/// The value of a header field.
#[verifier::external_type_specification]
#[verifier::external_body]
pub struct ExHeaderValue(http::HeaderValue);

/// Header fields by name, each with one or more values.
#[verifier::external_type_specification]
#[verifier::external_body]
#[verifier::reject_recursive_types(T)]
pub struct ExHeaderMap<T>(http::HeaderMap<T>);

/// What a header map holds: for each name, in lower case, its values in order.
pub uninterp spec fn header_values(headers: http::HeaderMap) -> Map<Seq<char>, Seq<Seq<u8>>>;

/// Header fields by name.
pub type Fields = Map<Seq<char>, Seq<Seq<u8>>>;

/// A header map with up to this many names always has room for one more.
pub const ROOM_FOR_NAMES: usize = 6553;

/// Whether text can be the value of a header field: it holds no control
/// character but the tab.
pub open spec fn is_header_value(s: Seq<char>) -> bool {
    forall|i: int|
        0 <= i < s.len() ==> (' ' <= #[trigger] s[i] && s[i] != '\u{7f}') || s[i] == '\t'
}

/// Whether text is a header name that is written as it is kept: up to 64 lower-case
/// letters and hyphens.
pub open spec fn is_plain_name(s: Seq<char>) -> bool {
    &&& 1 <= s.len() <= 64
    &&& forall|i: int| 0 <= i < s.len() ==> 'a' <= #[trigger] s[i] <= 'z' || s[i] == '-'
}

/// Header fields with one more: a name that is there keeps its values.
pub open spec fn with_default(fields: Fields, name: Seq<char>, value: Seq<char>) -> Fields {
    if fields.contains_key(name) {
        fields
    } else {
        fields.insert(name, seq![encode_utf8(value)])
    }
}

/// `http::HeaderMap::new`: no header fields.
#[verifier::external_body]
pub(crate) fn new_headers() -> (r: http::HeaderMap)
    ensures
        header_values(r) == Fields::empty(),
{
    http::HeaderMap::new()
}

/// `http::HeaderMap::try_entry`, and `or_try_insert` on what it gives, with the value
/// that `http::HeaderValue::from_str` makes of the text: the header map takes the
/// value under the name, unless the name is there. It refuses, and keeps what it
/// holds, only where it has more names than [`ROOM_FOR_NAMES`]; whether it does then
/// rests on how its table has grown, and is left unsaid.
#[verifier::external_body]
pub(crate) fn or_insert(headers: &mut http::HeaderMap, name: &str, value: &str) -> (r: bool)
    requires
        is_plain_name(name@),
        is_header_value(value@),
    ensures
        header_values(*final(headers)) == if r {
            with_default(header_values(*old(headers)), name@, value@)
        } else {
            header_values(*old(headers))
        },
        !r ==> header_values(*old(headers)).len() > ROOM_FOR_NAMES,
{
    let value = http::HeaderValue::from_str(value).expect("a header value");
    match headers.try_entry(name) {
        Ok(entry) => entry.or_try_insert(value).is_ok(),
        Err(_) => false,
    }
}

} // verus!
