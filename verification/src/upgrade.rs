//! The upgrade detector: does a request ask for the WebSocket protocol?

use vstd::prelude::*;
use warp::http::HeaderMap;

verus! {

/// `http::HeaderMap`, the header multimap that warp hands to a filter.
/// Nothing is known of its inside but what `first_values` names.
#[verifier::external_type_specification]
#[verifier::external_body]
#[verifier::reject_recursive_types(T)]
pub struct ExHeaderMap<T>(warp::http::HeaderMap<T>);

/// `http::HeaderValue`, the type of the values in a header map of a request.
#[verifier::external_type_specification]
#[verifier::external_body]
pub struct ExHeaderValue(warp::http::HeaderValue);

/// What a header map holds, as far as a lookup by name can tell: each header
/// name in it, in the lower case in which the map keeps names, with the bytes
/// of the first value stored under that name.
pub uninterp spec fn first_values(headers: HeaderMap) -> Map<Seq<char>, Seq<u8>>;

/// A letter, digit or hyphen that a header name keeps as it is.
pub open spec fn is_name_char(c: char) -> bool {
    ('a' <= c && c <= 'z') || ('0' <= c && c <= '9') || c == '-'
}

/// A header name that a lookup takes as written: one to 64 lower-case
/// letters, digits and hyphens.
pub open spec fn is_plain_name(name: Seq<char>) -> bool {
    &&& 1 <= name.len() <= 64
    &&& forall|i: int| 0 <= i < name.len() ==> is_name_char(#[trigger] name[i])
}

/// `HeaderMap::get` with a string key, the value handed out as its bytes
/// (`HeaderValue::as_bytes`). For a name in lower case the map returns the
/// first value stored under that name, and nothing if it holds no such name.
#[verifier::external_body]
fn first_value(headers: &HeaderMap, name: &str) -> (value: Option<Vec<u8>>)
    requires
        is_plain_name(name@),
    ensures
        match value {
            Some(bytes) => first_values(*headers).contains_key(name@)
                && bytes@ == first_values(*headers)[name@],
            None => !first_values(*headers).contains_key(name@),
        },
{
    match headers.get(name) {
        Some(value) => Some(value.as_bytes().to_vec()),
        None => None,
    }
}

/// The lower-case form of an ASCII letter; any other byte unchanged.
pub open spec fn ascii_lower(b: u8) -> u8 {
    if 0x41 <= b && b <= 0x5a {
        (b + 0x20) as u8
    } else {
        b
    }
}

/// Equality of two byte strings up to the case of ASCII letters.
pub open spec fn eq_ignore_ascii_case(a: Seq<u8>, b: Seq<u8>) -> bool {
    &&& a.len() == b.len()
    &&& forall|i: int| 0 <= i < a.len() ==> ascii_lower(#[trigger] a[i]) == ascii_lower(b[i])
}

/// The protocol name that an upgrade request carries: `websocket`.
pub open spec fn websocket_token() -> Seq<u8> {
    seq![0x77u8, 0x65u8, 0x62u8, 0x73u8, 0x6fu8, 0x63u8, 0x6bu8, 0x65u8, 0x74u8]
}

/// The verdict on the value of the `Upgrade` header, if the request has one.
pub open spec fn asks_for_websocket(value: Option<Seq<u8>>) -> bool {
    match value {
        Some(bytes) => eq_ignore_ascii_case(bytes, websocket_token()),
        None => false,
    }
}

/// The value of the `Upgrade` header of a request with these headers.
pub open spec fn upgrade_value(headers: HeaderMap) -> Option<Seq<u8>> {
    if first_values(headers).contains_key(upgrade_name()) {
        Some(first_values(headers)[upgrade_name()])
    } else {
        None
    }
}

/// The name of the header that asks for a change of protocol.
pub open spec fn upgrade_name() -> Seq<char> {
    seq!['u', 'p', 'g', 'r', 'a', 'd', 'e']
}

fn lower(b: u8) -> (l: u8)
    ensures
        l == ascii_lower(b),
{
    if 0x41 <= b && b <= 0x5a {
        b + 0x20
    } else {
        b
    }
}

/// Whether `value`, compared without regard to the case of ASCII letters,
/// is `websocket`.
pub fn is_websocket_token(value: &[u8]) -> (b: bool)
    ensures
        b == eq_ignore_ascii_case(value@, websocket_token()),
{
    let token: [u8; 9] = [0x77, 0x65, 0x62, 0x73, 0x6f, 0x63, 0x6b, 0x65, 0x74];
    if value.len() != 9 {
        return false;
    }
    let mut i: usize = 0;
    while i < 9
        invariant
            i <= 9,
            value@.len() == 9,
            token@ == websocket_token(),
            forall|j: int|
                0 <= j < i ==> ascii_lower(#[trigger] value@[j]) == ascii_lower(token@[j]),
        decreases 9 - i,
    {
        if lower(value[i]) != lower(token[i]) {
            return false;
        }
        i += 1;
    }
    true
}

/// Whether a request whose `Upgrade` header has this value, or that has no
/// such header, asks for the WebSocket protocol.
pub fn is_upgrade_value(value: Option<Vec<u8>>) -> (b: bool)
    ensures
        b == asks_for_websocket(
            match value {
                Some(bytes) => Some(bytes@),
                None => None,
            },
        ),
{
    match value {
        Some(bytes) => is_websocket_token(bytes.as_slice()),
        None => false,
    }
}

/// Whether a request with these headers is an upgrade request: it has a
/// header named `Upgrade` whose first value is `websocket` in any case.
pub fn is_websocket(headers: &HeaderMap) -> (b: bool)
    ensures
        b == asks_for_websocket(upgrade_value(*headers)),
{
    proof {
        reveal_strlit("upgrade");
        assert("upgrade"@ =~= upgrade_name());
    }
    is_upgrade_value(first_value(headers, "upgrade"))
}

} // verus!
