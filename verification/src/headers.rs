//! The header multimap of an HTTP message and the operations the proxy
//! performs on it.
//!
//! The collection itself is `hyper::HeaderMap`. Verus sees it as an opaque
//! value whose contents are named by [`header_values`]; the functions in this
//! module that touch it directly are trusted and say so.

use hyper::header::{HeaderName, HeaderValue};
use hyper::HeaderMap;
use vstd::prelude::*;

verus! {

/// `hyper::HeaderMap`, the multimap from header names to header values.
#[verifier::external_type_specification]
#[verifier::external_body]
#[verifier::reject_recursive_types(T)]
pub struct ExHeaderMap<T>(HeaderMap<T>);

/// `hyper::header::HeaderValue`, the value type stored in a header map.
#[verifier::external_type_specification]
#[verifier::external_body]
pub struct ExHeaderValue(HeaderValue);

/// What a header map holds: for every header name that is present (in the
/// lower-case form under which the map stores it) the bytes of its values, in
/// the order in which they were added.
pub uninterp spec fn header_values(headers: HeaderMap) -> Map<Seq<char>, Seq<Seq<u8>>>;

/// Separator placed between folded cookie values.
pub open spec fn cookie_separator() -> Seq<u8> {
    seq![0x3bu8, 0x20u8]
}

/// Whether `c` may appear in a header key as this module writes them.
pub open spec fn is_key_char(c: char) -> bool {
    ('a' <= c && c <= 'z') || ('0' <= c && c <= '9') || c == '-'
}

/// Header names in the canonical form this module looks them up by: not
/// empty, at most 64 characters, made of lower-case ASCII letters, digits and
/// hyphens. Every such text is a valid header name and is stored by the map
/// exactly as written.
pub open spec fn is_header_key(name: Seq<char>) -> bool {
    &&& 0 < name.len() <= 64
    &&& forall|i: int| 0 <= i < name.len() ==> is_key_char(#[trigger] name[i])
}

/// Whether `value` holds only bytes a header value may hold: no control
/// characters but the tab, and no delete character.
pub open spec fn is_header_value(value: Seq<u8>) -> bool {
    forall|i: int|
        0 <= i < value.len() ==> ((#[trigger] value[i]) >= 32 && value[i] != 127) || value[i] == 9
}

/// Number of names from which on a header map may refuse to store a value:
/// a map that holds fewer names always has room.
pub open spec fn crowded() -> nat {
    6554
}

/// Whether a header map with these contents always has room to store a
/// value: it holds fewer than [`crowded`] names.
pub open spec fn has_room(values: Map<Seq<char>, Seq<Seq<u8>>>) -> bool {
    values.dom().finite() && values.dom().len() < crowded()
}

/// The contents of a header map that holds nothing.
pub open spec fn no_headers() -> Map<Seq<char>, Seq<Seq<u8>>> {
    Map::empty()
}

/// The values stored under `name`, or nothing when the name is absent.
pub open spec fn values_for(values: Map<Seq<char>, Seq<Seq<u8>>>, name: Seq<char>) -> Seq<
    Seq<u8>,
> {
    if values.contains_key(name) {
        values[name]
    } else {
        Seq::empty()
    }
}

/// `items` written one after another with `separator` between neighbours.
pub open spec fn joined(separator: Seq<u8>, items: Seq<Seq<u8>>) -> Seq<u8>
    decreases items.len(),
{
    if items.len() == 0 {
        Seq::empty()
    } else if items.len() == 1 {
        items[0]
    } else {
        joined(separator, items.drop_last()) + separator + items.last()
    }
}

/// Trusted: `HeaderMap::new`. A map that holds no header.
#[verifier::external_body]
pub(crate) fn empty_headers() -> (fresh: HeaderMap)
    ensures
        header_values(fresh) == no_headers(),
{
    HeaderMap::new()
}

/// Trusted: `HeaderMap::remove` with a `&str` key. Removes the name together
/// with every value stored under it and leaves all other names untouched.
#[verifier::external_body]
pub(crate) fn remove_header(headers: &mut HeaderMap, name: &str)
    requires
        is_header_key(name@),
    ensures
        header_values(*final(headers)) == header_values(*old(headers)).remove(name@),
{
    headers.remove(name);
}

/// Trusted: `HeaderMap::get_all` with a `&str` key, each value copied out as
/// bytes. Yields the values stored under the name in insertion order; a name
/// that is present has at least one value, and every value holds only bytes
/// that `HeaderValue::from_bytes` admits, since a map stores no others.
#[verifier::external_body]
pub(crate) fn header_values_of(headers: &HeaderMap, name: &str) -> (values: Vec<Vec<u8>>)
    requires
        is_header_key(name@),
    ensures
        values.deep_view() == values_for(header_values(*headers), name@),
        header_values(*headers).contains_key(name@) <==> values.len() > 0,
        forall|i: int| 0 <= i < values.len() ==> is_header_value(#[trigger] values[i]@),
{
    headers.get_all(name).iter().map(|value| value.as_bytes().to_vec()).collect()
}

/// Trusted: `HeaderMap::try_insert`, after `HeaderName::from_bytes` and
/// `HeaderValue::from_bytes` on the arguments. When it reports success the
/// name holds exactly the one new value; when the map cannot take the value
/// (the bytes are not a legal header value, or the map is full) nothing
/// changes. It succeeds whenever the bytes are legal and the map holds fewer
/// than [`crowded`] names: the map refuses a value only when its table would
/// have to grow beyond 32768 slots, which takes at least that many names.
#[verifier::external_body]
pub(crate) fn replace_header(headers: &mut HeaderMap, name: &str, value: &[u8]) -> (replaced: bool)
    requires
        is_header_key(name@),
    ensures
        is_header_value(value@) && has_room(header_values(*old(headers))) ==> replaced,
        replaced ==> header_values(*final(headers)) == header_values(*old(headers)).insert(
            name@,
            seq![value@],
        ),
        !replaced ==> header_values(*final(headers)) == header_values(*old(headers)),
{
    match (HeaderName::from_bytes(name.as_bytes()), HeaderValue::from_bytes(value)) {
        (Ok(name), Ok(value)) => headers.try_insert(name, value).is_ok(),
        _ => false,
    }
}

/// Whether a request with these headers asks for a WebSocket upgrade, as the
/// WebSocket library judges it.
pub uninterp spec fn websocket_upgrade_requested(values: Map<Seq<char>, Seq<Seq<u8>>>) -> bool;

/// Trusted: `hyper_tungstenite::is_upgrade_request`, on a request that
/// carries a copy of the headers. The verdict depends on the headers alone
/// and is referred to as [`websocket_upgrade_requested`]; it is negative
/// unless both a `Connection` and an `Upgrade` header are present.
#[verifier::external_body]
pub(crate) fn is_upgrade_request(headers: &HeaderMap) -> (upgrade: bool)
    ensures
        upgrade == websocket_upgrade_requested(header_values(*headers)),
        upgrade ==> header_values(*headers).contains_key("connection"@),
        upgrade ==> header_values(*headers).contains_key("upgrade"@),
{
    let mut request = hyper::Request::new(());
    *request.headers_mut() = headers.clone();
    hyper_tungstenite::is_upgrade_request(&request)
}

/// Trusted: `bstr::join`. The elements in order, with the separator between
/// each two neighbours.
#[verifier::external_body]
pub(crate) fn join_bytes(separator: &[u8], items: &Vec<Vec<u8>>) -> (bytes: Vec<u8>)
    ensures
        bytes@ == joined(separator@, items.deep_view()),
{
    bstr::join(separator, items)
}

} // verus!
