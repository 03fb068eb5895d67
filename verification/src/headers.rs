//! HTTP header maps, held in `HeaderMap` and seen through their contents:
//! a map from the lower-cased header name to the list of its values, in order.
use http::HeaderMap;
use vstd::prelude::*;
use vstd::utf8::encode_utf8;

verus! {

#[verifier::external_type_specification]
#[verifier::external_body]
#[verifier::reject_recursive_types(T)]
pub struct ExHeaderMap<T>(HeaderMap<T>);

#[verifier::external_type_specification]
#[verifier::external_body]
pub struct ExHeaderValue(http::HeaderValue);

/// The contents of a header map: each (lower-case) name maps to its values, in order.
pub uninterp spec fn header_entries(m: HeaderMap) -> Map<Seq<u8>, Seq<Seq<u8>>>;

/// A byte that `http` accepts in a header name (a `tchar` of RFC 9110).
pub open spec fn is_name_byte(b: u8) -> bool {
    ||| (97 <= b && b <= 122)
    ||| (65 <= b && b <= 90)
    ||| (48 <= b && b <= 57)
    ||| b == 33 || b == 35 || b == 36 || b == 37 || b == 38 || b == 39
    ||| b == 42 || b == 43 || b == 45 || b == 46 || b == 94 || b == 95
    ||| b == 96 || b == 124 || b == 126
}

/// Whether `HeaderName::from_bytes` accepts these bytes.
pub open spec fn valid_header_name(name: Seq<u8>) -> bool {
    &&& 0 < name.len() <= 65535
    &&& forall|i: int| 0 <= i < name.len() ==> is_name_byte(#[trigger] name[i])
}

/// ASCII lower-casing of one byte.
pub open spec fn lower_byte(b: u8) -> u8 {
    if 65 <= b && b <= 90 {
        (b + 32) as u8
    } else {
        b
    }
}

/// The key under which `http` stores a header name: its ASCII lower-case form.
pub open spec fn header_key(name: Seq<u8>) -> Seq<u8> {
    Seq::new(name.len(), |i: int| lower_byte(name[i]))
}

/// A name made only of lower-case letters, digits and dashes: it is its own key.
pub open spec fn plain_lower_name(name: Seq<char>) -> bool {
    &&& 0 < name.len() <= 64
    &&& forall|i: int|
        0 <= i < name.len() ==> {
            let c = #[trigger] name[i];
            ('a' <= c && c <= 'z') || ('0' <= c && c <= '9') || c == '-'
        }
}

/// The bytes of an ASCII text.
pub open spec fn ascii_bytes(s: Seq<char>) -> Seq<u8> {
    Seq::new(s.len(), |i: int| s[i] as u8)
}

/// A byte that `HeaderValue::from_bytes` accepts.
pub open spec fn is_value_byte(b: u8) -> bool {
    (b >= 32 && b != 127) || b == 9
}

/// Whether `HeaderValue::from_bytes` accepts these bytes.
pub open spec fn valid_header_value(v: Seq<u8>) -> bool {
    forall|i: int| 0 <= i < v.len() ==> is_value_byte(#[trigger] v[i])
}

/// A byte for which `HeaderValue::to_str` succeeds (visible ASCII or tab).
pub open spec fn is_visible_byte(b: u8) -> bool {
    (b >= 32 && b < 127) || b == 9
}

/// Whether `HeaderValue::to_str` succeeds on these bytes.
pub open spec fn visible_ascii(v: Seq<u8>) -> bool {
    forall|i: int| 0 <= i < v.len() ==> is_visible_byte(#[trigger] v[i])
}

/// The first value stored under `key`, if any (`HeaderMap::get`).
pub open spec fn first_value(m: Map<Seq<u8>, Seq<Seq<u8>>>, key: Seq<u8>) -> Option<Seq<u8>> {
    if m.contains_key(key) && m[key].len() > 0 {
        Some(m[key][0])
    } else {
        None
    }
}

/// How many names a header map always has room for: `http` refuses a new name
/// (`MaxSizeReached`) only once the map has grown to its largest table of 32768 slots,
/// which it does not do while it holds fewer names than this.
pub const MAX_HEADER_NAMES: usize = 6554;

/// A map that holds finitely many names and has room for `n` more.
pub open spec fn room_for(m: Map<Seq<u8>, Seq<Seq<u8>>>, n: nat) -> bool {
    m.dom().finite() && m.dom().len() + n <= MAX_HEADER_NAMES
}

/// Setting one header leaves room for one name fewer.
pub proof fn lemma_room_after_insert(
    m: Map<Seq<u8>, Seq<Seq<u8>>>,
    k: Seq<u8>,
    v: Seq<Seq<u8>>,
    n: nat,
)
    requires
        room_for(m, n + 1),
    ensures
        room_for(m.insert(k, v), n),
{
    assert(m.insert(k, v).dom() =~= m.dom().insert(k));
}

/// `HeaderMap::new`: an empty map.
#[verifier::external_body]
pub(crate) fn header_map_new() -> (r: HeaderMap)
    ensures
        header_entries(r).dom() == Set::<Seq<u8>>::empty(),
{
    HeaderMap::new()
}

/// `HeaderMap::clone`: a map with the same contents.
#[verifier::external_body]
pub(crate) fn header_map_clone(m: &HeaderMap) -> (r: HeaderMap)
    ensures
        header_entries(r) == header_entries(*m),
{
    m.clone()
}

/// `HeaderMap::get` for a name given in lower case, the value's bytes copied out.
#[verifier::external_body]
pub(crate) fn header_get(m: &HeaderMap, name: &str) -> (r: Option<Vec<u8>>)
    requires
        plain_lower_name(name@),
    ensures
        match r {
            Some(v) => first_value(header_entries(*m), ascii_bytes(name@)) == Some(v@),
            None => first_value(header_entries(*m), ascii_bytes(name@)) is None,
        },
{
    m.get(name).map(|v| v.as_bytes().to_vec())
}

/// `HeaderMap::try_insert` after `HeaderName::from_bytes` and `HeaderValue::from_bytes`:
/// replaces every value stored under the name by the one value given.
/// `false` and the map unchanged where the name or the value is refused, or where the map
/// is at its capacity (what `try_insert` reports as `MaxSizeReached`).
#[verifier::external_body]
pub(crate) fn header_insert(m: &mut HeaderMap, name: &[u8], value: &[u8]) -> (r: bool)
    ensures
        r ==> valid_header_name(name@) && valid_header_value(value@) && header_entries(*final(m))
            == header_entries(*old(m)).insert(header_key(name@), seq![value@]),
        !r ==> header_entries(*final(m)) == header_entries(*old(m)),
        !(valid_header_name(name@) && valid_header_value(value@)) ==> !r,
        valid_header_name(name@) && valid_header_value(value@) && header_entries(
            *old(m),
        ).dom().len() < MAX_HEADER_NAMES ==> r,
{
    let Ok(n) = http::HeaderName::from_bytes(name) else { return false };
    let Ok(v) = http::HeaderValue::from_bytes(value) else { return false };
    m.try_insert(n, v).is_ok()
}

/// `HeaderMap::try_entry(..).or_try_insert(..)`: stores the value under the name only where
/// the name has no value yet. Same refusals as [`header_insert`].
#[verifier::external_body]
pub(crate) fn header_insert_if_absent(m: &mut HeaderMap, name: &[u8], value: &[u8]) -> (r: bool)
    ensures
        r ==> valid_header_name(name@) && valid_header_value(value@) && header_entries(*final(m))
            == (if header_entries(*old(m)).contains_key(header_key(name@)) {
            header_entries(*old(m))
        } else {
            header_entries(*old(m)).insert(header_key(name@), seq![value@])
        }),
        !r ==> header_entries(*final(m)) == header_entries(*old(m)),
        !(valid_header_name(name@) && valid_header_value(value@)) ==> !r,
        valid_header_name(name@) && valid_header_value(value@) && header_entries(
            *old(m),
        ).dom().len() < MAX_HEADER_NAMES ==> r,
{
    let Ok(n) = http::HeaderName::from_bytes(name) else { return false };
    let Ok(v) = http::HeaderValue::from_bytes(value) else { return false };
    match m.try_entry(n) {
        Ok(e) => e.or_try_insert(v).is_ok(),
        Err(_) => false,
    }
}

/// Whether `HeaderValue::to_str` accepts these bytes.
pub fn is_visible_ascii(v: &[u8]) -> (r: bool)
    ensures
        r == visible_ascii(v@),
{
    let mut i: usize = 0;
    while i < v.len()
        invariant
            i <= v.len(),
            forall|k: int| 0 <= k < i ==> is_visible_byte(v@[k]),
        decreases v.len() - i,
    {
        let b = v[i];
        if !((b >= 32 && b < 127) || b == 9) {
            return false;
        }
        i = i + 1;
    }
    true
}

/// The characters of a visible-ASCII byte string.
pub open spec fn ascii_chars(v: Seq<u8>) -> Seq<char> {
    Seq::new(v.len(), |i: int| v[i] as char)
}

/// `HeaderValue::to_str`: the value as text, where it is visible ASCII.
pub fn header_value_text(v: &[u8]) -> (r: Option<Vec<char>>)
    ensures
        match r {
            Some(t) => visible_ascii(v@) && t@ == ascii_chars(v@),
            None => !visible_ascii(v@),
        },
{
    if !is_visible_ascii(v) {
        return None;
    }
    let mut out: Vec<char> = Vec::new();
    let mut i: usize = 0;
    while i < v.len()
        invariant
            i <= v.len(),
            out@ =~= ascii_chars(v@.take(i as int)),
        decreases v.len() - i,
    {
        out.push(v[i] as char);
        i = i + 1;
    }
    assert(v@.take(v.len() as int) =~= v@);
    Some(out)
}

/// Whether `HeaderValue::from_bytes` accepts these bytes.
pub fn is_valid_header_value(v: &[u8]) -> (r: bool)
    ensures
        r == valid_header_value(v@),
{
    let mut i: usize = 0;
    while i < v.len()
        invariant
            i <= v.len(),
            forall|k: int| 0 <= k < i ==> is_value_byte(v@[k]),
        decreases v.len() - i,
    {
        let b = v[i];
        if !((b >= 32 && b != 127) || b == 9) {
            return false;
        }
        i = i + 1;
    }
    true
}

/// Whether `HeaderName::from_bytes` accepts these bytes.
pub fn is_valid_header_name(v: &[u8]) -> (r: bool)
    ensures
        r == valid_header_name(v@),
{
    if v.len() == 0 || v.len() > 65535 {
        return false;
    }
    let mut i: usize = 0;
    while i < v.len()
        invariant
            i <= v.len(),
            forall|k: int| 0 <= k < i ==> is_name_byte(v@[k]),
        decreases v.len() - i,
    {
        let b = v[i];
        let ok = (97 <= b && b <= 122) || (65 <= b && b <= 90) || (48 <= b && b <= 57) || b == 33
            || b == 35 || b == 36 || b == 37 || b == 38 || b == 39 || b == 42 || b == 43 || b == 45
            || b == 46 || b == 94 || b == 95 || b == 96 || b == 124 || b == 126;
        if !ok {
            return false;
        }
        i = i + 1;
    }
    true
}

/// A name of lower-case letters, digits and dashes is a valid header name, is its own
/// key, and its UTF-8 bytes are its ASCII bytes.
pub proof fn lemma_plain_name_bytes(name: Seq<char>)
    requires
        plain_lower_name(name),
    ensures
        encode_utf8(name) == ascii_bytes(name),
        valid_header_name(encode_utf8(name)),
        header_key(encode_utf8(name)) == encode_utf8(name),
{
    assert(vstd::utf8::is_ascii_chars(name));
    vstd::utf8::is_ascii_chars_encode_utf8(name);
    let b = encode_utf8(name);
    assert(b =~= ascii_bytes(name));
    assert forall|i: int| 0 <= i < b.len() implies is_name_byte(#[trigger] b[i]) by {
        assert(name[i] as u8 == b[i]);
    }
    assert(header_key(b) =~= b);
}

/// A text of printable ASCII characters is a valid header value, byte for byte.
pub proof fn lemma_printable_value_bytes(s: Seq<char>)
    requires
        forall|i: int| 0 <= i < s.len() ==> ' ' <= #[trigger] s[i] && s[i] <= '~',
    ensures
        valid_header_value(encode_utf8(s)),
        encode_utf8(s) == ascii_bytes(s),
{
    assert(vstd::utf8::is_ascii_chars(s));
    vstd::utf8::is_ascii_chars_encode_utf8(s);
    assert(encode_utf8(s) =~= ascii_bytes(s));
    assert forall|i: int| 0 <= i < encode_utf8(s).len() implies is_value_byte(
        #[trigger] encode_utf8(s)[i],
    ) by {
        assert(s[i] as u8 == encode_utf8(s)[i]);
    }
}

} // verus!
