//! Redacted, size-bounded snippets of response bodies for diagnostics.
use vstd::prelude::*;
use vstd::string::StringSliceAdditionalSpecFns;
use vstd::utf8::{encode_utf8, is_char_boundary, valid_utf8, decode_utf8};
use crate::json::{JsonValue, JsonView, json_view, json_parse, json_parse_spec, json_text, json_text_spec};
use crate::text::{lower_spec, lower_chars, chars_of, chars_eq};

verus! {

broadcast use vstd::utf8::group_utf8_lib;

/// Appended to a snippet that was cut short.
pub const TRUNCATED_SUFFIX: &'static str = "...(truncated)";

/// Bodies larger than this are not parsed as JSON before they are cut.
pub const JSON_PARSE_LIMIT: usize = 262144;

/// The largest character boundary of `b` at or below `cut` (0 at worst).
pub open spec fn boundary_at_or_below(b: Seq<u8>, cut: int) -> int
    decreases cut,
{
    if cut <= 0 {
        0
    } else if is_char_boundary(b, cut) {
        cut
    } else {
        boundary_at_or_below(b, cut - 1)
    }
}

/// The bytes of `"...(truncated)"`.
pub open spec fn suffix_bytes() -> Seq<u8> {
    encode_utf8(TRUNCATED_SUFFIX@)
}

/// A text of `b` bytes cut to at most `max_len` bytes: unchanged where it fits; else cut at
/// a character boundary and, where the suffix fits, marked with `"...(truncated)"`.
pub open spec fn truncate_spec(b: Seq<u8>, max_len: int) -> Seq<u8> {
    if b.len() <= max_len {
        b
    } else if max_len <= suffix_bytes().len() {
        b.take(boundary_at_or_below(b, max_len))
    } else {
        b.take(boundary_at_or_below(b, max_len - suffix_bytes().len())) + suffix_bytes()
    }
}

proof fn lemma_boundary_bounds(b: Seq<u8>, cut: int)
    ensures
        0 <= boundary_at_or_below(b, cut),
        cut >= 0 ==> boundary_at_or_below(b, cut) <= cut,
    decreases cut,
{
    if cut > 0 && !is_char_boundary(b, cut) {
        lemma_boundary_bounds(b, cut - 1);
    }
}

/// A cut text never exceeds the limit.
pub proof fn lemma_truncate_within_limit(b: Seq<u8>, max_len: int)
    requires
        max_len >= 0,
    ensures
        truncate_spec(b, max_len).len() <= max_len,
{
    if b.len() > max_len {
        if max_len <= suffix_bytes().len() {
            lemma_boundary_bounds(b, max_len);
        } else {
            lemma_boundary_bounds(b, max_len - suffix_bytes().len());
        }
    }
}

/// A text that fits is left as it is.
pub proof fn lemma_truncate_keeps_short(b: Seq<u8>, max_len: int)
    requires
        b.len() <= max_len,
    ensures
        truncate_spec(b, max_len) == b,
{
}

proof fn lemma_encode_concat(a: Seq<char>, b: Seq<char>)
    ensures
        encode_utf8(a + b) == encode_utf8(a) + encode_utf8(b),
    decreases a.len(),
{
    if a.len() > 0 {
        lemma_encode_concat(a.drop_first(), b);
        assert((a + b).drop_first() =~= a.drop_first() + b);
        assert((a + b)[0] == a[0]);
        assert(encode_utf8(a + b) =~= encode_utf8(a) + encode_utf8(b));
    } else {
        assert(a + b =~= b);
    }
}

/// `String::truncate`: keeps the first `n` bytes.
#[verifier::external_body]
fn string_truncate(s: &mut String, n: usize)
    requires
        is_char_boundary(encode_utf8(old(s)@), n as int),
    ensures
        encode_utf8(final(s)@) == encode_utf8(old(s)@).take(n as int),
{
    s.truncate(n);
}

/// Cuts `s` to at most `max_len` bytes (see [`truncate_spec`]).
pub fn truncate_in_place(s: &mut String, max_len: usize)
    requires
        encode_utf8(old(s)@).len() <= usize::MAX,
    ensures
        encode_utf8(final(s)@) == truncate_spec(encode_utf8(old(s)@), max_len as int),
{
    let ghost b = encode_utf8(s@);
    let st = s.as_str();
    let len = st.len();
    assert(len == b.len());
    if len <= max_len {
        return;
    }
    let sl = TRUNCATED_SUFFIX.len();
    proof {
        broadcast use vstd::string::is_ascii_spec_bytes;
        reveal_strlit("...(truncated)");
        assert(vstd::string::is_ascii(TRUNCATED_SUFFIX));
        assert(suffix_bytes().len() == 14);
    }
    assert(sl == suffix_bytes().len());
    let target: usize = if max_len <= sl {
        max_len
    } else {
        max_len - sl
    };
    let mut cut: usize = target;
    while !s.as_str().is_char_boundary(cut) && cut > 0
        invariant
            cut <= target < len,
            len == b.len(),
            encode_utf8(s@) == b,
            boundary_at_or_below(b, target as int) == boundary_at_or_below(b, cut as int),
        decreases cut,
    {
        cut = cut - 1;
    }
    proof {
        vstd::utf8::encode_utf8_valid_utf8(s@);
        vstd::utf8::is_char_boundary_start_end_of_seq(b);
    }
    string_truncate(s, cut);
    if max_len > sl {
        let ghost before = s@;
        s.append(TRUNCATED_SUFFIX);
        proof {
            lemma_encode_concat(before, TRUNCATED_SUFFIX@);
        }
    }
}

/// Keys whose values are never shown, compared without regard to ASCII case.
pub open spec fn sensitive_key(key: Seq<char>) -> bool {
    let k = lower_spec(key);
    ||| k == "password"@
    ||| k == "passphrase"@
    ||| k == "secret"@
    ||| k == "token"@
    ||| k == "access_token"@
    ||| k == "refresh_token"@
    ||| k == "x-auth-token"@
    ||| k == "authorization"@
    ||| k == "api_key"@
    ||| k == "apikey"@
    ||| k == "key"@
}

fn matches_literal(k: &[char], lit: &str) -> (r: bool)
    ensures
        r == (k@ == lit@),
{
    let l = chars_of(lit);
    chars_eq(k, l.as_slice())
}

/// Whether the value under this JSON key must be hidden.
pub fn is_sensitive_key(key: &str) -> (r: bool)
    ensures
        r == sensitive_key(key@),
{
    let c = chars_of(key);
    let k = lower_chars(c.as_slice());
    let k = k.as_slice();
    matches_literal(k, "password") || matches_literal(k, "passphrase") || matches_literal(
        k,
        "secret",
    ) || matches_literal(k, "token") || matches_literal(k, "access_token") || matches_literal(
        k,
        "refresh_token",
    ) || matches_literal(k, "x-auth-token") || matches_literal(k, "authorization")
        || matches_literal(k, "api_key") || matches_literal(k, "apikey") || matches_literal(
        k,
        "key",
    )
}

/// The marker that replaces a hidden value.
pub open spec fn redacted_marker() -> JsonView {
    JsonView::String("<redacted>"@)
}

/// A document with the value under every sensitive key, at any depth, replaced by
/// `"<redacted>"`.
pub open spec fn redact_spec(v: JsonView) -> JsonView
    decreases v,
{
    match v {
        JsonView::Array(items) => JsonView::Array(
            Seq::new(
                items.len(),
                |i: int|
                    if 0 <= i < items.len() {
                        redact_spec(items[i])
                    } else {
                        JsonView::Null
                    },
            ),
        ),
        JsonView::Object(members) => JsonView::Object(
            Seq::new(
                members.len(),
                |i: int|
                    if 0 <= i < members.len() {
                        (
                            members[i].0,
                            if sensitive_key(members[i].0) {
                                redacted_marker()
                            } else {
                                redact_spec(members[i].1)
                            },
                        )
                    } else {
                        (Seq::empty(), JsonView::Null)
                    },
            ),
        ),
        _ => v,
    }
}

/// No sensitive key, at any depth, holds anything but the marker.
pub open spec fn free_of_secrets(v: JsonView) -> bool
    decreases v,
{
    match v {
        JsonView::Array(items) => forall|i: int|
            0 <= i < items.len() ==> free_of_secrets(#[trigger] items[i]),
        JsonView::Object(members) => forall|i: int|
            0 <= i < members.len() ==> if sensitive_key(#[trigger] members[i].0) {
                members[i].1 == redacted_marker()
            } else {
                free_of_secrets(members[i].1)
            },
        _ => true,
    }
}

/// A redacted document holds no secret.
pub proof fn lemma_redacted_free_of_secrets(v: JsonView)
    ensures
        free_of_secrets(redact_spec(v)),
    decreases v,
{
    match v {
        JsonView::Array(items) => {
            assert forall|i: int| 0 <= i < items.len() implies free_of_secrets(
                #[trigger] redact_spec(v)->Array_0[i],
            ) by {
                lemma_redacted_free_of_secrets(items[i]);
            }
        },
        JsonView::Object(members) => {
            let r = redact_spec(v)->Object_0;
            assert forall|i: int| 0 <= i < r.len() implies (if sensitive_key(#[trigger] r[i].0) {
                r[i].1 == redacted_marker()
            } else {
                free_of_secrets(r[i].1)
            }) by {
                if !sensitive_key(members[i].0) {
                    lemma_redacted_free_of_secrets(members[i].1);
                }
            }
        },
        _ => {},
    }
}

/// Redacting twice is the same as redacting once.
pub proof fn lemma_redact_idempotent(v: JsonView)
    ensures
        redact_spec(redact_spec(v)) == redact_spec(v),
    decreases v,
{
    match v {
        JsonView::Array(items) => {
            let once = redact_spec(v)->Array_0;
            let twice = redact_spec(redact_spec(v))->Array_0;
            assert forall|i: int| 0 <= i < once.len() implies twice[i] == once[i] by {
                lemma_redact_idempotent(items[i]);
            }
            assert(twice =~= once);
        },
        JsonView::Object(members) => {
            let once = redact_spec(v)->Object_0;
            let twice = redact_spec(redact_spec(v))->Object_0;
            assert forall|i: int| 0 <= i < once.len() implies twice[i] == once[i] by {
                if !sensitive_key(members[i].0) {
                    lemma_redact_idempotent(members[i].1);
                }
            }
            assert(twice =~= once);
        },
        _ => {},
    }
}

fn redacted_marker_value() -> (r: JsonValue)
    ensures
        r@ == redacted_marker(),
{
    let s = "<redacted>".to_string();
    JsonValue::String(s)
}

/// A copy of `v` with every sensitive value replaced by `"<redacted>"`.
#[verifier::loop_isolation(false)]
pub fn redacted(v: &JsonValue) -> (r: JsonValue)
    ensures
        r@ == redact_spec(v@),
    decreases v,
{
    match v {
        JsonValue::Array(items) => {
            let mut out: Vec<JsonValue> = Vec::new();
            let mut i: usize = 0;
            while i < items.len()
                invariant
                    i <= items.len(),
                    out@.len() == i,
                    forall|k: int| 0 <= k < i ==> #[trigger] out@[k]@ == redact_spec(items@[k]@),
                decreases items.len() - i,
            {
                proof {
                    assert(decreases_to!(*v => (*v)->Array_0));
                    assert(decreases_to!((*v)->Array_0 => (*v)->Array_0@));
                    assert(decreases_to!(items@ => items@[i as int]));
                }
                out.push(redacted(&items[i]));
                i = i + 1;
            }
            let r = JsonValue::Array(out);
            assert(r@ == redact_spec(v@)) by {
                let a = r@->Array_0;
                let b = redact_spec(v@)->Array_0;
                assert forall|k: int| 0 <= k < a.len() implies a[k] == b[k] by {
                    assert(out@[k]@ == redact_spec(items@[k]@));
                }
                assert(a =~= b);
            }
            r
        },
        JsonValue::Object(members) => {
            let mut out: Vec<(String, JsonValue)> = Vec::new();
            let mut i: usize = 0;
            while i < members.len()
                invariant
                    i <= members.len(),
                    out@.len() == i,
                    forall|k: int| 0 <= k < i ==> (#[trigger] out@[k]).0@ == members@[k].0@,
                    forall|k: int|
                        0 <= k < i ==> (#[trigger] out@[k]).1@ == (if sensitive_key(
                            members@[k].0@,
                        ) {
                            redacted_marker()
                        } else {
                            redact_spec(members@[k].1@)
                        }),
                decreases members.len() - i,
            {
                proof {
                    assert(decreases_to!(*v => (*v)->Object_0));
                    assert(decreases_to!((*v)->Object_0 => (*v)->Object_0@));
                    assert(decreases_to!(members@ => members@[i as int]));
                    assert(decreases_to!(members@[i as int] => members@[i as int].1));
                }
                let key = &members[i].0;
                let value = if is_sensitive_key(key.as_str()) {
                    redacted_marker_value()
                } else {
                    redacted(&members[i].1)
                };
                let ghost pre = out@;
                out.push((key.clone(), value));
                assert(out@[i as int].0@ == members@[i as int].0@);
                assert forall|k: int| 0 <= k < i implies out@[k] == pre[k] by {}
                i = i + 1;
            }
            let r = JsonValue::Object(out);
            assert(r@ == redact_spec(v@)) by {
                let a = r@->Object_0;
                let b = redact_spec(v@)->Object_0;
                assert forall|k: int| 0 <= k < a.len() implies a[k] == b[k] by {
                    assert(out@[k].0@ == members@[k].0@);
                }
                assert(a =~= b);
            }
            r
        },
        _ => v.duplicate(),
    }
}

/// Replaces, in place, the value under every sensitive key by `"<redacted>"`.
pub fn redact_json_value(value: &mut JsonValue)
    ensures
        final(value)@ == redact_spec(old(value)@),
{
    let r = redacted(value);
    *value = r;
}

/// What `String::from_utf8_lossy` makes of these bytes.
pub uninterp spec fn lossy_text_spec(bytes: Seq<u8>) -> Seq<char>;

/// `String::from_utf8_lossy`, made an owned `String`. Valid UTF-8 is decoded as it is.
#[verifier::external_body]
fn utf8_lossy(bytes: &[u8]) -> (r: String)
    ensures
        r@ == lossy_text_spec(bytes@),
        valid_utf8(bytes@) ==> r@ == decode_utf8(bytes@),
        encode_utf8(r@).len() <= usize::MAX,
{
    String::from_utf8_lossy(bytes).to_string()
}

/// The text a snippet is cut from: the redacted JSON text where the body is JSON of
/// moderate size, else the body read as lossy UTF-8.
pub open spec fn snippet_source(body: Seq<u8>) -> Seq<char> {
    let parsed = if body.len() <= JSON_PARSE_LIMIT {
        json_parse_spec(body)
    } else {
        None
    };
    match parsed {
        Some(v) => json_text_spec(redact_spec(v)),
        None => lossy_text_spec(body),
    }
}

/// A redacted snippet of a response body, cut to `max_len` bytes; `None` where the limit
/// is 0 or the body is empty.
pub fn redacted_body_snippet(body: &[u8], max_len: usize) -> (r: Option<String>)
    ensures
        max_len == 0 || body@.len() == 0 ==> r is None,
        max_len > 0 && body@.len() > 0 ==> r is Some && encode_utf8(r->0@) == truncate_spec(
            encode_utf8(snippet_source(body@)),
            max_len as int,
        ),
{
    if max_len == 0 {
        return None;
    }
    if body.len() == 0 {
        return None;
    }
    if body.len() <= JSON_PARSE_LIMIT {
        if let Ok(mut value) = json_parse(body) {
            redact_json_value(&mut value);
            let mut s = json_text(&value);
            truncate_in_place(&mut s, max_len);
            return Some(s);
        }
    }
    let mut s = utf8_lossy(body);
    truncate_in_place(&mut s, max_len);
    Some(s)
}

/// A snippet never exceeds its limit in bytes.
pub proof fn lemma_snippet_within_limit(body: Seq<u8>, max_len: int)
    requires
        max_len >= 0,
    ensures
        truncate_spec(encode_utf8(snippet_source(body)), max_len).len() <= max_len,
{
    lemma_truncate_within_limit(encode_utf8(snippet_source(body)), max_len);
}

} // verus!
