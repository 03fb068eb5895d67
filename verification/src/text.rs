//! Character-level text helpers shared by the URL, header and redaction logic.
//!
//! Strings are reasoned about through their view, a `Seq<char>`.
use vstd::prelude::*;

verus! {

/// Unicode `White_Space` property, as `char::is_whitespace` implements it.
pub open spec fn is_ws(c: char) -> bool {
    ||| ('\u{9}' <= c && c <= '\u{d}')
    ||| c == ' '
    ||| c == '\u{85}'
    ||| c == '\u{a0}'
    ||| c == '\u{1680}'
    ||| ('\u{2000}' <= c && c <= '\u{200a}')
    ||| c == '\u{2028}'
    ||| c == '\u{2029}'
    ||| c == '\u{202f}'
    ||| c == '\u{205f}'
    ||| c == '\u{3000}'
}

/// Index of the first character at or after `i` that does not satisfy the predicate
/// "is whitespace" (or the length when there is none).
pub open spec fn first_non_ws_from(s: Seq<char>, i: int) -> int
    decreases s.len() - i,
{
    if i >= s.len() {
        s.len() as int
    } else if is_ws(s[i]) {
        first_non_ws_from(s, i + 1)
    } else {
        i
    }
}

/// One past the index of the last character before `j` that is not whitespace (or 0).
pub open spec fn last_non_ws_before(s: Seq<char>, j: int) -> int
    decreases j,
{
    if j <= 0 {
        0
    } else if is_ws(s[j - 1]) {
        last_non_ws_before(s, j - 1)
    } else {
        j
    }
}

/// `str::trim`: the text without leading and trailing whitespace.
pub open spec fn trim_spec(s: Seq<char>) -> Seq<char> {
    let start = first_non_ws_from(s, 0);
    let end = last_non_ws_before(s, s.len() as int);
    if start >= end {
        Seq::empty()
    } else {
        s.subrange(start, end)
    }
}

/// Index of the first character at or after `i` that differs from `c`.
pub open spec fn first_not_from(s: Seq<char>, c: char, i: int) -> int
    decreases s.len() - i,
{
    if i >= s.len() {
        s.len() as int
    } else if s[i] == c {
        first_not_from(s, c, i + 1)
    } else {
        i
    }
}

/// One past the index of the last character before `j` that differs from `c`.
pub open spec fn last_not_before(s: Seq<char>, c: char, j: int) -> int
    decreases j,
{
    if j <= 0 {
        0
    } else if s[j - 1] == c {
        last_not_before(s, c, j - 1)
    } else {
        j
    }
}

/// `str::trim_matches(c)` for a single character.
pub open spec fn trim_char_spec(s: Seq<char>, c: char) -> Seq<char> {
    let start = first_not_from(s, c, 0);
    let end = last_not_before(s, c, s.len() as int);
    if start >= end {
        Seq::empty()
    } else {
        s.subrange(start, end)
    }
}

/// ASCII lower-casing of one character (`char::to_ascii_lowercase`).
pub open spec fn lower_char(c: char) -> char {
    if 'A' <= c && c <= 'Z' {
        ((c as u32) + 32) as char
    } else {
        c
    }
}

/// ASCII lower-casing of a text (`str::to_ascii_lowercase`).
pub open spec fn lower_spec(s: Seq<char>) -> Seq<char> {
    Seq::new(s.len(), |i: int| lower_char(s[i]))
}

/// Whether `needle` occurs in `s` starting at position `i`.
pub open spec fn occurs_at(s: Seq<char>, needle: Seq<char>, i: int) -> bool {
    0 <= i && i + needle.len() <= s.len() && s.subrange(i, i + needle.len()) == needle
}

/// Whether `needle` occurs anywhere in `s` (`str::contains`).
pub open spec fn contains_spec(s: Seq<char>, needle: Seq<char>) -> bool {
    exists|i: int| occurs_at(s, needle, i)
}

/// Appends one character to a `String` (`String::push`).
#[verifier::external_body]
pub(crate) fn push_char(s: &mut String, c: char)
    ensures
        final(s)@ == old(s)@.push(c),
{
    s.push(c);
}

/// The characters of a text, in order.
pub fn chars_of(s: &str) -> (r: Vec<char>)
    ensures
        r@ == s@,
{
    let mut out: Vec<char> = Vec::new();
    for c in it: s.chars()
        invariant
            out@ == it.seq().take(it.index() as int),
    {
        out.push(c);
    }
    out
}

/// A `String` holding the given characters.
pub fn string_of(v: &[char]) -> (r: String)
    ensures
        r@ == v@,
{
    let mut out = String::new();
    let mut i: usize = 0;
    while i < v.len()
        invariant
            i <= v.len(),
            out@ == v@.take(i as int),
        decreases v.len() - i,
    {
        push_char(&mut out, v[i]);
        assert(v@.take(i as int).push(v@[i as int]) =~= v@.take(i + 1));
        i = i + 1;
    }
    assert(v@.take(v.len() as int) =~= v@);
    out
}

/// A `String` holding the characters of `v[start..end]`.
pub fn string_of_range(v: &[char], start: usize, end: usize) -> (r: String)
    requires
        start <= end <= v.len(),
    ensures
        r@ == v@.subrange(start as int, end as int),
{
    let mut out = String::new();
    let mut i: usize = start;
    while i < end
        invariant
            start <= i <= end <= v.len(),
            out@ == v@.subrange(start as int, i as int),
        decreases end - i,
    {
        push_char(&mut out, v[i]);
        assert(v@.subrange(start as int, i as int).push(v@[i as int]) =~= v@.subrange(
            start as int,
            i + 1,
        ));
        i = i + 1;
    }
    out
}

/// `char::is_whitespace`.
pub fn is_whitespace(c: char) -> (r: bool)
    ensures
        r == is_ws(c),
{
    ('\u{9}' <= c && c <= '\u{d}') || c == ' ' || c == '\u{85}' || c == '\u{a0}' || c
        == '\u{1680}' || ('\u{2000}' <= c && c <= '\u{200a}') || c == '\u{2028}' || c
        == '\u{2029}' || c == '\u{202f}' || c == '\u{205f}' || c == '\u{3000}'
}

/// `str::trim` on a character sequence.
pub fn trim_chars(v: &[char]) -> (r: Vec<char>)
    ensures
        r@ == trim_spec(v@),
{
    let n = v.len();
    let mut i: usize = 0;
    while i < n && is_whitespace(v[i])
        invariant
            i <= n == v@.len(),
            first_non_ws_from(v@, 0) == first_non_ws_from(v@, i as int),
        decreases n - i,
    {
        i = i + 1;
    }
    let mut j: usize = n;
    while j > 0 && is_whitespace(v[j - 1])
        invariant
            j <= n == v@.len(),
            last_non_ws_before(v@, n as int) == last_non_ws_before(v@, j as int),
        decreases j,
    {
        j = j - 1;
    }
    let mut out: Vec<char> = Vec::new();
    if i < j {
        let mut k: usize = i;
        while k < j
            invariant
                i <= k <= j <= n == v@.len(),
                out@ == v@.subrange(i as int, k as int),
            decreases j - k,
        {
            out.push(v[k]);
            assert(v@.subrange(i as int, k as int).push(v@[k as int]) =~= v@.subrange(
                i as int,
                k + 1,
            ));
            k = k + 1;
        }
    }
    out
}

/// `str::trim_matches(c)` on a character sequence.
pub fn trim_char(v: &[char], c: char) -> (r: Vec<char>)
    ensures
        r@ == trim_char_spec(v@, c),
{
    let n = v.len();
    let mut i: usize = 0;
    while i < n && v[i] == c
        invariant
            i <= n == v@.len(),
            first_not_from(v@, c, 0) == first_not_from(v@, c, i as int),
        decreases n - i,
    {
        i = i + 1;
    }
    let mut j: usize = n;
    while j > 0 && v[j - 1] == c
        invariant
            j <= n == v@.len(),
            last_not_before(v@, c, n as int) == last_not_before(v@, c, j as int),
        decreases j,
    {
        j = j - 1;
    }
    let mut out: Vec<char> = Vec::new();
    if i < j {
        let mut k: usize = i;
        while k < j
            invariant
                i <= k <= j <= n == v@.len(),
                out@ == v@.subrange(i as int, k as int),
            decreases j - k,
        {
            out.push(v[k]);
            assert(v@.subrange(i as int, k as int).push(v@[k as int]) =~= v@.subrange(
                i as int,
                k + 1,
            ));
            k = k + 1;
        }
    }
    out
}

/// `char::to_ascii_lowercase`.
pub fn lower_ascii_char(c: char) -> (r: char)
    ensures
        r == lower_char(c),
{
    if 'A' <= c && c <= 'Z' {
        let u: u8 = c as u8;
        let l: u8 = u + 32;
        l as char
    } else {
        c
    }
}

/// ASCII lower-casing of a character sequence.
pub fn lower_chars(v: &[char]) -> (r: Vec<char>)
    ensures
        r@ == lower_spec(v@),
{
    let mut out: Vec<char> = Vec::new();
    let mut i: usize = 0;
    while i < v.len()
        invariant
            i <= v.len(),
            out@ =~= lower_spec(v@.take(i as int)),
        decreases v.len() - i,
    {
        out.push(lower_ascii_char(v[i]));
        i = i + 1;
    }
    assert(v@.take(v.len() as int) =~= v@);
    out
}

/// Whether two character sequences are equal.
pub fn chars_eq(a: &[char], b: &[char]) -> (r: bool)
    ensures
        r == (a@ == b@),
{
    if a.len() != b.len() {
        return false;
    }
    let mut i: usize = 0;
    while i < a.len()
        invariant
            i <= a.len() == b.len(),
            forall|k: int| 0 <= k < i ==> a@[k] == b@[k],
        decreases a.len() - i,
    {
        if a[i] != b[i] {
            return false;
        }
        i = i + 1;
    }
    assert(a@ =~= b@);
    true
}

/// Whether `needle` occurs in `v` at position `i`.
pub fn occurs_at_exec(v: &[char], needle: &[char], i: usize) -> (r: bool)
    ensures
        r == occurs_at(v@, needle@, i as int),
{
    if i > v.len() || needle.len() > v.len() - i {
        return false;
    }
    let mut k: usize = 0;
    while k < needle.len()
        invariant
            k <= needle.len(),
            i + needle.len() <= v.len(),
            forall|t: int| 0 <= t < k ==> v@[i + t] == needle@[t],
        decreases needle.len() - k,
    {
        if v[i + k] != needle[k] {
            assert(v@.subrange(i as int, i + needle.len())[k as int] != needle@[k as int]);
            return false;
        }
        k = k + 1;
    }
    assert(v@.subrange(i as int, i + needle.len()) =~= needle@);
    true
}

/// `str::contains` on character sequences.
pub fn contains_chars(v: &[char], needle: &[char]) -> (r: bool)
    ensures
        r == contains_spec(v@, needle@),
{
    if needle.len() > v.len() {
        return false;
    }
    let last = v.len() - needle.len();
    let mut i: usize = 0;
    loop
        invariant
            i <= last,
            last + needle@.len() == v@.len(),
            forall|t: int| 0 <= t < i ==> !occurs_at(v@, needle@, t),
        ensures
            forall|t: int| 0 <= t <= last ==> !occurs_at(v@, needle@, t),
        decreases last - i,
    {
        if occurs_at_exec(v, needle, i) {
            return true;
        }
        if i == last {
            break;
        }
        i = i + 1;
    }
    assert forall|t: int| !occurs_at(v@, needle@, t) by {
        if 0 <= t && t + needle@.len() <= v@.len() {
            assert(t <= last);
        }
    }
    false
}

/// The decimal digit for a value below 10.
pub open spec fn digit_char(d: int) -> char {
    ((d + 48) as u8) as char
}

/// The decimal text of a number, as `u64::to_string` writes it.
pub open spec fn decimal_text(n: nat) -> Seq<char>
    decreases n,
{
    if n < 10 {
        seq![digit_char(n as int)]
    } else {
        decimal_text(n / 10) + seq![digit_char((n % 10) as int)]
    }
}

/// Appends the decimal text of `n` to `out`.
pub fn push_decimal(out: &mut Vec<char>, n: u64)
    ensures
        final(out)@ == old(out)@ + decimal_text(n as nat),
    decreases n,
{
    if n >= 10 {
        push_decimal(out, n / 10);
    }
    let d: u8 = (n % 10) as u8;
    let c: char = (d + 48) as char;
    out.push(c);
    proof {
        if n >= 10 {
            assert(decimal_text(n as nat) == decimal_text((n / 10) as nat) + seq![digit_char((n % 10) as int)]);
        }
    }
    assert(final(out)@ =~= old(out)@ + decimal_text(n as nat));
}

/// The decimal text of `n` (`u64::to_string`).
pub fn decimal_string(n: u64) -> (r: String)
    ensures
        r@ == decimal_text(n as nat),
{
    let mut v: Vec<char> = Vec::new();
    push_decimal(&mut v, n);
    assert(v@ =~= decimal_text(n as nat));
    string_of(v.as_slice())
}

/// Appends the characters of `s` to `out`.
pub fn push_str_chars(out: &mut Vec<char>, s: &str)
    ensures
        final(out)@ == old(out)@ + s@,
{
    for c in it: s.chars()
        invariant
            out@ == old(out)@ + it.seq().take(it.index() as int),
    {
        out.push(c);
        assert(old(out)@ + it.seq().take(it.index() as int) =~= old(out)@ + it.seq().take(it.index() as int));
    }
    assert(s@.take(s@.len() as int) =~= s@);
}

} // verus!
