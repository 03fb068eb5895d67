//! URLs, parsed and edited by the `url` crate, and the client's URL rules on top of them.
use vstd::prelude::*;
use crate::error::{Error, ErrorKind, plain_error};
use crate::text::{
    chars_of, contains_chars, contains_spec, string_of, trim_char, trim_char_spec, trim_chars,
    trim_spec,
};

verus! {

#[verifier::external_type_specification]
#[verifier::external_body]
pub struct ExOutsideUrl(url::Url);

/// A parsed URL: the `url::Url` together with plain copies of the parts the client reads.
#[derive(Debug)]
pub struct HttpUrl {
    inner: url::Url,
    href: String,
    scheme: String,
    username: String,
    password: Option<String>,
    host: Option<String>,
    path: String,
    query: Option<String>,
    fragment: Option<String>,
    port: Option<u16>,
    cannot_be_a_base: bool,
}

/// The parts of a parsed URL.
pub struct UrlView {
    /// The whole serialization (`Url::as_str`).
    pub href: Seq<char>,
    pub scheme: Seq<char>,
    pub username: Seq<char>,
    pub password: Option<Seq<char>>,
    /// `Url::host_str`.
    pub host: Option<Seq<char>>,
    pub path: Seq<char>,
    pub query: Option<Seq<char>>,
    pub fragment: Option<Seq<char>>,
    /// `Url::port`: the port written in the URL, if any.
    pub port: Option<u16>,
    pub cannot_be_a_base: bool,
}

/// The text of an optional `String`.
pub open spec fn opt_view(o: Option<String>) -> Option<Seq<char>> {
    match o {
        Some(s) => Some(s@),
        None => None,
    }
}

/// The text of an optional `&str`.
pub open spec fn opt_str_view(o: Option<&str>) -> Option<Seq<char>> {
    match o {
        Some(s) => Some(s@),
        None => None,
    }
}

impl View for HttpUrl {
    type V = UrlView;

    closed spec fn view(&self) -> UrlView {
        UrlView {
            href: self.href@,
            scheme: self.scheme@,
            username: self.username@,
            password: opt_view(self.password),
            host: opt_view(self.host),
            path: self.path@,
            query: opt_view(self.query),
            fragment: opt_view(self.fragment),
            port: self.port,
            cannot_be_a_base: self.cannot_be_a_base,
        }
    }
}

/// What `Url::parse` makes of a text: the URL, or the text of its error.
pub uninterp spec fn url_parse_spec(input: Seq<char>) -> Result<UrlView, Seq<char>>;

/// What `Url::set_query` makes of a URL.
pub uninterp spec fn url_set_query_spec(u: UrlView, query: Option<Seq<char>>) -> UrlView;

/// What `Url::set_fragment` makes of a URL.
pub uninterp spec fn url_set_fragment_spec(u: UrlView, fragment: Option<Seq<char>>) -> UrlView;

/// What `Url::set_path` makes of a URL.
pub uninterp spec fn url_set_path_spec(u: UrlView, path: Seq<char>) -> UrlView;

/// What `PathSegmentsMut::extend` makes of a URL that can be a base.
pub uninterp spec fn url_extend_segments_spec(u: UrlView, segments: Seq<Seq<char>>) -> UrlView;

/// What `Url::join` makes of a base URL and a reference: the URL, or the text of its
/// error.
pub uninterp spec fn url_join_spec(u: UrlView, input: Seq<char>) -> Result<UrlView, Seq<char>>;

/// What `Url::query_pairs` yields for a URL: the pairs of its query (none without one),
/// form-urlencoded text decoded.
pub uninterp spec fn url_query_pairs_spec(u: UrlView) -> Seq<(Seq<char>, Seq<char>)>;

/// What appending key/value pairs through `Url::query_pairs_mut` makes of a URL.
pub uninterp spec fn url_append_pairs_spec(u: UrlView, pairs: Seq<(Seq<char>, Seq<char>)>) -> UrlView;

/// Bounds that keep the `url` crate's 32-bit offsets from overflowing while it writes
/// `extra` into a URL (it unwraps `to_u32` of the new serialization's length). A character
/// takes at most 4 bytes, and at most 12 once percent-encoded.
pub open spec fn edit_fits(u: UrlView, extra: Seq<char>) -> bool {
    edit_fits_len(u.href.len() as int, extra.len() as int)
}

/// [`edit_fits`] on lengths: a URL of `href_chars` characters, `extra_chars` more written in.
pub open spec fn edit_fits_len(href_chars: int, extra_chars: int) -> bool {
    4 * href_chars + 12 * extra_chars + 64 < 0x1_0000_0000
}

/// Tells whether [`edit_fits_len`] holds.
fn check_edit_fits(href_chars: usize, extra_chars: usize) -> (r: bool)
    ensures
        r == edit_fits_len(href_chars as int, extra_chars as int),
{
    if href_chars >= 0x4000_0000 || extra_chars >= 0x1555_5556 {
        false
    } else {
        4 * (href_chars as u64) + 12 * (extra_chars as u64) + 64 < 0x1_0000_0000
    }
}

/// Builds the library's [`HttpUrl`] from a `url::Url`, copying out its parts.
#[verifier::external_body]
fn from_outside(u: url::Url) -> HttpUrl {
    HttpUrl {
        href: u.as_str().to_string(),
        scheme: u.scheme().to_string(),
        username: u.username().to_string(),
        password: u.password().map(|s| s.to_string()),
        host: u.host_str().map(|s| s.to_string()),
        path: u.path().to_string(),
        query: u.query().map(|s| s.to_string()),
        fragment: u.fragment().map(|s| s.to_string()),
        port: u.port(),
        cannot_be_a_base: u.cannot_be_a_base(),
        inner: u,
    }
}

/// `Url::parse`. A URL with a host is written `scheme://host...`, so it can be a base.
#[verifier::external_body]
pub(crate) fn url_parse(input: &str) -> (r: Result<HttpUrl, String>)
    ensures
        match r {
            Ok(u) => url_parse_spec(input@) == Ok::<UrlView, Seq<char>>(u@) && url_invariants(u@)
                && (u@.host is Some ==> !u@.cannot_be_a_base),
            Err(e) => url_parse_spec(input@) == Err::<UrlView, Seq<char>>(e@),
        },
{
    match url::Url::parse(input) {
        Ok(u) => Ok(from_outside(u)),
        Err(e) => Err(e.to_string()),
    }
}

/// Invariants that the `url` crate keeps for every URL it makes, and checks in its own
/// tests (`Url::check_invariants`): the path lies within the serialization and ends it
/// where there is no query or fragment; a URL with a host is written `scheme://...` and
/// parses back to itself; and removing a query or fragment that is not there changes a
/// URL whose path is not opaque in nothing.
pub open spec fn url_invariants(u: UrlView) -> bool {
    &&& u.path.len() <= u.href.len()
    &&& u.query is None && u.fragment is None ==> u.href.skip(u.href.len() - u.path.len()) == u.path
    &&& u.host is Some ==> u.href.len() >= u.scheme.len() + 3 && u.href.take(u.scheme.len() + 3int)
        == u.scheme + "://"@ && url_parse_spec(u.href) == Ok::<UrlView, Seq<char>>(u)
    &&& u.query is None && u.fragment is None && !u.cannot_be_a_base ==> url_set_query_spec(u, None)
        == u && url_set_fragment_spec(u, None) == u
}

/// `r` has the scheme, the credentials, the host and the port of `u`, and can be a base
/// where `u` can.
pub open spec fn keeps_authority(r: UrlView, u: UrlView) -> bool {
    &&& r.scheme == u.scheme
    &&& r.username == u.username
    &&& r.password == u.password
    &&& r.host == u.host
    &&& r.port == u.port
    &&& r.cannot_be_a_base == u.cannot_be_a_base
}

/// `Url::set_query` on a copy. Removing the query keeps the fragment, and everything
/// before the query where the path is not opaque; only writing one can overflow the
/// crate's offsets.
#[verifier::external_body]
pub(crate) fn url_set_query(u: &HttpUrl, query: Option<&str>) -> (r: HttpUrl)
    requires
        query matches Some(q) ==> edit_fits(u@, q@),
    ensures
        r@ == url_set_query_spec(u@, opt_str_view(query)),
        url_invariants(r@),
        r@.cannot_be_a_base == u@.cannot_be_a_base,
        query is None ==> r@.query is None && r@.fragment == u@.fragment && r@.href.len()
            <= u@.href.len(),
        query is None ==> keeps_authority(r@, u@) && (!u@.cannot_be_a_base ==> r@.path == u@.path),
{
    let mut v = u.inner.clone();
    v.set_query(query);
    from_outside(v)
}

/// `Url::set_fragment` on a copy. Removing the fragment keeps the query, and everything
/// before it where the path is not opaque; only writing one can overflow the crate's
/// offsets.
#[verifier::external_body]
pub(crate) fn url_set_fragment(u: &HttpUrl, fragment: Option<&str>) -> (r: HttpUrl)
    requires
        fragment matches Some(f) ==> edit_fits(u@, f@),
    ensures
        r@ == url_set_fragment_spec(u@, opt_str_view(fragment)),
        url_invariants(r@),
        r@.cannot_be_a_base == u@.cannot_be_a_base,
        fragment is None ==> r@.fragment is None && r@.query == u@.query && r@.href.len()
            <= u@.href.len(),
        fragment is None ==> keeps_authority(r@, u@) && (!u@.cannot_be_a_base ==> r@.path
            == u@.path),
{
    let mut v = u.inner.clone();
    v.set_fragment(fragment);
    from_outside(v)
}

/// `Url::set_path` on a copy. Only the path is rewritten: the scheme, credentials, host,
/// query and fragment are kept, and a path written with a final `/` keeps it (its last
/// segment is empty).
#[verifier::external_body]
pub(crate) fn url_set_path(u: &HttpUrl, path: &str) -> (r: HttpUrl)
    requires
        edit_fits(u@, path@),
    ensures
        r@ == url_set_path_spec(u@, path@),
        url_invariants(r@),
        r@.query == u@.query && r@.fragment == u@.fragment,
        keeps_authority(r@, u@),
        !u@.cannot_be_a_base && ends_with_char(path@, '/') ==> ends_with_char(r@.path, '/'),
{
    let mut v = u.inner.clone();
    v.set_path(path);
    from_outside(v)
}

/// The total number of characters in a list of texts.
pub open spec fn total_chars(segs: Seq<Seq<char>>) -> int
    decreases segs.len(),
{
    if segs.len() == 0 {
        0
    } else {
        total_chars(segs.drop_last()) + segs.last().len()
    }
}

/// Bounds that keep the `url` crate's 32-bit offsets from overflowing while it appends
/// `segs` to the path of `u` (each segment percent-encoded, after a `/`).
pub open spec fn segments_fit(u: UrlView, segs: Seq<Seq<char>>) -> bool {
    4 * u.href.len() + 12 * total_chars(segs) + 12 * segs.len() + 64 < 0x1_0000_0000
}

/// The texts of a list of `String`s.
pub open spec fn views_of(v: Seq<String>) -> Seq<Seq<char>> {
    Seq::new(v.len(), |i: int| v[i]@)
}

/// `PathSegmentsMut::extend` on a copy of a URL that can be a base: appends each segment,
/// percent-encoded, as a path segment.
#[verifier::external_body]
pub(crate) fn url_extend_segments(u: &HttpUrl, segments: &Vec<String>) -> (r: HttpUrl)
    requires
        !u@.cannot_be_a_base,
        segments_fit(u@, views_of(segments@)),
    ensures
        r@ == url_extend_segments_spec(u@, views_of(segments@)),
        url_invariants(r@),
{
    let mut v = u.inner.clone();
    if let Ok(mut segs) = v.path_segments_mut() {
        segs.extend(segments.iter());
    }
    from_outside(v)
}

/// `Url::join`.
#[verifier::external_body]
pub(crate) fn url_join(u: &HttpUrl, input: &str) -> (r: Result<HttpUrl, String>)
    ensures
        match r {
            Ok(v) => url_join_spec(u@, input@) == Ok::<UrlView, Seq<char>>(v@) && url_invariants(v@),
            Err(e) => url_join_spec(u@, input@) == Err::<UrlView, Seq<char>>(e@),
        },
{
    match u.inner.join(input) {
        Ok(v) => Ok(from_outside(v)),
        Err(e) => Err(e.to_string()),
    }
}

/// The texts of a list of key/value pairs.
pub open spec fn pair_views(v: Seq<(String, String)>) -> Seq<(Seq<char>, Seq<char>)> {
    Seq::new(v.len(), |i: int| (v[i].0@, v[i].1@))
}

/// The total number of characters in a list of key/value pairs.
pub open spec fn pair_chars(pairs: Seq<(Seq<char>, Seq<char>)>) -> int
    decreases pairs.len(),
{
    if pairs.len() == 0 {
        0
    } else {
        pair_chars(pairs.drop_last()) + pairs.last().0.len() + pairs.last().1.len()
    }
}

/// `form_urlencoded::Serializer::extend_pairs` on the query of a copy of the URL
/// (`Url::query_pairs_mut`): appends each pair, form-urlencoded, to the query, after a `&`
/// where the query is not empty (a `?` is added where there is none). Only the query
/// changes; `Url::query_pairs` splits the query at `&` before it decodes, so it then
/// yields the pairs it yielded before, followed by the appended ones (an encoded text
/// decodes back to itself).
#[verifier::external_body]
pub(crate) fn url_append_pairs(u: &HttpUrl, pairs: &Vec<(String, String)>) -> (r: HttpUrl)
    requires
        4 * u@.href.len() + 12 * pair_chars(pair_views(pairs@)) + 12 * pairs@.len() + 64
            < 0x1_0000_0000,
    ensures
        r@ == url_append_pairs_spec(u@, pair_views(pairs@)),
        url_invariants(r@),
        keeps_authority(r@, u@) && r@.path == u@.path && r@.fragment == u@.fragment,
        url_query_pairs_spec(r@) == url_query_pairs_spec(u@) + pair_views(pairs@),
{
    let mut v = u.inner.clone();
    v.query_pairs_mut().extend_pairs(pairs.iter().map(|(k, val)| (k.as_str(), val.as_str())));
    from_outside(v)
}

/// `Url::query_pairs`, each key and value copied out.
#[verifier::external_body]
fn url_query_pairs(u: &HttpUrl) -> (r: Vec<(String, String)>)
    ensures
        pair_views(r@) == url_query_pairs_spec(u@),
{
    u.inner.query_pairs().map(|(k, v)| (k.into_owned(), v.into_owned())).collect()
}

/// `Url::clone`.
#[verifier::external_body]
pub(crate) fn url_clone(u: &HttpUrl) -> (r: HttpUrl)
    ensures
        r@ == u@,
        url_invariants(r@),
{
    from_outside(u.inner.clone())
}

impl HttpUrl {
    /// The serialization of the URL.
    pub fn as_str(&self) -> (r: &str)
        ensures
            r@ == self@.href,
    {
        self.href.as_str()
    }

    /// A copy of the URL.
    pub fn duplicate(&self) -> (r: HttpUrl)
        ensures
            r@ == self@,
    {
        url_clone(self)
    }

    /// The path of the URL.
    pub fn path(&self) -> (r: &str)
        ensures
            r@ == self@.path,
    {
        self.path.as_str()
    }

    /// The pairs of the URL's query, decoded (`Url::query_pairs`).
    pub fn query_pairs(&self) -> (r: Vec<(String, String)>)
        ensures
            pair_views(r@) == url_query_pairs_spec(self@),
    {
        url_query_pairs(self)
    }

    /// The query of the URL, if any.
    pub fn query(&self) -> (r: Option<&str>)
        ensures
            opt_str_view(r) == self@.query,
    {
        match &self.query {
            Some(q) => Some(q.as_str()),
            None => None,
        }
    }

    /// Parses an absolute URL; one with a host can be a base.
    pub fn parse(input: &str) -> (r: Result<HttpUrl, String>)
        ensures
            match r {
                Ok(u) => url_parse_spec(input@) == Ok::<UrlView, Seq<char>>(u@) && url_invariants(u@)
                    && (u@.host is Some ==> !u@.cannot_be_a_base),
                Err(e) => url_parse_spec(input@) == Err::<UrlView, Seq<char>>(e@),
            },
    {
        url_parse(input)
    }
}

/// `s` ends with `c`.
pub open spec fn ends_with_char(s: Seq<char>, c: char) -> bool {
    s.len() > 0 && s.last() == c
}

/// `a + b + c + d`, as a `String`.
fn join4(a: &str, b: &[char], c: &str, d: &[char]) -> (r: String)
    ensures
        r@ == a@ + b@ + c@ + d@,
{
    let mut v: Vec<char> = Vec::new();
    crate::text::push_str_chars(&mut v, a);
    let mut i: usize = 0;
    while i < b.len()
        invariant
            i <= b.len(),
            v@ == a@ + b@.take(i as int),
        decreases b.len() - i,
    {
        v.push(b[i]);
        assert(a@ + b@.take(i as int) + seq![b@[i as int]] =~= a@ + b@.take(i + 1));
        i = i + 1;
    }
    assert(b@.take(b.len() as int) =~= b@);
    crate::text::push_str_chars(&mut v, c);
    let mut j: usize = 0;
    while j < d.len()
        invariant
            j <= d.len(),
            v@ == a@ + b@ + c@ + d@.take(j as int),
        decreases d.len() - j,
    {
        v.push(d[j]);
        assert(a@ + b@ + c@ + d@.take(j as int) + seq![d@[j as int]] =~= a@ + b@ + c@ + d@.take(
            j + 1,
        ));
        j = j + 1;
    }
    assert(d@.take(d.len() as int) =~= d@);
    string_of(v.as_slice())
}

/// A configuration error with this message.
fn config_error(message: &str) -> (r: Error)
    ensures
        r@ == plain_error(ErrorKind::InvalidConfig, message@),
{
    Error::invalid_config(message.to_string())
}

/// The text that [`normalize_base_url`] parses: the trimmed input, with `https://`
/// in front where it names no scheme.
pub open spec fn base_candidate(input: Seq<char>) -> Seq<char> {
    let t = trim_spec(input);
    if contains_spec(t, "://"@) {
        t
    } else {
        "https://"@ + t
    }
}

/// A normalized base URL: `http` or `https`, with a host, without credentials, query or
/// fragment, its path ending with `/`.
pub open spec fn base_url_shape(u: UrlView) -> bool {
    &&& u.scheme == "http"@ || u.scheme == "https"@
    &&& u.host is Some
    &&& u.username.len() == 0 && u.password is None
    &&& u.query is None && u.fragment is None
    &&& ends_with_char(u.path, '/')
}

/// The base URL that [`normalize_base_url`] makes of its input, or its error message.
pub open spec fn normalize_spec(input: Seq<char>) -> Result<UrlView, Seq<char>> {
    let t = trim_spec(input);
    let candidate = base_candidate(input);
    if t.len() == 0 {
        Err("Base URL cannot be empty"@)
    } else {
        match url_parse_spec(candidate) {
            Err(e) => Err("Invalid base URL '"@ + candidate + "': "@ + e),
            Ok(u) => if u.scheme != "http"@ && u.scheme != "https"@ {
                Err("Unsupported URL scheme '"@ + u.scheme + "' in base URL"@)
            } else if u.host is None {
                Err("Base URL must include a host"@)
            } else if u.username.len() > 0 || u.password is Some {
                Err("Base URL must not include embedded credentials (userinfo)"@)
            } else {
                let stripped = url_set_fragment_spec(url_set_query_spec(u, None), None);
                if ends_with_char(stripped.path, '/') {
                    Ok(stripped)
                } else if !edit_fits(stripped, stripped.path.push('/')) {
                    Err("Base URL is too long"@)
                } else {
                    Ok(url_set_path_spec(stripped, stripped.path.push('/')))
                }
            },
        }
    }
}

/// A normalized base URL is written without surrounding whitespace and with `://`, and
/// parses back to itself, so normalizing it again gives it back.
proof fn lemma_normalized_reparses(u: UrlView)
    requires
        url_invariants(u),
        base_url_shape(u),
        !u.cannot_be_a_base,
    ensures
        normalize_spec(u.href) == Ok::<UrlView, Seq<char>>(u),
{
    reveal_strlit("http");
    reveal_strlit("https");
    reveal_strlit("://");
    let h = u.href;
    let sl = u.scheme.len() as int;
    let head = h.take(sl + 3);
    assert(head[0] == h[0]);
    assert(h[0] == 'h');
    let p = u.path;
    let tail = h.skip(h.len() - p.len());
    assert(tail[p.len() - 1] == h[h.len() - 1]);
    assert(h[h.len() - 1] == '/');
    assert(crate::text::first_non_ws_from(h, 0) == 0);
    assert(crate::text::last_non_ws_before(h, h.len() as int) == h.len());
    assert(h.subrange(0, h.len() as int) =~= h);
    assert(trim_spec(h) == h);
    assert(h.subrange(sl, sl + 3) =~= "://"@) by {
        assert forall|k: int| 0 <= k < 3 implies h.subrange(sl, sl + 3)[k] == "://"@[k] by {
            assert(head[sl + k] == h[sl + k]);
        }
    }
    assert(crate::text::occurs_at(h, "://"@, sl));
    assert(contains_spec(h, "://"@));
    assert(base_candidate(h) == h);
}

proof fn lemma_first_non_ws(s: Seq<char>, i: int)
    requires
        0 <= i <= s.len(),
    ensures
        i <= crate::text::first_non_ws_from(s, i) <= s.len(),
        crate::text::first_non_ws_from(s, i) < s.len() ==> !crate::text::is_ws(
            s[crate::text::first_non_ws_from(s, i)],
        ),
    decreases s.len() - i,
{
    if i < s.len() && crate::text::is_ws(s[i]) {
        lemma_first_non_ws(s, i + 1);
    }
}

proof fn lemma_last_non_ws(s: Seq<char>, j: int)
    requires
        0 <= j <= s.len(),
    ensures
        0 <= crate::text::last_non_ws_before(s, j) <= j,
        crate::text::last_non_ws_before(s, j) > 0 ==> !crate::text::is_ws(
            s[crate::text::last_non_ws_before(s, j) - 1],
        ),
    decreases j,
{
    if j > 0 && crate::text::is_ws(s[j - 1]) {
        lemma_last_non_ws(s, j - 1);
    }
}

/// A trimmed text that is not empty starts and ends with a character that is not
/// whitespace.
proof fn lemma_trimmed_ends(s: Seq<char>)
    requires
        trim_spec(s).len() > 0,
    ensures
        !crate::text::is_ws(trim_spec(s)[0]),
        !crate::text::is_ws(trim_spec(s).last()),
{
    lemma_first_non_ws(s, 0);
    lemma_last_non_ws(s, s.len() as int);
}

/// Where the trimmed input names a scheme (it holds `://`), it is parsed as it is, with no
/// scheme added.
pub proof fn lemma_given_scheme_is_kept(input: Seq<char>)
    requires
        contains_spec(trim_spec(input), "://"@),
    ensures
        base_candidate(input) == trim_spec(input),
{
}

/// Where the trimmed input names no scheme (it holds no `://`), normalizing it is
/// normalizing `https://` followed by it: a missing scheme is `https`, whatever else the
/// input holds (`host:8000` is read as `https://host:8000`).
pub proof fn lemma_missing_scheme_is_https(input: Seq<char>)
    requires
        trim_spec(input).len() > 0,
        !contains_spec(trim_spec(input), "://"@),
    ensures
        base_candidate(input) == "https://"@ + trim_spec(input),
        normalize_spec(input) == normalize_spec("https://"@ + trim_spec(input)),
{
    reveal_strlit("https://");
    reveal_strlit("://");
    let t = trim_spec(input);
    let y = "https://"@ + t;
    lemma_trimmed_ends(input);
    assert(y[0] == 'h');
    assert(y.last() == t.last());
    assert(crate::text::first_non_ws_from(y, 0) == 0);
    assert(crate::text::last_non_ws_before(y, y.len() as int) == y.len());
    assert(y.subrange(0, y.len() as int) =~= y);
    assert(trim_spec(y) == y);
    assert(y.subrange(5, 8) =~= "://"@);
    assert(crate::text::occurs_at(y, "://"@, 5));
    assert(base_candidate(y) == y);
}

fn is_http_scheme(s: &str) -> (r: u8)
    ensures
        r == 0 ==> s@ == "http"@ || s@ == "https"@,
        r != 0 ==> s@ != "http"@ && s@ != "https"@,
{
    let c = chars_of(s);
    let h = chars_of("http");
    let hs = chars_of("https");
    if crate::text::chars_eq(c.as_slice(), h.as_slice()) || crate::text::chars_eq(
        c.as_slice(),
        hs.as_slice(),
    ) {
        0
    } else {
        1
    }
}

/// Parses and normalizes a base URL.
///
/// - If the scheme is missing, `https://` is assumed.
/// - Only `http` and `https` are accepted, with a host and without credentials.
/// - Query and fragment are stripped.
/// - The path is made to end with `/`; where writing it would overflow the `url` crate's
///   32-bit offsets, the URL is refused as too long.
pub fn normalize_base_url(input: &str) -> (r: Result<HttpUrl, Error>)
    ensures
        r matches Ok(u) ==> base_url_shape(u@),
        r matches Ok(u) ==> normalize_spec(u@.href) == Ok::<UrlView, Seq<char>>(u@),
        match r {
            Ok(u) => normalize_spec(input@) == Ok::<UrlView, Seq<char>>(u@),
            Err(e) => normalize_spec(input@) is Err && e@ == plain_error(
                ErrorKind::InvalidConfig,
                normalize_spec(input@)->Err_0,
            ),
        },
{
    let chars = chars_of(input);
    let t = trim_chars(chars.as_slice());
    if t.len() == 0 {
        return Err(config_error("Base URL cannot be empty"));
    }
    let sep = chars_of("://");
    let candidate = if contains_chars(t.as_slice(), sep.as_slice()) {
        string_of(t.as_slice())
    } else {
        let mut v = chars_of("https://");
        let mut i: usize = 0;
        let ghost pre = v@;
        while i < t.len()
            invariant
                i <= t.len(),
                v@ == pre + t@.take(i as int),
            decreases t.len() - i,
        {
            v.push(t[i]);
            assert(pre + t@.take(i as int) + seq![t@[i as int]] =~= pre + t@.take(i + 1));
            i = i + 1;
        }
        assert(t@.take(t.len() as int) =~= t@);
        string_of(v.as_slice())
    };
    proof {
        reveal_strlit("://");
        reveal_strlit("https://");
    }
    assert(candidate@ == base_candidate(input@));
    let url = match HttpUrl::parse(candidate.as_str()) {
        Ok(u) => u,
        Err(e) => {
            let cand = chars_of(candidate.as_str());
            let ec = chars_of(e.as_str());
            return Err(Error::invalid_config(join4("Invalid base URL '", cand.as_slice(), "': ", ec.as_slice())));
        },
    };
    if is_http_scheme(url.scheme.as_str()) != 0 {
        let sc = chars_of(url.scheme.as_str());
        let m = join4("Unsupported URL scheme '", sc.as_slice(), "' in base URL", &[]);
        assert(m@ == "Unsupported URL scheme '"@ + url@.scheme + "' in base URL"@) by {
            assert(Seq::<char>::empty() =~= seq![]);
        }
        return Err(Error::invalid_config(m));
    }
    if url.host.is_none() {
        return Err(config_error("Base URL must include a host"));
    }
    if url.username.as_str().unicode_len() > 0 || url.password.is_some() {
        return Err(config_error("Base URL must not include embedded credentials (userinfo)"));
    }
    let url = url_set_query(&url, None);
    let url = url_set_fragment(&url, None);
    let path = chars_of(url.path.as_str());
    if path.len() > 0 && path[path.len() - 1] == '/' {
        proof {
            lemma_normalized_reparses(url@);
        }
        Ok(url)
    } else {
        let mut p = path;
        p.push('/');
        if !check_edit_fits(url.href.as_str().unicode_len(), p.len()) {
            return Err(config_error("Base URL is too long"));
        }
        let ps = string_of(p.as_slice());
        let done = url_set_path(&url, ps.as_str());
        proof {
            lemma_normalized_reparses(done@);
        }
        Ok(done)
    }
}

/// The path segments that [`join_segments`] appends: each segment without its leading and
/// trailing `/`, empty ones left out.
pub open spec fn clean_segments(segs: Seq<Seq<char>>) -> Seq<Seq<char>>
    decreases segs.len(),
{
    if segs.len() == 0 {
        Seq::empty()
    } else {
        let rest = clean_segments(segs.drop_last());
        let c = trim_char_spec(segs.last(), '/');
        if c.len() == 0 {
            rest
        } else {
            rest.push(c)
        }
    }
}

/// The texts of a list of `&str`.
pub open spec fn str_views(segs: Seq<&str>) -> Seq<Seq<char>> {
    Seq::new(segs.len(), |i: int| segs[i]@)
}

/// The URL that [`join_segments`] makes, or its error message.
pub open spec fn join_segments_spec(base: UrlView, segs: Seq<Seq<char>>) -> Result<UrlView, Seq<char>> {
    let stripped = url_set_fragment_spec(url_set_query_spec(base, None), None);
    let clean = clean_segments(segs);
    if base.cannot_be_a_base {
        Err("Base URL cannot be used as a base (no path segments)"@)
    } else if !segments_fit(stripped, clean) {
        Err("URL is too long"@)
    } else {
        Ok(url_extend_segments_spec(stripped, clean))
    }
}

/// Joins path segments onto a base URL: query and fragment are dropped, then each
/// non-empty segment (without its surrounding `/`) is appended as one path segment.
pub fn join_segments(base: &HttpUrl, segments: &[&str]) -> (r: Result<HttpUrl, Error>)
    ensures
        match r {
            Ok(u) => join_segments_spec(base@, str_views(segments@)) == Ok::<UrlView, Seq<char>>(u@),
            Err(e) => join_segments_spec(base@, str_views(segments@)) is Err && e@ == plain_error(
                ErrorKind::InvalidConfig,
                join_segments_spec(base@, str_views(segments@))->Err_0,
            ),
        },
{
    if base.cannot_be_a_base {
        return Err(config_error("Base URL cannot be used as a base (no path segments)"));
    }
    let u = url_set_query(base, None);
    let u = url_set_fragment(&u, None);
    assert(str_views(segments@.take(0)) =~= Seq::<Seq<char>>::empty());
    let mut cleaned: Vec<String> = Vec::new();
    let mut i: usize = 0;
    while i < segments.len()
        invariant
            i <= segments.len(),
            views_of(cleaned@) == clean_segments(str_views(segments@.take(i as int))),
        decreases segments.len() - i,
    {
        let seg = segments[i];
        let ghost before = cleaned@;
        let sc = chars_of(seg);
        let c = trim_char(sc.as_slice(), '/');
        if c.len() > 0 {
            cleaned.push(string_of(c.as_slice()));
        }
        proof {
            let sv = str_views(segments@.take(i + 1));
            assert(sv.drop_last() =~= str_views(segments@.take(i as int)));
            assert(sv.last() == seg@);
            if c@.len() > 0 {
                assert(views_of(cleaned@) =~= views_of(before).push(c@));
            } else {
                assert(views_of(cleaned@) =~= views_of(before));
            }
        }
        i = i + 1;
    }
    assert(segments@.take(segments@.len() as int) =~= segments@);
    let ghost all = views_of(cleaned@);
    assert(all == clean_segments(str_views(segments@)));
    let h = u.href.as_str().unicode_len();
    if h >= 0x3FFF_FFF0 {
        proof {
            lemma_total_nonneg(all);
        }
        return Err(config_error("URL is too long"));
    }
    let mut room: u64 = 4 * (h as u64) + 64;
    let mut j: usize = 0;
    assert(all.take(0) =~= Seq::<Seq<char>>::empty());
    while j < cleaned.len()
        invariant
            j <= cleaned.len(),
            all == views_of(cleaned@),
            all == clean_segments(str_views(segments@)),
            !base@.cannot_be_a_base,
            u@ == url_set_fragment_spec(url_set_query_spec(base@, None), None),
            h == u@.href.len(),
            room == 4 * u@.href.len() + 12 * total_chars(all.take(j as int)) + 12 * j + 64,
            room < 0x1_0000_0000,
        decreases cleaned.len() - j,
    {
        let n = cleaned[j].as_str().unicode_len();
        proof {
            assert(all.take(j + 1).drop_last() =~= all.take(j as int));
            assert(all.take(j + 1).last() == cleaned@[j as int]@);
        }
        if n >= 0x1555_5556 || room + 12 * (n as u64) + 12 >= 0x1_0000_0000 {
            proof {
                lemma_total_prefix_le(all, j + 1);
                lemma_total_nonneg(all.take(j as int));
            }
            return Err(config_error("URL is too long"));
        }
        room = room + 12 * (n as u64) + 12;
        j = j + 1;
    }
    assert(all.take(all.len() as int) =~= all);
    Ok(url_extend_segments(&u, &cleaned))
}

proof fn lemma_total_nonneg(segs: Seq<Seq<char>>)
    ensures
        total_chars(segs) >= 0,
    decreases segs.len(),
{
    if segs.len() > 0 {
        lemma_total_nonneg(segs.drop_last());
    }
}

proof fn lemma_total_prefix_le(segs: Seq<Seq<char>>, i: int)
    requires
        0 <= i <= segs.len(),
    ensures
        total_chars(segs.take(i)) <= total_chars(segs),
    decreases segs.len() - i,
{
    if i < segs.len() {
        lemma_total_prefix_le(segs, i + 1);
        assert(segs.take(i + 1).drop_last() =~= segs.take(i));
        lemma_total_nonneg(segs.take(i + 1));
    } else {
        assert(segs.take(i) =~= segs);
    }
}

/// The URL that [`resolve_uri`] makes, or its error message.
pub open spec fn resolve_spec(base: UrlView, uri: Seq<char>) -> Result<UrlView, Seq<char>> {
    let t = trim_spec(uri);
    if t.len() == 0 {
        Err("URI cannot be empty"@)
    } else if contains_spec(t, "://"@) {
        match url_parse_spec(t) {
            Ok(u) => Ok(u),
            Err(e) => Err("Invalid absolute URI '"@ + t + "': "@ + e),
        }
    } else {
        match url_join_spec(base, t) {
            Ok(u) => Ok(u),
            Err(e) => Err("Invalid relative URI '"@ + t + "': "@ + e),
        }
    }
}

/// Resolves a URI against `base`: an absolute URI (one holding `://`) is parsed as it
/// is, anything else is joined onto the base.
pub fn resolve_uri(base: &HttpUrl, uri: &str) -> (r: Result<HttpUrl, Error>)
    ensures
        match r {
            Ok(u) => resolve_spec(base@, uri@) == Ok::<UrlView, Seq<char>>(u@),
            Err(e) => resolve_spec(base@, uri@) is Err && e@ == plain_error(
                ErrorKind::InvalidConfig,
                resolve_spec(base@, uri@)->Err_0,
            ),
        },
{
    let chars = chars_of(uri);
    let t = trim_chars(chars.as_slice());
    if t.len() == 0 {
        return Err(config_error("URI cannot be empty"));
    }
    let ts = string_of(t.as_slice());
    let sep = chars_of("://");
    proof {
        reveal_strlit("://");
    }
    if contains_chars(t.as_slice(), sep.as_slice()) {
        match HttpUrl::parse(ts.as_str()) {
            Ok(u) => Ok(u),
            Err(e) => {
                let ec = chars_of(e.as_str());
                Err(Error::invalid_config(join4("Invalid absolute URI '", t.as_slice(), "': ", ec.as_slice())))
            },
        }
    } else {
        match url_join(base, ts.as_str()) {
            Ok(u) => Ok(u),
            Err(e) => {
                let ec = chars_of(e.as_str());
                Err(Error::invalid_config(join4("Invalid relative URI '", t.as_slice(), "': ", ec.as_slice())))
            },
        }
    }
}

} // verus!
