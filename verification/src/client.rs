//! The runtime-agnostic client: its configuration, how it names Redfish URLs and which
//! headers its requests carry. The transports that send requests are built from it.
use http::HeaderMap;
use vstd::prelude::*;
use vstd::utf8::encode_utf8;

use crate::auth::{
    auth_value_invalid, auth_error_message, auth_header, header_map_full_message, with_auth_header, Auth, AuthView,
};
use crate::error::{plain_error, Error, ErrorKind, ErrorView};
use crate::headers::{
    lemma_room_after_insert, room_for, MAX_HEADER_NAMES,
    header_entries, header_insert, header_insert_if_absent, header_key, header_map_clone,
    header_map_new, is_valid_header_value, valid_header_name, valid_header_value,
};
use crate::retry::{RetryPolicy, RetryPolicyView, default_retry_policy};
use crate::text::{chars_of, string_of, trim_char, trim_chars, trim_char_spec, trim_spec};
use crate::url::{
    join_segments, join_segments_spec, normalize_base_url, normalize_spec, resolve_spec,
    resolve_uri, str_views, views_of, HttpUrl, UrlView,
};

verus! {

/// How much of an error body is kept by default, in bytes.
pub const DEFAULT_BODY_SNIPPET_LIMIT: usize = 8192;

/// The `User-Agent` used where none is configured.
pub const DEFAULT_USER_AGENT: &'static str = "redfish/0.3.0";

// ---------------------------------------------------------------------------------------
// The Redfish root path
// ---------------------------------------------------------------------------------------

/// The index of the last `/` in `s`, or -1.
pub open spec fn last_slash(s: Seq<char>) -> int
    decreases s.len(),
{
    if s.len() == 0 {
        -1
    } else if s.last() == '/' {
        s.len() - 1
    } else {
        last_slash(s.drop_last())
    }
}

/// The last slash lies within the text (or is -1 where there is none).
pub proof fn lemma_last_slash_bounds(s: Seq<char>)
    ensures
        -1 <= last_slash(s) < s.len(),
        last_slash(s) >= 0 ==> s[last_slash(s)] == '/',
    decreases s.len(),
{
    if s.len() > 0 && s.last() != '/' {
        lemma_last_slash_bounds(s.drop_last());
    }
}

/// The non-empty pieces of `s` between slashes, in order (`split('/')` without the
/// empty pieces).
pub open spec fn path_segments(s: Seq<char>) -> Seq<Seq<char>>
    decreases s.len(),
{
    let k = last_slash(s);
    proof {
        lemma_last_slash_bounds(s);
    }
    let tail = s.subrange(k + 1, s.len() as int);
    let front = if k >= 0 {
        path_segments(s.subrange(0, k))
    } else {
        Seq::empty()
    };
    if tail.len() > 0 {
        front.push(tail)
    } else {
        front
    }
}

/// The segments of a root path, or the error message for a path with none: the path is
/// trimmed of white space, then of slashes, then split at slashes.
pub open spec fn root_path_spec(path: Seq<char>) -> Result<Seq<Seq<char>>, Seq<char>> {
    let t = trim_char_spec(trim_spec(path), '/');
    if t.len() == 0 {
        Err("redfish_root_path cannot be empty"@)
    } else {
        Ok(path_segments(t))
    }
}

proof fn lemma_last_slash_of_prefix(s: Seq<char>, j: int, i: int)
    requires
        0 <= j <= i <= s.len(),
        j > 0 ==> s[j - 1] == '/',
        forall|k: int| j <= k < i ==> s[k] != '/',
    ensures
        last_slash(s.take(i)) == j - 1,
    decreases i - j,
{
    if i > j {
        assert(s.take(i).last() == s[i - 1]);
        assert(s.take(i).drop_last() =~= s.take(i - 1));
        lemma_last_slash_of_prefix(s, j, i - 1);
    } else if i > 0 {
        assert(s.take(i).last() == s[i - 1]);
    }
}

proof fn lemma_segments_of_prefix(s: Seq<char>, j: int, i: int)
    requires
        0 <= j <= i <= s.len(),
        j > 0 ==> s[j - 1] == '/',
        forall|k: int| j <= k < i ==> s[k] != '/',
    ensures
        path_segments(s.take(i)) == (if j > 0 {
            path_segments(s.take(j - 1))
        } else {
            Seq::empty()
        }) + (if j < i {
            seq![s.subrange(j, i)]
        } else {
            Seq::empty()
        }),
{
    lemma_last_slash_of_prefix(s, j, i);
    let p = s.take(i);
    assert(p.subrange(j, i) =~= s.subrange(j, i));
    if j > 0 {
        assert(p.subrange(0, j - 1) =~= s.take(j - 1));
    }
    let front: Seq<Seq<char>> = if j > 0 {
        path_segments(s.take(j - 1))
    } else {
        Seq::empty()
    };
    if j < i {
        assert(front.push(s.subrange(j, i)) =~= front + seq![s.subrange(j, i)]);
    } else {
        assert(front + Seq::<Seq<char>>::empty() =~= front);
    }
}

/// Every segment of a split path is non-empty and holds no slash.
pub proof fn lemma_path_segments_clean(s: Seq<char>)
    ensures
        forall|i: int|
            0 <= i < path_segments(s).len() ==> (#[trigger] path_segments(s)[i]).len() > 0
                && !path_segments(s)[i].contains('/'),
    decreases s.len(),
{
    lemma_last_slash_bounds(s);
    let k = last_slash(s);
    let tail = s.subrange(k + 1, s.len() as int);
    if k >= 0 {
        lemma_path_segments_clean(s.subrange(0, k));
    }
    assert forall|j: int| 0 <= j < tail.len() implies tail[j] != '/' by {
        lemma_no_slash_after_last(s, k + 1 + j);
    }
    let front: Seq<Seq<char>> = if k >= 0 {
        path_segments(s.subrange(0, k))
    } else {
        Seq::empty()
    };
    assert(path_segments(s) == (if tail.len() > 0 {
        front.push(tail)
    } else {
        front
    }));
    assert(!tail.contains('/'));
    assert forall|i: int| 0 <= i < path_segments(s).len() implies (#[trigger] path_segments(
        s,
    )[i]).len() > 0 && !path_segments(s)[i].contains('/') by {
        if i < front.len() {
            assert(path_segments(s)[i] == front[i]);
        }
    }
}

proof fn lemma_no_slash_after_last(s: Seq<char>, i: int)
    requires
        last_slash(s) < i < s.len(),
    ensures
        s[i] != '/',
    decreases s.len(),
{
    lemma_last_slash_bounds(s);
    if s.last() != '/' {
        if i < s.len() - 1 {
            assert(s.drop_last()[i] == s[i]);
            lemma_no_slash_after_last(s.drop_last(), i);
        }
    }
}

/// Splits `s` at slashes, dropping the empty pieces (see [`path_segments`]).
pub fn split_path(s: &[char]) -> (r: Vec<String>)
    ensures
        views_of(r@) == path_segments(s@),
{
    let n = s.len();
    let mut out: Vec<String> = Vec::new();
    let mut j: usize = 0;
    let mut i: usize = 0;
    while i < n
        invariant
            n == s@.len(),
            0 <= j <= i <= n,
            j > 0 ==> s@[j - 1] == '/',
            forall|k: int| j <= k < i ==> s@[k] != '/',
            views_of(out@) == (if j > 0 {
                path_segments(s@.take(j - 1))
            } else {
                Seq::empty()
            }),
        decreases n - i,
    {
        if s[i] == '/' {
            proof {
                lemma_segments_of_prefix(s@, j as int, i as int);
            }
            if j < i {
                let seg = crate::text::string_of_range(s, j, i);
                let ghost before = out@;
                out.push(seg);
                assert(views_of(out@) =~= views_of(before) + seq![s@.subrange(j as int, i as int)]);
            } else {
                assert(views_of(out@) =~= views_of(out@) + Seq::<Seq<char>>::empty());
            }
            i = i + 1;
            j = i;
        } else {
            i = i + 1;
        }
    }
    proof {
        lemma_segments_of_prefix(s@, j as int, n as int);
        assert(s@.take(n as int) =~= s@);
    }
    if j < n {
        let seg = crate::text::string_of_range(s, j, n);
        let ghost before = out@;
        out.push(seg);
        assert(views_of(out@) =~= views_of(before) + seq![s@.subrange(j as int, n as int)]);
    } else {
        assert(views_of(out@) =~= views_of(out@) + Seq::<Seq<char>>::empty());
    }
    out
}

/// Parses a Redfish root path such as `redfish/v1` or `/redfish/v1/` into its segments.
pub fn parse_root_path(path: &str) -> (r: Result<Vec<String>, Error>)
    ensures
        match r {
            Ok(v) => root_path_spec(path@) == Ok::<Seq<Seq<char>>, Seq<char>>(views_of(v@)),
            Err(e) => root_path_spec(path@) is Err && e@ == plain_error(
                ErrorKind::InvalidConfig,
                root_path_spec(path@)->Err_0,
            ),
        },
{
    let chars = chars_of(path);
    let t1 = trim_chars(chars.as_slice());
    let t = trim_char(t1.as_slice(), '/');
    if t.len() == 0 {
        return Err(Error::invalid_config("redfish_root_path cannot be empty".to_owned()));
    }
    Ok(split_path(t.as_slice()))
}

// ---------------------------------------------------------------------------------------
// Request headers
// ---------------------------------------------------------------------------------------

/// The `Accept` header's name.
pub const ACCEPT: &'static str = "accept";

/// The `Content-Type` header's name.
pub const CONTENT_TYPE: &'static str = "content-type";

/// The media type of JSON.
pub const APPLICATION_JSON: &'static str = "application/json";

/// Headers with `Accept: application/json` added where no `Accept` is set.
pub open spec fn with_accept(m: Map<Seq<u8>, Seq<Seq<u8>>>) -> Map<Seq<u8>, Seq<Seq<u8>>> {
    let k = encode_utf8(ACCEPT@);
    if m.contains_key(k) {
        m
    } else {
        m.insert(k, seq![encode_utf8(APPLICATION_JSON@)])
    }
}

/// Headers with `Content-Type: application/json` set where the request has a JSON body.
pub open spec fn with_content_type(m: Map<Seq<u8>, Seq<Seq<u8>>>, json_body: bool) -> Map<
    Seq<u8>,
    Seq<Seq<u8>>,
> {
    if json_body {
        m.insert(encode_utf8(CONTENT_TYPE@), seq![encode_utf8(APPLICATION_JSON@)])
    } else {
        m
    }
}

/// The headers of a request: the defaults, `Accept` where missing, `Content-Type` for a
/// JSON body, then the authentication header.
pub open spec fn request_headers_spec(
    defaults: Map<Seq<u8>, Seq<Seq<u8>>>,
    json_body: bool,
    auth: AuthView,
) -> Map<Seq<u8>, Seq<Seq<u8>>> {
    with_auth_header(with_content_type(with_accept(defaults), json_body), auth)
}

proof fn lemma_fixed_headers()
    ensures
        valid_header_name(encode_utf8(ACCEPT@)),
        header_key(encode_utf8(ACCEPT@)) == encode_utf8(ACCEPT@),
        valid_header_name(encode_utf8(CONTENT_TYPE@)),
        header_key(encode_utf8(CONTENT_TYPE@)) == encode_utf8(CONTENT_TYPE@),
        valid_header_value(encode_utf8(APPLICATION_JSON@)),
{
    reveal_strlit("accept");
    reveal_strlit("content-type");
    reveal_strlit("application/json");
    crate::headers::lemma_plain_name_bytes(ACCEPT@);
    crate::headers::lemma_plain_name_bytes(CONTENT_TYPE@);
    crate::headers::lemma_printable_value_bytes(APPLICATION_JSON@);
}

/// The error for a header map that can hold no more names.
fn header_map_full() -> (r: Error)
    ensures
        r@ == plain_error(ErrorKind::InvalidConfig, header_map_full_message()),
{
    Error::invalid_config("Too many headers: the header map is full".to_owned())
}

/// A configured `Accept` is kept; where there is none, `application/json` is what a
/// read of `Accept` gives back.
pub proof fn lemma_accept_default(m: Map<Seq<u8>, Seq<Seq<u8>>>)
    ensures
        m.contains_key(encode_utf8(ACCEPT@)) ==> with_accept(m) == m,
        !m.contains_key(encode_utf8(ACCEPT@)) ==> crate::headers::first_value(
            with_accept(m),
            encode_utf8(ACCEPT@),
        ) == Some(encode_utf8(APPLICATION_JSON@)),
{
}

/// The errors that building request headers can give: the map is full (it then has no
/// room for the three headers added), or the authentication's value is unusable.
pub open spec fn headers_failure(
    e: ErrorView,
    defaults: Map<Seq<u8>, Seq<Seq<u8>>>,
    a: AuthView,
) -> bool {
    ||| (e == plain_error(ErrorKind::InvalidConfig, header_map_full_message()) && !room_for(
        defaults,
        3,
    ))
    ||| (e == plain_error(ErrorKind::InvalidConfig, auth_error_message(a)) && auth_value_invalid(a))
}

/// When building request headers must succeed: the defaults leave room for the three
/// headers added and the authentication's value is usable.
pub open spec fn headers_owed(defaults: Map<Seq<u8>, Seq<Seq<u8>>>, a: AuthView) -> bool {
    room_for(defaults, 3) && !auth_value_invalid(a)
}

/// A client whose default headers were never set has room for the headers each request
/// adds.
pub proof fn lemma_fresh_defaults_have_room()
    ensures
        room_for(Map::<Seq<u8>, Seq<Seq<u8>>>::empty(), 3),
{
    assert(Map::<Seq<u8>, Seq<Seq<u8>>>::empty().dom() =~= Set::<Seq<u8>>::empty());
}

/// Builds the headers of a request from the defaults (see [`request_headers_spec`]).
/// Fails with the authentication's configuration error where its header value is
/// unusable, or where the map is full.
pub fn build_request_headers(defaults: &HeaderMap, json_body: bool, auth: &Auth) -> (r: Result<
    HeaderMap,
    Error,
>)
    ensures
        r matches Ok(h) ==> header_entries(h) == request_headers_spec(
            header_entries(*defaults),
            json_body,
            auth@,
        ),
        r matches Err(e) ==> headers_failure(e@, header_entries(*defaults), auth@),
        auth_value_invalid(auth@) ==> r is Err,
        headers_owed(header_entries(*defaults), auth@) ==> r is Ok,
{
    proof {
        lemma_fixed_headers();
    }
    let ghost d = header_entries(*defaults);
    let mut headers = header_map_clone(defaults);
    if !header_insert_if_absent(&mut headers, ACCEPT.as_bytes(), APPLICATION_JSON.as_bytes()) {
        return Err(header_map_full());
    }
    assert(header_entries(headers) == with_accept(d));
    proof {
        if room_for(d, 3) {
            if !d.contains_key(encode_utf8(ACCEPT@)) {
                lemma_room_after_insert(d, encode_utf8(ACCEPT@), seq![encode_utf8(APPLICATION_JSON@)], 2);
            }
            assert(room_for(with_accept(d), 2));
        }
    }
    if json_body {
        if !header_insert(&mut headers, CONTENT_TYPE.as_bytes(), APPLICATION_JSON.as_bytes()) {
            return Err(header_map_full());
        }
    }
    assert(header_entries(headers) == with_content_type(with_accept(d), json_body));
    proof {
        if room_for(d, 3) {
            if json_body {
                lemma_room_after_insert(
                    with_accept(d),
                    encode_utf8(CONTENT_TYPE@),
                    seq![encode_utf8(APPLICATION_JSON@)],
                    1,
                );
            }
            assert(room_for(header_entries(headers), 1));
        }
    }
    match auth.apply_headers(&mut headers) {
        Ok(()) => Ok(headers),
        Err(e) => Err(e),
    }
}

// ---------------------------------------------------------------------------------------
// The client base
// ---------------------------------------------------------------------------------------

/// The configuration that every request of a client shares.
#[derive(Debug)]
pub struct ClientBase {
    base_url: HttpUrl,
    redfish_root: Vec<String>,
    auth: Auth,
    default_headers: HeaderMap,
    body_snippet_limit: usize,
}

/// The abstract content of a [`ClientBase`].
pub ghost struct ClientBaseView {
    pub base_url: UrlView,
    pub redfish_root: Seq<Seq<char>>,
    pub auth: AuthView,
    pub default_headers: Map<Seq<u8>, Seq<Seq<u8>>>,
    pub body_snippet_limit: usize,
}

impl View for ClientBase {
    type V = ClientBaseView;

    closed spec fn view(&self) -> ClientBaseView {
        ClientBaseView {
            base_url: self.base_url@,
            redfish_root: views_of(self.redfish_root@),
            auth: self.auth@,
            default_headers: header_entries(self.default_headers),
            body_snippet_limit: self.body_snippet_limit,
        }
    }
}

impl ClientBase {
    /// The URL of the root path followed by `extra_segments`, under the base URL.
    pub fn redfish_url(&self, extra_segments: &[&str]) -> (r: Result<HttpUrl, Error>)
        ensures
            match join_segments_spec(self@.base_url, self@.redfish_root + str_views(extra_segments@)) {
                Ok(u) => r matches Ok(x) && x@ == u,
                Err(m) => r matches Err(e) && e@ == plain_error(ErrorKind::InvalidConfig, m),
            },
    {
        let mut segments: Vec<&str> = Vec::new();
        let mut i: usize = 0;
        while i < self.redfish_root.len()
            invariant
                i <= self.redfish_root@.len(),
                str_views(segments@) == views_of(self.redfish_root@).take(i as int),
            decreases self.redfish_root.len() - i,
        {
            let seg = self.redfish_root[i].as_str();
            let ghost before = segments@;
            segments.push(seg);
            assert(segments@ == before.push(seg));
            assert(views_of(self.redfish_root@)[i as int] == seg@);
            assert(str_views(before.push(seg)) =~= str_views(before).push(seg@));
            assert(views_of(self.redfish_root@).take(i + 1) =~= views_of(self.redfish_root@).take(
                i as int,
            ).push(seg@));
            i = i + 1;
        }
        let mut k: usize = 0;
        while k < extra_segments.len()
            invariant
                i == self.redfish_root@.len(),
                k <= extra_segments@.len(),
                str_views(segments@) == views_of(self.redfish_root@) + str_views(
                    extra_segments@.take(k as int),
                ),
            decreases extra_segments.len() - k,
        {
            let ghost before = segments@;
            segments.push(extra_segments[k]);
            assert(segments@ == before.push(extra_segments@[k as int]));
            assert(str_views(before.push(extra_segments@[k as int])) =~= str_views(before).push(
                extra_segments@[k as int]@,
            ));
            assert(str_views(extra_segments@.take(k + 1)) =~= str_views(
                extra_segments@.take(k as int),
            ).push(extra_segments@[k as int]@));
            assert(str_views(segments@) =~= views_of(self.redfish_root@) + str_views(
                extra_segments@.take(k + 1),
            ));
            k = k + 1;
        }
        assert(extra_segments@.take(k as int) =~= extra_segments@);
        join_segments(&self.base_url, segments.as_slice())
    }

    /// Resolves an absolute URI, or one relative to the base URL.
    pub fn resolve_uri(&self, uri: &str) -> (r: Result<HttpUrl, Error>)
        ensures
            match resolve_spec(self@.base_url, uri@) {
                Ok(u) => r matches Ok(x) && x@ == u,
                Err(m) => r matches Err(e) && e@ == plain_error(ErrorKind::InvalidConfig, m),
            },
    {
        resolve_uri(&self.base_url, uri)
    }

    /// The headers of a request (see [`build_request_headers`]).
    pub fn build_headers(&self, json_body: bool) -> (r: Result<HeaderMap, Error>)
        ensures
            r matches Ok(h) ==> header_entries(h) == request_headers_spec(
                self@.default_headers,
                json_body,
                self@.auth,
            ),
            r matches Err(e) ==> headers_failure(e@, self@.default_headers, self@.auth),
            auth_value_invalid(self@.auth) ==> r is Err,
            headers_owed(self@.default_headers, self@.auth) ==> r is Ok,
    {
        build_request_headers(&self.default_headers, json_body, &self.auth)
    }

    /// How much of an error body is kept, in bytes.
    pub fn body_snippet_limit(&self) -> (r: usize)
        ensures
            r == self@.body_snippet_limit,
    {
        self.body_snippet_limit
    }

    /// The base URL.
    pub fn base_url(&self) -> (r: &HttpUrl)
        ensures
            r@ == self@.base_url,
    {
        &self.base_url
    }
}

// ---------------------------------------------------------------------------------------
// The builder
// ---------------------------------------------------------------------------------------

/// Configuration of a client, before the transport is built.
#[derive(Debug)]
pub struct ClientBuilder {
    base_url: HttpUrl,
    redfish_root: Vec<String>,
    auth: Auth,
    default_headers: HeaderMap,
    timeout_ms: u64,
    connect_timeout_ms: u64,
    retry: RetryPolicy,
    body_snippet_limit: usize,
    danger_accept_invalid_certs: bool,
    danger_accept_invalid_hostnames: bool,
    user_agent: Option<String>,
}

/// The abstract content of a [`ClientBuilder`].
pub ghost struct ClientBuilderView {
    pub base_url: UrlView,
    pub redfish_root: Seq<Seq<char>>,
    pub auth: AuthView,
    pub default_headers: Map<Seq<u8>, Seq<Seq<u8>>>,
    pub timeout_ms: u64,
    pub connect_timeout_ms: u64,
    pub retry: RetryPolicyView,
    pub body_snippet_limit: usize,
    pub danger_accept_invalid_certs: bool,
    pub danger_accept_invalid_hostnames: bool,
    pub user_agent: Option<Seq<char>>,
}

impl View for ClientBuilder {
    type V = ClientBuilderView;

    closed spec fn view(&self) -> ClientBuilderView {
        ClientBuilderView {
            base_url: self.base_url@,
            redfish_root: views_of(self.redfish_root@),
            auth: self.auth@,
            default_headers: header_entries(self.default_headers),
            timeout_ms: self.timeout_ms,
            connect_timeout_ms: self.connect_timeout_ms,
            retry: self.retry@,
            body_snippet_limit: self.body_snippet_limit,
            danger_accept_invalid_certs: self.danger_accept_invalid_certs,
            danger_accept_invalid_hostnames: self.danger_accept_invalid_hostnames,
            user_agent: crate::url::opt_view(self.user_agent),
        }
    }
}

/// The configuration a new builder starts from, for a normalized base URL: the root
/// `redfish/v1`, no authentication, no default header, a 30 s timeout, a 10 s connect
/// timeout, the default retry policy, an 8 KiB snippet limit, certificate and host
/// checks on, and the default `User-Agent`.
pub open spec fn initial_builder(base: UrlView) -> ClientBuilderView {
    ClientBuilderView {
        base_url: base,
        redfish_root: seq!["redfish"@, "v1"@],
        auth: AuthView::Anonymous,
        default_headers: Map::empty(),
        timeout_ms: 30000,
        connect_timeout_ms: 10000,
        retry: default_retry_policy(),
        body_snippet_limit: DEFAULT_BODY_SNIPPET_LIMIT,
        danger_accept_invalid_certs: false,
        danger_accept_invalid_hostnames: false,
        user_agent: None,
    }
}

/// The message for a default header whose name `http` refuses.
pub open spec fn bad_header_name_message() -> Seq<char> {
    "Invalid default header name"@
}

/// The message for a default header whose value `http` refuses.
pub open spec fn bad_header_value_message() -> Seq<char> {
    "Invalid default header value"@
}

/// What a client is built from: the shared base and the transport's settings.
#[derive(Debug)]
pub struct ClientParts {
    pub base: ClientBase,
    pub transport: TransportSettings,
}

/// The settings of the HTTP transport.
#[derive(Debug)]
pub struct TransportSettings {
    /// Headers sent with every request: the defaults, with `Accept: application/json`
    /// where they set no `Accept`.
    pub default_headers: HeaderMap,
    pub timeout_ms: u64,
    pub connect_timeout_ms: u64,
    pub user_agent: String,
    pub danger_accept_invalid_certs: bool,
    pub danger_accept_invalid_hostnames: bool,
    pub retry: RetryPolicy,
    pub body_snippet_limit: usize,
}

impl ClientBuilder {
    /// A builder for the given base URL (see [`normalize_spec`]), with the defaults of
    /// [`initial_builder`].
    pub fn new(base_url: &str) -> (r: Result<ClientBuilder, Error>)
        ensures
            match normalize_spec(base_url@) {
                Ok(u) => r matches Ok(b) && b@ == initial_builder(u),
                Err(m) => r matches Err(e) && e@ == plain_error(ErrorKind::InvalidConfig, m),
            },
    {
        let base_url = match normalize_base_url(base_url) {
            Ok(u) => u,
            Err(e) => {
                return Err(e);
            },
        };
        let mut redfish_root: Vec<String> = Vec::new();
        redfish_root.push("redfish".to_owned());
        redfish_root.push("v1".to_owned());
        let b = ClientBuilder {
            base_url,
            redfish_root,
            auth: Auth::none(),
            default_headers: header_map_new(),
            timeout_ms: 30000,
            connect_timeout_ms: 10000,
            retry: RetryPolicy::new(),
            body_snippet_limit: DEFAULT_BODY_SNIPPET_LIMIT,
            danger_accept_invalid_certs: false,
            danger_accept_invalid_hostnames: false,
            user_agent: None,
        };
        assert(b@.redfish_root =~= seq!["redfish"@, "v1"@]);
        assert(b@.default_headers =~= Map::empty());
        Ok(b)
    }

    /// Sets the authentication.
    pub fn auth(self, auth: Auth) -> (r: ClientBuilder)
        ensures
            r@ == (ClientBuilderView { auth: auth@, ..self@ }),
    {
        ClientBuilder { auth, ..self }
    }

    /// Overrides the Redfish root path (default: `redfish/v1`); see [`root_path_spec`].
    pub fn redfish_root_path(self, path: &str) -> (r: Result<ClientBuilder, Error>)
        ensures
            match root_path_spec(path@) {
                Ok(segs) => r matches Ok(b) && b@ == (ClientBuilderView { redfish_root: segs, ..self@ }),
                Err(m) => r matches Err(e) && e@ == plain_error(ErrorKind::InvalidConfig, m),
            },
    {
        match parse_root_path(path) {
            Ok(redfish_root) => Ok(ClientBuilder { redfish_root, ..self }),
            Err(e) => Err(e),
        }
    }

    /// Adds a default header applied to all requests, replacing earlier values of that
    /// name. The value is given as bytes, as a header value holds them. A name or value that
    /// `http` refuses is a configuration error.
    pub fn default_header(self, name: &str, value: &[u8]) -> (r: Result<ClientBuilder, Error>)
        ensures
            !valid_header_name(encode_utf8(name@)) ==> (r matches Err(e) && e@ == plain_error(
                ErrorKind::InvalidConfig,
                bad_header_name_message(),
            )),
            valid_header_name(encode_utf8(name@)) && !valid_header_value(value@) ==> (r
                matches Err(e) && e@ == plain_error(ErrorKind::InvalidConfig, bad_header_value_message())),
            r matches Ok(b) ==> b@ == (ClientBuilderView {
                default_headers: self@.default_headers.insert(
                    header_key(encode_utf8(name@)),
                    seq![value@],
                ),
                ..self@
            }),
            r matches Err(e) ==> (e@ == plain_error(ErrorKind::InvalidConfig, bad_header_name_message())
                && !valid_header_name(encode_utf8(name@))) || (e@ == plain_error(
                ErrorKind::InvalidConfig,
                bad_header_value_message(),
            ) && !valid_header_value(value@)) || (e@ == plain_error(
                ErrorKind::InvalidConfig,
                header_map_full_message(),
            ) && !room_for(self@.default_headers, 1)),
            valid_header_name(encode_utf8(name@)) && valid_header_value(value@)
                && room_for(self@.default_headers, 1) ==> r is Ok,
    {
        let n = name.as_bytes();
        let v = value;
        if !crate::headers::is_valid_header_name(n) {
            return Err(Error::invalid_config("Invalid default header name".to_owned()));
        }
        if !is_valid_header_value(v) {
            return Err(Error::invalid_config("Invalid default header value".to_owned()));
        }
        let mut b = self;
        if header_insert(&mut b.default_headers, n, v) {
            Ok(b)
        } else {
            Err(header_map_full())
        }
    }

    /// Sets the request timeout, in milliseconds.
    pub fn timeout(self, timeout_ms: u64) -> (r: ClientBuilder)
        ensures
            r@ == (ClientBuilderView { timeout_ms, ..self@ }),
    {
        ClientBuilder { timeout_ms, ..self }
    }

    /// Sets the connect timeout, in milliseconds.
    pub fn connect_timeout(self, timeout_ms: u64) -> (r: ClientBuilder)
        ensures
            r@ == (ClientBuilderView { connect_timeout_ms: timeout_ms, ..self@ }),
    {
        ClientBuilder { connect_timeout_ms: timeout_ms, ..self }
    }

    /// Configures retries.
    pub fn retry_policy(self, retry: RetryPolicy) -> (r: ClientBuilder)
        ensures
            r@ == (ClientBuilderView { retry: retry@, ..self@ }),
    {
        ClientBuilder { retry, ..self }
    }

    /// Sets how much of an error body to keep for diagnostics (0 keeps none).
    pub fn body_snippet_limit(self, limit: usize) -> (r: ClientBuilder)
        ensures
            r@ == (ClientBuilderView { body_snippet_limit: limit, ..self@ }),
    {
        ClientBuilder { body_snippet_limit: limit, ..self }
    }

    /// Overrides the `User-Agent` header.
    pub fn user_agent(self, user_agent: &str) -> (r: ClientBuilder)
        ensures
            r@ == (ClientBuilderView { user_agent: Some(user_agent@), ..self@ }),
    {
        ClientBuilder { user_agent: Some(user_agent.to_owned()), ..self }
    }

    /// Allows invalid TLS certificates (not recommended).
    pub fn danger_accept_invalid_certs(self, yes: bool) -> (r: ClientBuilder)
        ensures
            r@ == (ClientBuilderView { danger_accept_invalid_certs: yes, ..self@ }),
    {
        ClientBuilder { danger_accept_invalid_certs: yes, ..self }
    }

    /// Allows invalid TLS host names (not recommended).
    pub fn danger_accept_invalid_hostnames(self, yes: bool) -> (r: ClientBuilder)
        ensures
            r@ == (ClientBuilderView { danger_accept_invalid_hostnames: yes, ..self@ }),
    {
        ClientBuilder { danger_accept_invalid_hostnames: yes, ..self }
    }

    /// Splits the configuration into the client's base and the transport's settings.
    /// Fails only where the default headers leave no room for `Accept`.
    pub fn build(self) -> (r: Result<ClientParts, Error>)
        ensures
            match r {
                Ok(p) => {
                    &&& p.base@ == (ClientBaseView {
                        base_url: self@.base_url,
                        redfish_root: self@.redfish_root,
                        auth: self@.auth,
                        default_headers: self@.default_headers,
                        body_snippet_limit: self@.body_snippet_limit,
                    })
                    &&& header_entries(p.transport.default_headers) == with_accept(
                        self@.default_headers,
                    )
                    &&& p.transport.timeout_ms == self@.timeout_ms
                    &&& p.transport.connect_timeout_ms == self@.connect_timeout_ms
                    &&& p.transport.user_agent@ == match self@.user_agent {
                        Some(ua) => ua,
                        None => DEFAULT_USER_AGENT@,
                    }
                    &&& p.transport.danger_accept_invalid_certs == self@.danger_accept_invalid_certs
                    &&& p.transport.danger_accept_invalid_hostnames
                        == self@.danger_accept_invalid_hostnames
                    &&& p.transport.retry@ == self@.retry
                    &&& p.transport.body_snippet_limit == self@.body_snippet_limit
                },
                Err(e) => e@ == plain_error(ErrorKind::InvalidConfig, header_map_full_message())
                    && !room_for(self@.default_headers, 1),
            },
            room_for(self@.default_headers, 1) ==> r is Ok,
    {
        proof {
            lemma_fixed_headers();
        }
        let mut transport_headers = header_map_clone(&self.default_headers);
        if !header_insert_if_absent(
            &mut transport_headers,
            ACCEPT.as_bytes(),
            APPLICATION_JSON.as_bytes(),
        ) {
            return Err(header_map_full());
        }
        let user_agent = match self.user_agent {
            Some(ua) => ua,
            None => DEFAULT_USER_AGENT.to_owned(),
        };
        let transport = TransportSettings {
            default_headers: transport_headers,
            timeout_ms: self.timeout_ms,
            connect_timeout_ms: self.connect_timeout_ms,
            user_agent,
            danger_accept_invalid_certs: self.danger_accept_invalid_certs,
            danger_accept_invalid_hostnames: self.danger_accept_invalid_hostnames,
            retry: self.retry,
            body_snippet_limit: self.body_snippet_limit,
        };
        let base = ClientBase {
            base_url: self.base_url,
            redfish_root: self.redfish_root,
            auth: self.auth,
            default_headers: self.default_headers,
            body_snippet_limit: self.body_snippet_limit,
        };
        Ok(ClientParts { base, transport })
    }
}

} // verus!
