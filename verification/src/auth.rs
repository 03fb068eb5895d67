//! Authentication: credentials and tokens held as `secrecy` secrets, and the request
//! headers that each kind of authentication adds.
use base64::Engine;
use secrecy::{ExposeSecret, SecretString};
use vstd::prelude::*;
use vstd::utf8::encode_utf8;

use crate::error::{plain_error, Error, ErrorKind};
use crate::headers::{
    MAX_HEADER_NAMES, header_entries, header_insert, header_key, is_valid_header_value, valid_header_name,
    valid_header_value,
};
use http::HeaderMap;

verus! {

/// A secret text, kept in a `secrecy::SecretString` so that it is wiped on drop and never
/// printed by `Debug`.
#[verifier::external_body]
#[derive(Debug)]
pub struct SecretText {
    inner: SecretString,
}

/// The text that a secret holds.
pub uninterp spec fn secret_text(s: SecretText) -> Seq<char>;

/// `SecretString::from`: boxes the text as a secret.
#[verifier::external_body]
fn secret_new(text: String) -> (r: SecretText)
    ensures
        secret_text(r) == text@,
{
    SecretText { inner: SecretString::from(text) }
}

/// `ExposeSecret::expose_secret`: the text that the secret holds.
#[verifier::external_body]
fn secret_expose(s: &SecretText) -> (r: &str)
    ensures
        r@ == secret_text(*s),
{
    s.inner.expose_secret()
}

/// `SecretString::clone`: a secret holding the same text.
#[verifier::external_body]
fn secret_clone(s: &SecretText) -> (r: SecretText)
    ensures
        secret_text(r) == secret_text(*s),
{
    SecretText { inner: s.inner.clone() }
}

/// A character of the standard base64 alphabet, or the padding `=`.
pub open spec fn is_base64_char(c: char) -> bool {
    ||| ('A' <= c && c <= 'Z')
    ||| ('a' <= c && c <= 'z')
    ||| ('0' <= c && c <= '9')
    ||| c == '+' || c == '/' || c == '='
}

/// The character of the standard base64 alphabet for a 6-bit value.
pub open spec fn base64_digit(n: int) -> char {
    if n < 26 {
        ('A' as int + n) as char
    } else if n < 52 {
        ('a' as int + (n - 26)) as char
    } else if n < 62 {
        ('0' as int + (n - 52)) as char
    } else if n == 62 {
        '+'
    } else {
        '/'
    }
}

/// The standard base64 encoding (RFC 4648, alphabet `A-Z a-z 0-9 + /`), padded with `=`:
/// each group of three bytes gives four characters, a last group of one or two bytes
/// gives two or three characters and the padding.
pub open spec fn base64_standard_spec(bytes: Seq<u8>) -> Seq<char>
    decreases bytes.len(),
{
    if bytes.len() == 0 {
        Seq::empty()
    } else if bytes.len() == 1 {
        let x = bytes[0] as int;
        seq![base64_digit(x / 4), base64_digit((x % 4) * 16), '=', '=']
    } else if bytes.len() == 2 {
        let x = bytes[0] as int;
        let y = bytes[1] as int;
        seq![base64_digit(x / 4), base64_digit((x % 4) * 16 + y / 16), base64_digit((y % 16) * 4), '=']
    } else {
        let x = bytes[0] as int;
        let y = bytes[1] as int;
        let z = bytes[2] as int;
        seq![
            base64_digit(x / 4),
            base64_digit((x % 4) * 16 + y / 16),
            base64_digit((y % 16) * 4 + z / 64),
            base64_digit(z % 64),
        ] + base64_standard_spec(bytes.skip(3))
    }
}

/// Every character of a base64 encoding is of the alphabet or `=`.
pub proof fn lemma_base64_chars(bytes: Seq<u8>)
    ensures
        forall|i: int| 0 <= i < base64_standard_spec(bytes).len() ==> is_base64_char(
            #[trigger] base64_standard_spec(bytes)[i],
        ),
    decreases bytes.len(),
{
    assert forall|n: int| 0 <= n < 64 implies is_base64_char(#[trigger] base64_digit(n)) by {}
    let e = base64_standard_spec(bytes);
    if bytes.len() >= 3 {
        lemma_base64_chars(bytes.skip(3));
        let x = bytes[0] as int;
        let y = bytes[1] as int;
        let z = bytes[2] as int;
        assert(0 <= x / 4 < 64 && 0 <= (x % 4) * 16 + y / 16 < 64 && 0 <= (y % 16) * 4 + z / 64 < 64
            && 0 <= z % 64 < 64) by (nonlinear_arith)
            requires
                0 <= x < 256,
                0 <= y < 256,
                0 <= z < 256,
        ;
        let rest = base64_standard_spec(bytes.skip(3));
        assert forall|i: int| 0 <= i < e.len() implies is_base64_char(#[trigger] e[i]) by {
            if i >= 4 {
                assert(e[i] == rest[i - 4]);
            }
        }
    } else if bytes.len() == 2 {
        let x = bytes[0] as int;
        let y = bytes[1] as int;
        assert(0 <= x / 4 < 64 && 0 <= (x % 4) * 16 + y / 16 < 64 && 0 <= (y % 16) * 4 < 64)
            by (nonlinear_arith)
            requires
                0 <= x < 256,
                0 <= y < 256,
        ;
        assert forall|i: int| 0 <= i < e.len() implies is_base64_char(#[trigger] e[i]) by {}
    } else if bytes.len() == 1 {
        let x = bytes[0] as int;
        assert(0 <= x / 4 < 64 && 0 <= (x % 4) * 16 < 64) by (nonlinear_arith)
            requires
                0 <= x < 256,
        ;
        assert forall|i: int| 0 <= i < e.len() implies is_base64_char(#[trigger] e[i]) by {}
    }
}

/// `STANDARD.encode` of `base64`: the padded standard encoding.
#[verifier::external_body]
fn base64_encode(bytes: &[u8]) -> (r: String)
    ensures
        r@ == base64_standard_spec(bytes@),
{
    base64::engine::general_purpose::STANDARD.encode(bytes)
}

/// Header that carries a Redfish session token.
pub const X_AUTH_TOKEN: &'static str = "x-auth-token";

/// Header that carries Basic and Bearer credentials.
pub const AUTHORIZATION: &'static str = "authorization";

/// Username and password.
#[derive(Debug)]
pub struct Credentials {
    username: String,
    password: SecretText,
}

/// What credentials hold, the password included.
pub ghost struct CredentialsView {
    pub username: Seq<char>,
    pub password: Seq<char>,
}

impl View for Credentials {
    type V = CredentialsView;

    closed spec fn view(&self) -> CredentialsView {
        CredentialsView { username: self.username@, password: secret_text(self.password) }
    }
}

impl Credentials {
    /// Credentials of this username and password.
    pub fn new(username: &str, password: &str) -> (r: Credentials)
        ensures
            r@.username == username@,
            r@.password == password@,
    {
        Credentials { username: username.to_owned(), password: secret_new(password.to_owned()) }
    }

    /// The username.
    pub fn username(&self) -> (r: &str)
        ensures
            r@ == self@.username,
    {
        self.username.as_str()
    }

    /// Credentials with the same username and password.
    pub fn duplicate(&self) -> (r: Credentials)
        ensures
            r@ == self@,
    {
        Credentials { username: self.username.clone(), password: secret_clone(&self.password) }
    }
}

/// A Redfish session token.
#[derive(Debug)]
pub struct SessionToken {
    token: SecretText,
}

impl View for SessionToken {
    type V = Seq<char>;

    closed spec fn view(&self) -> Seq<char> {
        secret_text(self.token)
    }
}

impl SessionToken {
    /// A session token holding this text.
    pub fn new(token: &str) -> (r: SessionToken)
        ensures
            r@ == token@,
    {
        SessionToken { token: secret_new(token.to_owned()) }
    }

    /// A token with the same text.
    pub fn duplicate(&self) -> (r: SessionToken)
        ensures
            r@ == self@,
    {
        SessionToken { token: secret_clone(&self.token) }
    }
}

/// How requests authenticate.
#[derive(Debug)]
#[non_exhaustive]
pub enum Auth {
    /// No authentication.
    Anonymous,
    /// HTTP Basic authentication.
    Basic(Credentials),
    /// HTTP Bearer authentication (`Authorization: Bearer ...`).
    Bearer(SecretText),
    /// Redfish session token authentication (`X-Auth-Token`).
    SessionToken(SessionToken),
}

/// The abstract form of an [`Auth`], secrets included.
pub ghost enum AuthView {
    Anonymous,
    Basic { username: Seq<char>, password: Seq<char> },
    Bearer(Seq<char>),
    SessionToken(Seq<char>),
}

impl View for Auth {
    type V = AuthView;

    closed spec fn view(&self) -> AuthView {
        match self {
            Auth::Anonymous => AuthView::Anonymous,
            Auth::Basic(c) => AuthView::Basic { username: c@.username, password: c@.password },
            Auth::Bearer(t) => AuthView::Bearer(secret_text(*t)),
            Auth::SessionToken(t) => AuthView::SessionToken(t@),
        }
    }
}

/// The text of a `Basic` authorization value: `Basic ` and the base64 of `user:password`.
pub open spec fn basic_value_text(username: Seq<char>, password: Seq<char>) -> Seq<char> {
    "Basic "@ + base64_standard_spec(encode_utf8(username + seq![':'] + password))
}

/// The header name and the header text that an authentication adds, if any.
pub open spec fn auth_header(a: AuthView) -> Option<(Seq<char>, Seq<char>)> {
    match a {
        AuthView::Anonymous => None,
        AuthView::Basic { username, password } => Some(
            (AUTHORIZATION@, basic_value_text(username, password)),
        ),
        AuthView::Bearer(token) => Some((AUTHORIZATION@, "Bearer "@ + token)),
        AuthView::SessionToken(token) => Some((X_AUTH_TOKEN@, token)),
    }
}

/// Whether the authentication's header value is unusable.
pub open spec fn auth_value_invalid(a: AuthView) -> bool {
    auth_header(a) matches Some(h) && !valid_header_value(encode_utf8(h.1))
}

/// The message of the configuration error that an unusable header value gives.
pub open spec fn auth_error_message(a: AuthView) -> Seq<char> {
    match a {
        AuthView::Basic { .. } => "Invalid basic auth header: failed to parse header value"@,
        AuthView::Bearer(_) => "Invalid bearer token for header: failed to parse header value"@,
        _ => "Invalid X-Auth-Token value: failed to parse header value"@,
    }
}

/// The message given where the header map can hold no more names.
pub open spec fn header_map_full_message() -> Seq<char> {
    "Too many headers: the header map is full"@
}

/// What applying an authentication makes of a header map: the header set to its one value.
pub open spec fn with_auth_header(
    m: Map<Seq<u8>, Seq<Seq<u8>>>,
    a: AuthView,
) -> Map<Seq<u8>, Seq<Seq<u8>>> {
    match auth_header(a) {
        None => m,
        Some(h) => m.insert(header_key(encode_utf8(h.0)), seq![encode_utf8(h.1)]),
    }
}

proof fn lemma_header_names()
    ensures
        valid_header_name(encode_utf8(AUTHORIZATION@)),
        valid_header_name(encode_utf8(X_AUTH_TOKEN@)),
{
    reveal_strlit("authorization");
    reveal_strlit("x-auth-token");
    crate::headers::lemma_plain_name_bytes(AUTHORIZATION@);
    crate::headers::lemma_plain_name_bytes(X_AUTH_TOKEN@);
}

/// After an authentication is applied, a read of its header gives back its value, and
/// applying it again changes nothing.
pub proof fn lemma_auth_header_read_back(m: Map<Seq<u8>, Seq<Seq<u8>>>, a: AuthView)
    ensures
        auth_header(a) matches Some(h) ==> crate::headers::first_value(
            with_auth_header(m, a),
            header_key(encode_utf8(h.0)),
        ) == Some(encode_utf8(h.1)),
        with_auth_header(with_auth_header(m, a), a) == with_auth_header(m, a),
{
    if let Some(h) = auth_header(a) {
        let k = header_key(encode_utf8(h.0));
        assert(with_auth_header(m, a)[k] == seq![encode_utf8(h.1)]);
        assert(with_auth_header(with_auth_header(m, a), a) =~= with_auth_header(m, a));
    }
}

/// The `Authorization` text for Basic credentials (RFC 7617): `Basic base64(user:password)`.
pub fn basic_auth_header_value(creds: &Credentials) -> (r: String)
    ensures
        r@ == basic_value_text(creds@.username, creds@.password),
        valid_header_value(encode_utf8(r@)),
{
    let mut user_pass = creds.username.clone();
    user_pass.append(":");
    user_pass.append(secret_expose(&creds.password));
    proof {
        reveal_strlit(":");
        assert(user_pass@ =~= creds@.username + seq![':'] + creds@.password);
    }
    let encoded = base64_encode(user_pass.as_str().as_bytes());
    let mut value = String::from_str("Basic ");
    value.append(encoded.as_str());
    proof {
        lemma_base64_chars(encode_utf8(user_pass@));
        reveal_strlit("Basic ");
        assert forall|i: int| 0 <= i < value@.len() implies ' ' <= #[trigger] value@[i]
            && value@[i] <= '~' by {
            if i >= 6 {
                assert(value@[i] == encoded@[i - 6]);
                assert(is_base64_char(encoded@[i - 6]));
            }
        }
        crate::headers::lemma_printable_value_bytes(value@);
    }
    value
}

impl Auth {
    /// No authentication.
    pub fn none() -> (r: Auth)
        ensures
            r@ == AuthView::Anonymous,
    {
        Auth::Anonymous
    }

    /// HTTP Basic authentication.
    pub fn basic(username: &str, password: &str) -> (r: Auth)
        ensures
            r@ == (AuthView::Basic { username: username@, password: password@ }),
    {
        Auth::Basic(Credentials::new(username, password))
    }

    /// HTTP Bearer authentication.
    pub fn bearer(token: &str) -> (r: Auth)
        ensures
            r@ == AuthView::Bearer(token@),
    {
        Auth::Bearer(secret_new(token.to_owned()))
    }

    /// Redfish session token authentication (`X-Auth-Token`).
    pub fn session_token(token: &str) -> (r: Auth)
        ensures
            r@ == AuthView::SessionToken(token@),
    {
        Auth::SessionToken(SessionToken::new(token))
    }

    /// An authentication with the same secrets.
    pub fn duplicate(&self) -> (r: Auth)
        ensures
            r@ == self@,
    {
        match self {
            Auth::Anonymous => Auth::Anonymous,
            Auth::Basic(c) => Auth::Basic(c.duplicate()),
            Auth::Bearer(t) => Auth::Bearer(secret_clone(t)),
            Auth::SessionToken(t) => Auth::SessionToken(t.duplicate()),
        }
    }

    /// Sets the header of this authentication on `headers`, replacing its earlier values.
    ///
    /// A value that is no valid header value is refused with a configuration error, and
    /// `headers` is then left as it was.
    pub fn apply_headers(&self, headers: &mut HeaderMap) -> (r: Result<(), Error>)
        ensures
            match r {
                Ok(()) => header_entries(*final(headers)) == with_auth_header(
                    header_entries(*old(headers)),
                    self@,
                ),
                Err(e) => header_entries(*final(headers)) == header_entries(*old(headers))
                    && (e@ == plain_error(ErrorKind::InvalidConfig, auth_error_message(self@)) || (
                e@ == plain_error(ErrorKind::InvalidConfig, header_map_full_message())
                    && header_entries(*old(headers)).dom().len() >= MAX_HEADER_NAMES)),
            },
            self@ is Anonymous ==> r is Ok,
            (auth_header(self@) matches Some(h) && valid_header_value(encode_utf8(h.1))
                && header_entries(*old(headers)).dom().len() < MAX_HEADER_NAMES) ==> r is Ok,
            (auth_header(self@) matches Some(h) && !valid_header_value(encode_utf8(h.1))) ==> (r
                matches Err(e) && e@ == plain_error(ErrorKind::InvalidConfig, auth_error_message(self@))),
            (r matches Err(e) && e@ == plain_error(ErrorKind::InvalidConfig, auth_error_message(self@)))
                ==> (auth_header(self@) matches Some(h) && !valid_header_value(encode_utf8(h.1))),
            self@ is Basic ==> (auth_header(self@) matches Some(h) && valid_header_value(
                encode_utf8(h.1),
            )),
    {
        proof {
            lemma_header_names();
        }
        let (name, value, message): (&str, String, &str) = match self {
            Auth::Anonymous => {
                return Ok(());
            },
            Auth::Basic(creds) => {
                (AUTHORIZATION, basic_auth_header_value(creds), "Invalid basic auth header: failed to parse header value")
            },
            Auth::Bearer(token) => {
                let mut v = String::from_str("Bearer ");
                v.append(secret_expose(token));
                (AUTHORIZATION, v, "Invalid bearer token for header: failed to parse header value")
            },
            Auth::SessionToken(token) => {
                let v = secret_expose(&token.token).to_owned();
                (X_AUTH_TOKEN, v, "Invalid X-Auth-Token value: failed to parse header value")
            },
        };
        assert(auth_header(self@) == Some((name@, value@)));
        assert(message@ == auth_error_message(self@));
        let bytes = value.as_str().as_bytes();
        if !is_valid_header_value(bytes) {
            return Err(Error::invalid_config(message.to_owned()));
        }
        if header_insert(headers, name.as_bytes(), bytes) {
            Ok(())
        } else {
            proof {
                reveal_strlit("Too many headers: the header map is full");
                reveal_strlit("Invalid basic auth header: failed to parse header value");
                reveal_strlit("Invalid bearer token for header: failed to parse header value");
                reveal_strlit("Invalid X-Auth-Token value: failed to parse header value");
                assert(header_map_full_message()[0] != auth_error_message(self@)[0]);
            }
            Err(Error::invalid_config("Too many headers: the header map is full".to_owned()))
        }
    }
}

} // verus!
