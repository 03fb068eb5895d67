//! What the library makes of raw responses: request ids, Redfish error payloads, and the
//! classification of failed responses into errors.
use http::HeaderMap;
use vstd::prelude::*;

use crate::error::{opt_text, Error, ErrorKind, ErrorView, RequestContext, RequestContextView};
use crate::headers::{
    ascii_bytes, ascii_chars, first_value, header_entries, header_get, header_value_text,
    plain_lower_name, visible_ascii,
};
use crate::json::{
    json_parse, json_parse_spec, JsonValue, JsonView,
};
use crate::method::Method;
use crate::redact::{redacted_body_snippet, snippet_source, truncate_spec};
use crate::method::{idempotent_method, is_idempotent};
use crate::retry::{
    backoff_delay, capped_backoff_ms, delay_ns, delay_ok, parse_retry_after_at, retry_after_spec,
    retryable_status, should_retry_status, time_ok, Delay, RetryPolicy, RetryPolicyView, UnixTime,
};
use crate::text::{
    chars_of, decimal_text, push_decimal, push_str_chars, string_of, trim_chars, trim_spec,
};
use crate::url::HttpUrl;

verus! {

/// A response as the transport received it, with the Redfish error payload of its body:
/// the `error` member of the body decoded as an error envelope (`{"error": {...}}`, each
/// field in one slot, other members ignored), or `None` where the body does not decode so
/// or has no `error`. The decoder that fills it stands outside the library.
#[derive(Debug)]
pub struct RawResponse {
    pub status: u16,
    pub headers: HeaderMap,
    pub body: Vec<u8>,
    pub error_payload: Option<RedfishErrorBody>,
}

// ---------------------------------------------------------------------------------------
// Request ids
// ---------------------------------------------------------------------------------------

/// The headers that may carry a request id, in the order they are tried.
pub open spec fn request_id_candidates() -> Seq<Seq<char>> {
    seq![
        "x-request-id"@,
        "x-requestid"@,
        "x-correlation-id"@,
        "x-correlationid"@,
        "request-id"@,
        "trace-id"@,
    ]
}

/// The request id found under the first of `names` whose first value is visible ASCII
/// and not blank once trimmed.
pub open spec fn request_id_from(
    m: Map<Seq<u8>, Seq<Seq<u8>>>,
    names: Seq<Seq<char>>,
) -> Option<Seq<char>>
    decreases names.len(),
{
    if names.len() == 0 {
        None
    } else {
        match first_value(m, ascii_bytes(names[0])) {
            Some(v) if visible_ascii(v) && trim_spec(ascii_chars(v)).len() > 0 => Some(
                trim_spec(ascii_chars(v)),
            ),
            _ => request_id_from(m, names.drop_first()),
        }
    }
}

proof fn lemma_candidates_plain()
    ensures
        forall|i: int|
            0 <= i < request_id_candidates().len() ==> plain_lower_name(
                #[trigger] request_id_candidates()[i],
            ),
{
    reveal_strlit("x-request-id");
    reveal_strlit("x-requestid");
    reveal_strlit("x-correlation-id");
    reveal_strlit("x-correlationid");
    reveal_strlit("request-id");
    reveal_strlit("trace-id");
}

/// The request id of a response: the trimmed first value of the first candidate header
/// that has a non-blank visible-ASCII value.
pub fn extract_request_id(headers: &HeaderMap) -> (r: Option<String>)
    ensures
        opt_text(r) == request_id_from(header_entries(*headers), request_id_candidates()),
{
    let names: [&str; 6] = [
        "x-request-id",
        "x-requestid",
        "x-correlation-id",
        "x-correlationid",
        "request-id",
        "trace-id",
    ];
    let ghost cands = request_id_candidates();
    proof {
        lemma_candidates_plain();
        assert(names@.map_values(|s: &str| s@) =~= cands);
    }
    let ghost m = header_entries(*headers);
    assert(cands.skip(0) =~= cands);
    let mut i: usize = 0;
    while i < 6
        invariant
            i <= 6,
            cands == request_id_candidates(),
            names@.map_values(|s: &str| s@) == cands,
            m == header_entries(*headers),
            forall|k: int| 0 <= k < cands.len() ==> plain_lower_name(#[trigger] cands[k]),
            request_id_from(m, cands) == request_id_from(m, cands.skip(i as int)),
        decreases 6 - i,
    {
        let name = names[i];
        assert(name@ == cands[i as int]);
        let ghost rest = cands.skip(i as int);
        assert(rest[0] == cands[i as int]);
        assert(rest.drop_first() =~= cands.skip(i + 1));
        if let Some(v) = header_get(headers, name) {
            if let Some(t) = header_value_text(v.as_slice()) {
                let trimmed = trim_chars(t.as_slice());
                if trimmed.len() > 0 {
                    return Some(string_of(trimmed.as_slice()));
                }
            }
        }
        i = i + 1;
    }
    assert(cands.skip(6) =~= Seq::<Seq<char>>::empty());
    None
}

// ---------------------------------------------------------------------------------------
// Redfish error payloads
// ---------------------------------------------------------------------------------------

/// One entry of `@Message.ExtendedInfo`.
#[derive(Debug)]
pub struct ExtendedInfo {
    pub message: Option<String>,
    pub message_id: Option<String>,
    pub resolution: Option<String>,
}

/// The abstract form of an [`ExtendedInfo`].
pub struct ExtendedInfoView {
    pub message: Option<Seq<char>>,
    pub message_id: Option<Seq<char>>,
    pub resolution: Option<Seq<char>>,
}

impl View for ExtendedInfo {
    type V = ExtendedInfoView;

    open spec fn view(&self) -> ExtendedInfoView {
        ExtendedInfoView {
            message: opt_text(self.message),
            message_id: opt_text(self.message_id),
            resolution: opt_text(self.resolution),
        }
    }
}

/// The `error` object of a Redfish error payload.
#[derive(Debug)]
pub struct RedfishErrorBody {
    pub code: Option<String>,
    pub message: Option<String>,
    pub extended_info: Option<Vec<ExtendedInfo>>,
}

/// The abstract form of a [`RedfishErrorBody`].
pub struct RedfishErrorBodyView {
    pub code: Option<Seq<char>>,
    pub message: Option<Seq<char>>,
    pub extended_info: Option<Seq<ExtendedInfoView>>,
}

impl View for RedfishErrorBody {
    type V = RedfishErrorBodyView;

    open spec fn view(&self) -> RedfishErrorBodyView {
        RedfishErrorBodyView {
            code: opt_text(self.code),
            message: opt_text(self.message),
            extended_info: match self.extended_info {
                Some(v) => Some(v@.map_values(|i: ExtendedInfo| i@)),
                None => None,
            },
        }
    }
}

/// The parts of an error message: the code (where not blank), the trimmed message, and
/// from the first extended info the message id, the message and the resolution.
pub open spec fn error_parts(b: RedfishErrorBodyView) -> Seq<Seq<char>> {
    let p0: Seq<Seq<char>> = match b.code {
        Some(c) if trim_spec(c).len() > 0 => seq![c],
        _ => seq![],
    };
    let p1: Seq<Seq<char>> = match b.message {
        Some(m) if trim_spec(m).len() > 0 => p0.push(trim_spec(m)),
        _ => p0,
    };
    match b.extended_info {
        Some(infos) if infos.len() > 0 => {
            let info = infos[0];
            let p2: Seq<Seq<char>> = match info.message_id {
                Some(id) if trim_spec(id).len() > 0 => p1.push("message-id="@ + trim_spec(id)),
                _ => p1,
            };
            let p3: Seq<Seq<char>> = match info.message {
                Some(m) if trim_spec(m).len() > 0 => p2.push(trim_spec(m)),
                _ => p2,
            };
            match info.resolution {
                Some(r) if trim_spec(r).len() > 0 => p3.push("resolution="@ + trim_spec(r)),
                _ => p3,
            }
        },
        _ => p1,
    }
}

/// The parts joined with `": "`.
pub open spec fn join_parts(parts: Seq<Seq<char>>) -> Seq<char>
    decreases parts.len(),
{
    if parts.len() == 0 {
        Seq::empty()
    } else if parts.len() == 1 {
        parts[0]
    } else {
        join_parts(parts.drop_last()) + ": "@ + parts.last()
    }
}

/// The message of an error payload, where it has any part.
pub open spec fn error_message_spec(b: RedfishErrorBodyView) -> Option<Seq<char>> {
    if error_parts(b).len() == 0 {
        None
    } else {
        Some(join_parts(error_parts(b)))
    }
}

/// The view of an optional error payload.
pub open spec fn payload_view(p: Option<RedfishErrorBody>) -> Option<RedfishErrorBodyView> {
    match p {
        Some(b) => Some(b@),
        None => None,
    }
}

/// The message of an optional error payload: none without one.
pub open spec fn payload_message_spec(p: Option<RedfishErrorBodyView>) -> Option<Seq<char>> {
    match p {
        Some(b) => error_message_spec(b),
        None => None,
    }
}

/// The views of a list of character vectors.
pub open spec fn parts_view(parts: Seq<Vec<char>>) -> Seq<Seq<char>> {
    parts.map_values(|p: Vec<char>| p@)
}

/// The parts joined with `": "` (see [`join_parts`]).
pub fn join_with_colons(parts: &Vec<Vec<char>>) -> (r: Vec<char>)
    ensures
        r@ == join_parts(parts_view(parts@)),
{
    let ghost pv = parts_view(parts@);
    let mut out: Vec<char> = Vec::new();
    let mut i: usize = 0;
    while i < parts.len()
        invariant
            i <= parts@.len(),
            pv == parts_view(parts@),
            out@ == join_parts(pv.take(i as int)),
        decreases parts.len() - i,
    {
        let part = &parts[i];
        assert(pv.take(i + 1).drop_last() =~= pv.take(i as int));
        assert(pv.take(i + 1).last() == part@);
        if i > 0 {
            out.push(':');
            out.push(' ');
        }
        let ghost start = out@;
        let mut j: usize = 0;
        while j < part.len()
            invariant
                j <= part@.len(),
                out@ == start + part@.take(j as int),
            decreases part.len() - j,
        {
            out.push(part[j]);
            assert(part@.take(j as int).push(part@[j as int]) =~= part@.take(j + 1));
            j = j + 1;
        }
        proof {
            assert(part@.take(part@.len() as int) =~= part@);
            reveal_strlit(": ");
            if i == 0 {
                assert(out@ =~= part@);
                assert(pv.take(1) =~= seq![part@]);
            } else {
                assert(out@ =~= join_parts(pv.take(i as int)) + ": "@ + part@);
            }
        }
        i = i + 1;
    }
    assert(pv.take(parts@.len() as int) =~= pv);
    out
}

/// Pushes the trimmed text with a prefix where it is not blank.
fn push_trimmed(parts: &mut Vec<Vec<char>>, prefix: &str, text: &Option<String>)
    ensures
        parts_view(final(parts)@) == match opt_text(*text) {
            Some(t) if trim_spec(t).len() > 0 => parts_view(old(parts)@).push(prefix@ + trim_spec(t)),
            _ => parts_view(old(parts)@),
        },
{
    if let Some(t) = text {
        let trimmed = trim_chars(chars_of(t.as_str()).as_slice());
        if trimmed.len() > 0 {
            let mut part = chars_of(prefix);
            let mut k: usize = 0;
            let ghost start = part@;
            while k < trimmed.len()
                invariant
                    k <= trimmed@.len(),
                    part@ == start + trimmed@.take(k as int),
                decreases trimmed.len() - k,
            {
                part.push(trimmed[k]);
                assert(trimmed@.take(k as int).push(trimmed@[k as int]) =~= trimmed@.take(k + 1));
                k = k + 1;
            }
            assert(trimmed@.take(trimmed@.len() as int) =~= trimmed@);
            let ghost before = parts@;
            parts.push(part);
            assert(parts_view(parts@) =~= parts_view(before).push(prefix@ + trim_spec(t@)));
            return;
        }
    }
}

/// The message of an error payload (see [`error_message_spec`]).
pub fn error_message_of(b: &RedfishErrorBody) -> (r: Option<String>)
    ensures
        opt_text(r) == error_message_spec(b@),
{
    let mut parts: Vec<Vec<char>> = Vec::new();
    proof {
        reveal_strlit("");
        reveal_strlit("message-id=");
        reveal_strlit("resolution=");
    }
    if let Some(code) = &b.code {
        let c = chars_of(code.as_str());
        if trim_chars(c.as_slice()).len() > 0 {
            parts.push(c);
        }
    }
    assert(parts_view(parts@) =~= match b@.code {
        Some(c) if trim_spec(c).len() > 0 => seq![c],
        _ => Seq::<Seq<char>>::empty(),
    });
    push_trimmed(&mut parts, "", &b.message);
    assert(forall|t: Seq<char>| ""@ + t =~= t);
    if let Some(infos) = &b.extended_info {
        if infos.len() > 0 {
            let info = &infos[0];
            assert(b@.extended_info->0[0] == info@);
            push_trimmed(&mut parts, "message-id=", &info.message_id);
            push_trimmed(&mut parts, "", &info.message);
            push_trimmed(&mut parts, "resolution=", &info.resolution);
        }
    }
    assert(parts_view(parts@) =~= error_parts(b@));
    if parts.len() == 0 {
        None
    } else {
        let joined = join_with_colons(&parts);
        Some(string_of(joined.as_slice()))
    }
}

/// The message that a response's Redfish error payload carries, if any: the payload as
/// the response's body decodes into the error envelope (see [`RawResponse`]).
pub fn extract_redfish_error_message(payload: &Option<RedfishErrorBody>) -> (r: Option<String>)
    ensures
        opt_text(r) == payload_message_spec(payload_view(*payload)),
{
    match payload {
        Some(b) => error_message_of(b),
        None => None,
    }
}

// ---------------------------------------------------------------------------------------
// Failed responses
// ---------------------------------------------------------------------------------------

/// The message used where a failed response carries no Redfish error payload.
pub open spec fn fallback_message(status: u16) -> Seq<char> {
    "Redfish API returned HTTP "@ + decimal_text(status as nat)
}

/// The message of a failed response: its Redfish error payload's, else the fallback.
pub open spec fn failure_message(status: u16, payload: Option<RedfishErrorBodyView>) -> Seq<char> {
    match payload_message_spec(payload) {
        Some(m) => m,
        None => fallback_message(status),
    }
}

/// Whether `snippet` is the redacted snippet of `body` cut to `limit` bytes.
pub open spec fn is_snippet_of(snippet: Option<Seq<char>>, body: Seq<u8>, limit: usize) -> bool {
    if limit == 0 || body.len() == 0 {
        snippet is None
    } else {
        snippet is Some && vstd::utf8::encode_utf8(snippet->0) == truncate_spec(
            vstd::utf8::encode_utf8(snippet_source(body)),
            limit as int,
        )
    }
}

/// The error that a failed response becomes, given the time (in ms since the epoch) at
/// which `Retry-After` dates are read: an authentication error for 401 and 403, an API
/// error (with the `Retry-After` delay) for every other status.
pub open spec fn classified(
    e: ErrorView,
    method: Method,
    url: Seq<char>,
    status: u16,
    headers: Map<Seq<u8>, Seq<Seq<u8>>>,
    body: Seq<u8>,
    payload: Option<RedfishErrorBodyView>,
    limit: usize,
    now: UnixTime,
) -> bool {
    &&& e.kind == (if status == 401 || status == 403 {
        ErrorKind::Auth
    } else {
        ErrorKind::Api
    })
    &&& e.message == failure_message(status, payload)
    &&& e.context == Some(RequestContextView { method, url })
    &&& e.status == Some(status)
    &&& e.request_id == request_id_from(headers, request_id_candidates())
    &&& e.retry_after == (if status == 401 || status == 403 {
        None
    } else {
        retry_after_spec(headers, now)
    })
    &&& is_snippet_of(e.body_snippet, body, limit)
    &&& e.source is None
}

/// Classifies a failed response, reading `Retry-After` dates against `now`.
pub fn classify_http_error_at(
    method: &Method,
    url: &HttpUrl,
    response: &RawResponse,
    body_snippet_limit: usize,
    now: UnixTime,
) -> (r: Error)
    requires
        time_ok(now),
    ensures
        classified(
            r@,
            *method,
            url@.href,
            response.status,
            header_entries(response.headers),
            response.body@,
            payload_view(response.error_payload),
            body_snippet_limit,
            now,
        ),
{
    let ctx = RequestContext::new(method.duplicate(), url.as_str().to_owned());
    let request_id = extract_request_id(&response.headers);
    let body_snippet = redacted_body_snippet(response.body.as_slice(), body_snippet_limit);
    let message = match extract_redfish_error_message(&response.error_payload) {
        Some(m) => m,
        None => {
            let mut v: Vec<char> = Vec::new();
            push_str_chars(&mut v, "Redfish API returned HTTP ");
            push_decimal(&mut v, response.status as u64);
            string_of(v.as_slice())
        },
    };
    if response.status == 401 || response.status == 403 {
        return Error::auth_http(ctx, response.status, message, request_id, body_snippet);
    }
    let retry_after = parse_retry_after_at(&response.headers, now);
    Error::api(ctx, response.status, message, request_id, retry_after, body_snippet)
}

/// Classifies a failed response, reading `Retry-After` dates against the current time.
pub fn classify_http_error(
    method: &Method,
    url: &HttpUrl,
    response: &RawResponse,
    body_snippet_limit: usize,
) -> (r: Error)
    ensures
        exists|now: UnixTime| time_ok(now) &&
            classified(
                r@,
                *method,
                url@.href,
                response.status,
                header_entries(response.headers),
                response.body@,
            payload_view(response.error_payload),
                body_snippet_limit,
                now,
            ),
{
    let now = crate::retry::now_unix();
    classify_http_error_at(method, url, response, body_snippet_limit, now)
}

/// Whether a status is a success (2xx).
pub open spec fn success_status(status: u16) -> bool {
    200 <= status <= 299
}

/// Passes a successful response on, and turns any other into its error, reading
/// `Retry-After` dates against `now`.
pub fn finish_response_at(
    method: &Method,
    url: &HttpUrl,
    response: RawResponse,
    body_snippet_limit: usize,
    now: UnixTime,
) -> (r: Result<RawResponse, Error>)
    requires
        time_ok(now),
    ensures
        success_status(response.status) ==> r == Ok::<RawResponse, Error>(response),
        !success_status(response.status) ==> (r matches Err(e) && classified(
            e@,
            *method,
            url@.href,
            response.status,
            header_entries(response.headers),
            response.body@,
            payload_view(response.error_payload),
            body_snippet_limit,
            now,
        )),
{
    if 200 <= response.status && response.status <= 299 {
        Ok(response)
    } else {
        Err(classify_http_error_at(method, url, &response, body_snippet_limit, now))
    }
}

/// Passes a successful response on, and turns any other into its error, reading
/// `Retry-After` dates against the current time.
pub fn finish_response(method: &Method, url: &HttpUrl, response: RawResponse, body_snippet_limit: usize) -> (r:
    Result<RawResponse, Error>)
    ensures
        success_status(response.status) ==> r == Ok::<RawResponse, Error>(response),
        !success_status(response.status) ==> (r matches Err(e) && exists|now: UnixTime| time_ok(now) &&
            classified(
                e@,
                *method,
                url@.href,
                response.status,
                header_entries(response.headers),
                response.body@,
            payload_view(response.error_payload),
                body_snippet_limit,
                now,
            )),
{
    let now = crate::retry::now_unix();
    finish_response_at(method, url, response, body_snippet_limit, now)
}

// ---------------------------------------------------------------------------------------
// Transport failures and retries
// ---------------------------------------------------------------------------------------

/// How a request failed before a usable response came back, with the text of the cause.
#[derive(Debug)]
pub enum TransportFailure {
    /// The service answered with a non-success status.
    Status(RawResponse),
    /// The request or its deadline timed out.
    TimedOut(String),
    /// The HTTP client could not be configured or the request could not be built.
    Config(String),
    /// Any other I/O, TLS or protocol failure.
    Other(String),
}

/// The error that a transport failure becomes, given the time for `Retry-After` dates.
pub open spec fn transport_error_spec(
    e: ErrorView,
    method: Method,
    url: Seq<char>,
    failure: TransportFailure,
    limit: usize,
    now: UnixTime,
) -> bool {
    match failure {
        TransportFailure::Status(raw) => classified(
            e,
            method,
            url,
            raw.status,
            header_entries(raw.headers),
            raw.body@,
            payload_view(raw.error_payload),
            limit,
            now,
        ),
        TransportFailure::TimedOut(detail) => e == ErrorView {
            kind: ErrorKind::Timeout,
            message: "Request timed out"@,
            context: Some(RequestContextView { method, url }),
            status: None,
            request_id: None,
            retry_after: None,
            body_snippet: None,
            source: Some(detail@),
        },
        TransportFailure::Config(detail) => e == crate::error::plain_error(
            ErrorKind::InvalidConfig,
            "HTTP client configuration error: "@ + detail@,
        ),
        TransportFailure::Other(detail) => e == ErrorView {
            kind: ErrorKind::Transport,
            message: "Transport error"@,
            context: Some(RequestContextView { method, url }),
            status: None,
            request_id: None,
            retry_after: None,
            body_snippet: None,
            source: Some(detail@),
        },
    }
}

/// The error that a transport failure becomes, with body snippets cut to
/// `body_snippet_limit` bytes (0 keeps none), reading `Retry-After` dates against `now`.
pub fn map_transport_failure_at(
    method: &Method,
    url: &HttpUrl,
    failure: TransportFailure,
    body_snippet_limit: usize,
    now: UnixTime,
) -> (r: Error)
    requires
        time_ok(now),
    ensures
        transport_error_spec(r@, *method, url@.href, failure, body_snippet_limit, now),
{
    match failure {
        TransportFailure::Status(raw) => classify_http_error_at(
            method,
            url,
            &raw,
            body_snippet_limit,
            now,
        ),
        TransportFailure::TimedOut(detail) => {
            let ctx = RequestContext::new(method.duplicate(), url.as_str().to_owned());
            Error::timeout(ctx, "Request timed out".to_owned(), Some(detail))
        },
        TransportFailure::Config(detail) => {
            let mut m = String::from_str("HTTP client configuration error: ");
            m.append(detail.as_str());
            Error::invalid_config(m)
        },
        TransportFailure::Other(detail) => {
            let ctx = RequestContext::new(method.duplicate(), url.as_str().to_owned());
            Error::transport(ctx, "Transport error".to_owned(), detail)
        },
    }
}

/// The error that a transport failure becomes, with body snippets cut to
/// `body_snippet_limit` bytes, reading `Retry-After` dates against the current time.
pub fn map_transport_failure(
    method: &Method,
    url: &HttpUrl,
    failure: TransportFailure,
    body_snippet_limit: usize,
) -> (r: Error)
    ensures
        exists|now: UnixTime| time_ok(now) &&
            transport_error_spec(r@, *method, url@.href, failure, body_snippet_limit, now),
{
    let now = crate::retry::now_unix();
    map_transport_failure_at(method, url, failure, body_snippet_limit, now)
}

/// The retry settings handed to the HTTP transport.
#[derive(Debug)]
pub struct TransportRetry {
    /// Attempts in all, the first one included.
    pub max_attempts: usize,
    /// The smallest backoff, at least 1 ms.
    pub base_backoff_ms: u64,
    /// The largest backoff, at least the smallest.
    pub max_backoff_ms: u64,
    /// Statuses worth another attempt.
    pub retryable_statuses: Vec<u16>,
}

/// Derives the transport's retry settings from a policy: one attempt more than the
/// retries (saturating), a backoff of at least 1 ms, a cap of at least that backoff,
/// and the statuses 429, 502, 503 and 504.
pub fn transport_retry(policy: &RetryPolicy) -> (r: TransportRetry)
    ensures
        r.max_attempts == (if policy@.max_retries == usize::MAX {
            usize::MAX as int
        } else {
            policy@.max_retries + 1
        }),
        r.base_backoff_ms == (if policy@.base_delay_ms < 1 {
            1
        } else {
            policy@.base_delay_ms
        }),
        r.max_backoff_ms == (if policy@.max_delay_ms < r.base_backoff_ms {
            r.base_backoff_ms
        } else {
            policy@.max_delay_ms
        }),
        r.retryable_statuses@ == seq![429u16, 502u16, 503u16, 504u16],
{
    let base = if policy.base_delay() < 1 {
        1
    } else {
        policy.base_delay()
    };
    let max = if policy.max_delay() < base {
        base
    } else {
        policy.max_delay()
    };
    TransportRetry {
        max_attempts: policy.max_retries().saturating_add(1),
        base_backoff_ms: base,
        max_backoff_ms: max,
        retryable_statuses: vec![429u16, 502u16, 503u16, 504u16],
    }
}

/// The delay before retrying after attempt number `attempt` (counted from 1): the
/// policy's backoff for retry `attempt - 1` (saturating at 0).
pub fn backoff_for_retry(policy: &RetryPolicy, attempt: usize) -> (r: u64)
    ensures
        policy@.jitter && capped_backoff_ms(policy@, attempt - 1) > 0 ==> r < capped_backoff_ms(
            policy@,
            attempt - 1,
        ),
        !(policy@.jitter && capped_backoff_ms(policy@, attempt - 1) > 0) ==> r
            == capped_backoff_ms(policy@, attempt - 1),
{
    backoff_delay(policy, attempt.saturating_sub(1))
}

/// What an attempt came to, as the retry decision sees it.
#[derive(Debug)]
pub enum AttemptOutcome {
    /// A response with this status.
    Status(u16),
    /// The attempt timed out.
    TimedOut,
    /// The attempt failed below HTTP (connection, TLS, I/O).
    Failed,
}

/// Whether an outcome is worth another attempt.
pub open spec fn retryable_outcome(o: AttemptOutcome) -> bool {
    match o {
        AttemptOutcome::Status(s) => retryable_status(s),
        _ => true,
    }
}

/// Whether attempt number `attempt` (counted from 1) of a request may be followed by
/// another: the method is idempotent, the outcome is worth retrying, and attempts are left.
pub open spec fn may_retry(
    policy: RetryPolicyView,
    method: Method,
    attempt: int,
    outcome: AttemptOutcome,
) -> bool {
    &&& idempotent_method(method)
    &&& retryable_outcome(outcome)
    &&& attempt < policy.max_retries + 1
}

/// Retries are bounded: after attempt number `max_retries + 1` no outcome allows another.
pub proof fn lemma_attempts_bounded(
    policy: RetryPolicyView,
    method: Method,
    attempt: int,
    outcome: AttemptOutcome,
)
    requires
        attempt >= policy.max_retries + 1,
    ensures
        !may_retry(policy, method, attempt, outcome),
{
}

/// Retries are conservative: a request whose method is not idempotent is never retried,
/// and neither is a response whose status is not worth retrying.
pub proof fn lemma_conservative_retries(
    policy: RetryPolicyView,
    method: Method,
    attempt: int,
    status: u16,
)
    ensures
        !idempotent_method(method) ==> !may_retry(policy, method, attempt, AttemptOutcome::Status(status)),
        !retryable_status(status) ==> !may_retry(policy, method, attempt, AttemptOutcome::Status(status)),
{
}

/// The statuses worth another attempt are exactly 429, 502, 503 and 504, the list the
/// transport is handed: after a response, an idempotent request with attempts left is
/// retried exactly when its status is one of them, and an API error with that status is
/// retryable exactly then.
pub proof fn lemma_retryable_statuses(
    policy: RetryPolicyView,
    method: Method,
    attempt: int,
    status: u16,
    e: ErrorView,
)
    requires
        idempotent_method(method),
        attempt < policy.max_retries + 1,
    ensures
        may_retry(policy, method, attempt, AttemptOutcome::Status(status)) <==> seq![
            429u16,
            502u16,
            503u16,
            504u16,
        ].contains(status),
        e.kind == ErrorKind::Api && e.status == Some(status) ==> (crate::error::retryable_error(e)
            <==> seq![429u16, 502u16, 503u16, 504u16].contains(status)),
{
    let l = seq![429u16, 502u16, 503u16, 504u16];
    assert(l[0] == 429u16 && l[1] == 502u16 && l[2] == 503u16 && l[3] == 504u16);
    if l.contains(status) {
        let i = choose|i: int| 0 <= i < l.len() && l[i] == status;
        assert(status == 429 || status == 502 || status == 503 || status == 504);
    }
}

/// Decides, after attempt number `attempt` (counted from 1), whether to try again, and
/// after how many milliseconds.
pub fn next_retry(policy: &RetryPolicy, method: &Method, attempt: usize, outcome: &AttemptOutcome) -> (r:
    Option<u64>)
    ensures
        r is Some <==> may_retry(policy@, *method, attempt as int, *outcome),
        r matches Some(d) ==> (policy@.jitter && capped_backoff_ms(policy@, attempt - 1) > 0 ==> d
            < capped_backoff_ms(policy@, attempt - 1)),
        r matches Some(d) ==> (!(policy@.jitter && capped_backoff_ms(policy@, attempt - 1) > 0) ==> d
            == capped_backoff_ms(policy@, attempt - 1)),
{
    let retryable = match outcome {
        AttemptOutcome::Status(s) => should_retry_status(*s),
        _ => true,
    };
    let attempts_left = attempt <= policy.max_retries();
    if is_idempotent(method) && retryable && attempts_left {
        Some(backoff_for_retry(policy, attempt))
    } else {
        None
    }
}

/// Decides, after attempt number `attempt` (counted from 1) came back with `status`,
/// whether to try again and after how many milliseconds: the response's `Retry-After`
/// (read against `now`) where it gives one, else the policy's backoff.
pub fn next_retry_after_response(
    policy: &RetryPolicy,
    method: &Method,
    attempt: usize,
    status: u16,
    headers: &HeaderMap,
    now: UnixTime,
) -> (r: Option<Delay>)
    requires
        time_ok(now),
    ensures
        r is Some <==> may_retry(policy@, *method, attempt as int, AttemptOutcome::Status(status)),
        r matches Some(d) ==> (retry_after_spec(header_entries(*headers), now) matches Some(ra)
            ==> d == ra),
        r matches Some(d) ==> (retry_after_spec(header_entries(*headers), now) is None
            ==> backoff_wait(policy@, attempt as int, d)),
{
    match next_retry(policy, method, attempt, &AttemptOutcome::Status(status)) {
        Some(backoff) => match parse_retry_after_at(headers, now) {
            Some(ra) => Some(ra),
            None => Some(Delay::from_millis(backoff)),
        },
        None => None,
    }
}

/// The policy's wait before the retry that follows attempt number `attempt` (counted
/// from 1), in whole milliseconds: the capped backoff, or with jitter a random value below
/// it where it is not 0.
pub open spec fn backoff_wait(policy: RetryPolicyView, attempt: int, d: Delay) -> bool {
    &&& delay_ok(d)
    &&& delay_ns(d) % 1_000_000 == 0
    &&& if policy.jitter && capped_backoff_ms(policy, attempt - 1) > 0 {
        delay_ns(d) < capped_backoff_ms(policy, attempt - 1) * 1_000_000
    } else {
        delay_ns(d) == capped_backoff_ms(policy, attempt - 1) * 1_000_000
    }
}

/// What follows an attempt: another one after a delay, or the end of the request.
#[derive(Debug)]
pub enum AttemptStep {
    RetryAfter(Delay),
    Finished(Result<RawResponse, Error>),
}

/// What follows attempt number `attempt` (counted from 1) that got a response, with
/// `Retry-After` dates read against `now`: a success ends the request with the
/// response; a failure is retried where the policy allows it (after `Retry-After` where
/// given, else after the backoff), and otherwise ends the request with its error.
pub fn step_after_response(
    policy: &RetryPolicy,
    method: &Method,
    url: &HttpUrl,
    attempt: usize,
    response: RawResponse,
    body_snippet_limit: usize,
    now: UnixTime,
) -> (r: AttemptStep)
    requires
        time_ok(now),
    ensures
        success_status(response.status) ==> r == AttemptStep::Finished(Ok(response)),
        !success_status(response.status) && may_retry(
            policy@,
            *method,
            attempt as int,
            AttemptOutcome::Status(response.status),
        ) ==> (r matches AttemptStep::RetryAfter(d) && (retry_after_spec(
            header_entries(response.headers),
            now,
        ) matches Some(ra) ==> d == ra) && (retry_after_spec(
            header_entries(response.headers),
            now,
        ) is None ==> backoff_wait(policy@, attempt as int, d))),
        !success_status(response.status) && !may_retry(
            policy@,
            *method,
            attempt as int,
            AttemptOutcome::Status(response.status),
        ) ==> (r matches AttemptStep::Finished(Err(e)) && classified(
            e@,
            *method,
            url@.href,
            response.status,
            header_entries(response.headers),
            response.body@,
            payload_view(response.error_payload),
            body_snippet_limit,
            now,
        )),
{
    if 200 <= response.status && response.status <= 299 {
        return AttemptStep::Finished(Ok(response));
    }
    match next_retry_after_response(
        policy,
        method,
        attempt,
        response.status,
        &response.headers,
        now,
    ) {
        Some(d) => AttemptStep::RetryAfter(d),
        None => AttemptStep::Finished(finish_response_at(method, url, response, body_snippet_limit, now)),
    }
}

/// The outcome that a transport failure counts as for retries, if it may be retried at
/// all (a configuration failure may not).
pub open spec fn failure_outcome(f: TransportFailure) -> Option<AttemptOutcome> {
    match f {
        TransportFailure::Status(raw) => Some(AttemptOutcome::Status(raw.status)),
        TransportFailure::TimedOut(_) => Some(AttemptOutcome::TimedOut),
        TransportFailure::Config(_) => None,
        TransportFailure::Other(_) => Some(AttemptOutcome::Failed),
    }
}

/// What follows attempt number `attempt` (counted from 1) that failed: another attempt
/// after the backoff where the policy allows it, else the failure's error.
pub fn step_after_failure(
    policy: &RetryPolicy,
    method: &Method,
    url: &HttpUrl,
    attempt: usize,
    failure: TransportFailure,
    body_snippet_limit: usize,
    now: UnixTime,
) -> (r: AttemptStep)
    requires
        time_ok(now),
    ensures
        (failure_outcome(failure) matches Some(o) && may_retry(policy@, *method, attempt as int, o))
            ==> (r matches AttemptStep::RetryAfter(d) && backoff_wait(policy@, attempt as int, d)),
        !(failure_outcome(failure) matches Some(o) && may_retry(
            policy@,
            *method,
            attempt as int,
            o,
        )) ==> (r matches AttemptStep::Finished(Err(e)) && transport_error_spec(
            e@,
            *method,
            url@.href,
            failure,
            body_snippet_limit,
            now,
        )),
{
    let outcome = match &failure {
        TransportFailure::Status(raw) => Some(AttemptOutcome::Status(raw.status)),
        TransportFailure::TimedOut(_) => Some(AttemptOutcome::TimedOut),
        TransportFailure::Config(_) => None,
        TransportFailure::Other(_) => Some(AttemptOutcome::Failed),
    };
    if let Some(o) = outcome {
        if let Some(d) = next_retry(policy, method, attempt, &o) {
            return AttemptStep::RetryAfter(Delay::from_millis(d));
        }
    }
    AttemptStep::Finished(
        Err(map_transport_failure_at(method, url, failure, body_snippet_limit, now)),
    )
}

// ---------------------------------------------------------------------------------------
// Decoding
// ---------------------------------------------------------------------------------------

/// The error for a body that could not be decoded, with the decoder's message.
pub open spec fn decode_error_spec(
    e: ErrorView,
    method: Method,
    url: Seq<char>,
    body: Seq<u8>,
    limit: usize,
    detail: Seq<char>,
) -> bool {
    &&& e.kind == ErrorKind::Decode
    &&& e.message == "Failed to decode JSON response: "@ + detail
    &&& e.context == Some(RequestContextView { method, url })
    &&& e.status is None && e.request_id is None && e.retry_after is None
    &&& is_snippet_of(e.body_snippet, body, limit)
    &&& e.source == Some(detail)
}

/// A decode error for this body, whatever the decoder's message (kept as the source).
pub open spec fn is_decode_error_of(
    e: ErrorView,
    method: Method,
    url: Seq<char>,
    body: Seq<u8>,
    limit: usize,
) -> bool {
    e.source is Some && decode_error_spec(e, method, url, body, limit, e.source->0)
}

/// The error for a body that could not be decoded, `detail` being the decoder's message.
pub fn decode_failure(
    method: &Method,
    url: &HttpUrl,
    body: &[u8],
    body_snippet_limit: usize,
    detail: String,
) -> (r: Error)
    ensures
        decode_error_spec(r@, *method, url@.href, body@, body_snippet_limit, detail@),
{
    let ctx = RequestContext::new(method.duplicate(), url.as_str().to_owned());
    let snippet = redacted_body_snippet(body, body_snippet_limit);
    let mut msg = String::from_str("Failed to decode JSON response: ");
    msg.append(detail.as_str());
    Error::decode(ctx, msg, snippet, detail)
}

/// Decodes a response body as a JSON document: `null` for an empty body, the parsed
/// document, or a decode error carrying `serde_json`'s message.
pub fn decode_json_value(method: &Method, url: &HttpUrl, body: &[u8], body_snippet_limit: usize) -> (r:
    Result<JsonValue, Error>)
    ensures
        body@.len() == 0 ==> (r matches Ok(v) && v@ == JsonView::Null),
        body@.len() > 0 ==> match r {
            Ok(v) => json_parse_spec(body@) == Some(v@),
            Err(e) => json_parse_spec(body@) is None && is_decode_error_of(e@, *method, url@.href, body@, body_snippet_limit),
        },
{
    if body.len() == 0 {
        return Ok(JsonValue::Null);
    }
    match json_parse(body) {
        Ok(v) => Ok(v),
        Err(detail) => {
            let ghost d = detail@;
            let e = decode_failure(method, url, body, body_snippet_limit, detail);
            assert(decode_error_spec(e@, *method, url@.href, body@, body_snippet_limit, d));
            Err(e)
        },
    }
}

// ---------------------------------------------------------------------------------------
// Action responses
// ---------------------------------------------------------------------------------------

/// The text of the first value of a header, where it is visible ASCII.
pub open spec fn header_text(m: Map<Seq<u8>, Seq<Seq<u8>>>, name: Seq<char>) -> Option<Seq<char>> {
    match first_value(m, ascii_bytes(name)) {
        Some(v) if visible_ascii(v) => Some(ascii_chars(v)),
        _ => None,
    }
}

/// The text of the first value of a header, where it is visible ASCII
/// (`HeaderMap::get` then `HeaderValue::to_str`).
pub fn get_header_text(headers: &HeaderMap, name: &str) -> (r: Option<String>)
    requires
        plain_lower_name(name@),
    ensures
        opt_text(r) == header_text(header_entries(*headers), name@),
{
    match header_get(headers, name) {
        Some(v) => match header_value_text(v.as_slice()) {
            Some(t) => Some(string_of(t.as_slice())),
            None => None,
        },
        None => None,
    }
}

/// A response to an action or a create: status, `Location`, `Retry-After` and the
/// decoded body, if any.
#[derive(Debug)]
pub struct ActionResponse {
    pub status: u16,
    pub location: Option<String>,
    pub retry_after: Option<Delay>,
    pub body: Option<JsonValue>,
}

impl ActionResponse {
    /// Reads a response, `Retry-After` dates read against `now`: a body that is not
    /// empty must be JSON, else the result is a decode error.
    pub fn from_raw_json_at(
        method: &Method,
        url: &HttpUrl,
        raw: RawResponse,
        body_snippet_limit: usize,
        now: UnixTime,
    ) -> (r: Result<ActionResponse, Error>)
        requires
            time_ok(now),
        ensures
            raw.body@.len() > 0 && json_parse_spec(raw.body@) is None <==> r is Err,
            r matches Ok(a) ==> {
                &&& a.status == raw.status
                &&& opt_text(a.location) == header_text(header_entries(raw.headers), "location"@)
                &&& a.retry_after == retry_after_spec(header_entries(raw.headers), now)
                &&& (raw.body@.len() == 0 ==> a.body is None)
                &&& (raw.body@.len() > 0 ==> (a.body matches Some(b) && json_parse_spec(raw.body@)
                    == Some(b@)))
            },
            r matches Err(e) ==> is_decode_error_of(e@, *method, url@.href, raw.body@, body_snippet_limit),
    {
        proof {
            reveal_strlit("location");
        }
        let location = get_header_text(&raw.headers, "location");
        let retry_after = parse_retry_after_at(&raw.headers, now);
        let body = if raw.body.len() == 0 {
            None
        } else {
            match json_parse(raw.body.as_slice()) {
                Ok(v) => Some(v),
                Err(detail) => {
                    let ghost d = detail@;
                    let e = decode_failure(
                        method,
                        url,
                        raw.body.as_slice(),
                        body_snippet_limit,
                        detail,
                    );
                    assert(decode_error_spec(
                        e@,
                        *method,
                        url@.href,
                        raw.body@,
                        body_snippet_limit,
                        d,
                    ));
                    return Err(e);
                },
            }
        };
        Ok(ActionResponse { status: raw.status, location, retry_after, body })
    }

    /// Reads a response, `Retry-After` dates read against the current time.
    pub fn from_raw_json(
        method: &Method,
        url: &HttpUrl,
        raw: RawResponse,
        body_snippet_limit: usize,
    ) -> (r: Result<ActionResponse, Error>)
        ensures
            raw.body@.len() > 0 && json_parse_spec(raw.body@) is None <==> r is Err,
            r matches Ok(a) ==> {
                &&& a.status == raw.status
                &&& opt_text(a.location) == header_text(header_entries(raw.headers), "location"@)
                &&& exists|now: UnixTime| time_ok(now) &&
                    a.retry_after == retry_after_spec(header_entries(raw.headers), now)
                &&& (raw.body@.len() == 0 ==> a.body is None)
                &&& (raw.body@.len() > 0 ==> (a.body matches Some(b) && json_parse_spec(raw.body@)
                    == Some(b@)))
            },
            r matches Err(e) ==> is_decode_error_of(e@, *method, url@.href, raw.body@, body_snippet_limit),
    {
        let now = crate::retry::now_unix();
        Self::from_raw_json_at(method, url, raw, body_snippet_limit, now)
    }
}

} // verus!
