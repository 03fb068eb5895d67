//! The error type of the library: a coarse kind plus the context needed to act on it,
//! with no secret in it.
use vstd::prelude::*;
use crate::method::{Method, method_name};
use crate::retry::{retryable_status, Delay};
use crate::text::{decimal_text, push_decimal, push_str_chars, string_of};

verus! {

/// Coarse error category. Use [`Error::kind`] to inspect.
#[derive(Debug, Clone, Copy, PartialEq, Eq, Structural)]
#[non_exhaustive]
pub enum ErrorKind {
    /// Configuration/validation error (bad base URL, invalid header value, etc).
    InvalidConfig,
    /// HTTP transport error (I/O, TLS, DNS, etc).
    Transport,
    /// Request timed out.
    Timeout,
    /// Response body could not be parsed/decoded.
    Decode,
    /// Non-success HTTP status from the Redfish service.
    Api,
    /// Auth-related error (missing token, unauthorized, etc).
    Auth,
    /// Client-side cancellation (if supported by the runtime / transport).
    Canceled,
}

/// The request that an error is about.
#[derive(Debug)]
pub struct RequestContext {
    method: Method,
    url: String,
}

/// The abstract content of a [`RequestContext`].
pub struct RequestContextView {
    pub method: Method,
    pub url: Seq<char>,
}

impl View for RequestContext {
    type V = RequestContextView;

    closed spec fn view(&self) -> RequestContextView {
        RequestContextView { method: self.method, url: self.url@ }
    }
}

impl RequestContext {
    pub fn new(method: Method, url: String) -> (r: RequestContext)
        ensures
            r@ == (RequestContextView { method, url: url@ }),
    {
        RequestContext { method, url }
    }

    /// HTTP method used for the request.
    pub fn method(&self) -> (r: &Method)
        ensures
            *r == self@.method,
    {
        &self.method
    }

    /// Full request URL.
    pub fn url(&self) -> (r: &str)
        ensures
            r@ == self@.url,
    {
        self.url.as_str()
    }

    /// A copy of this context.
    pub fn duplicate(&self) -> (r: RequestContext)
        ensures
            r@ == self@,
    {
        RequestContext { method: self.method.duplicate(), url: self.url.clone() }
    }
}

/// Error type returned by this library.
///
/// It keeps actionable context (method, URL, status, request-id) and never holds an
/// authentication header, password or session token.
#[derive(Debug)]
pub struct Error {
    kind: ErrorKind,
    message: String,
    context: Option<RequestContext>,
    status: Option<u16>,
    request_id: Option<String>,
    retry_after: Option<Delay>,
    body_snippet: Option<String>,
    source: Option<String>,
}

/// The abstract content of an [`Error`].
pub struct ErrorView {
    pub kind: ErrorKind,
    pub message: Seq<char>,
    pub context: Option<RequestContextView>,
    pub status: Option<u16>,
    pub request_id: Option<Seq<char>>,
    pub retry_after: Option<Delay>,
    pub body_snippet: Option<Seq<char>>,
    /// The text of the lower-level error that caused this one, if any.
    pub source: Option<Seq<char>>,
}

/// The text of an optional `String`.
pub open spec fn opt_text(o: Option<String>) -> Option<Seq<char>> {
    match o {
        Some(s) => Some(s@),
        None => None,
    }
}

/// The view of an optional request context.
pub open spec fn opt_context(o: Option<RequestContext>) -> Option<RequestContextView> {
    match o {
        Some(c) => Some(c@),
        None => None,
    }
}

impl View for Error {
    type V = ErrorView;

    closed spec fn view(&self) -> ErrorView {
        ErrorView {
            kind: self.kind,
            message: self.message@,
            context: opt_context(self.context),
            status: self.status,
            request_id: opt_text(self.request_id),
            retry_after: self.retry_after,
            body_snippet: opt_text(self.body_snippet),
            source: opt_text(self.source),
        }
    }
}

/// An error of the given kind with only a message.
pub open spec fn plain_error(kind: ErrorKind, message: Seq<char>) -> ErrorView {
    ErrorView {
        kind,
        message,
        context: None,
        status: None,
        request_id: None,
        retry_after: None,
        body_snippet: None,
        source: None,
    }
}

impl Error {
    /// A configuration or validation error.
    pub fn invalid_config(message: String) -> (r: Error)
        ensures
            r@ == plain_error(ErrorKind::InvalidConfig, message@),
    {
        Error {
            kind: ErrorKind::InvalidConfig,
            message,
            context: None,
            status: None,
            request_id: None,
            retry_after: None,
            body_snippet: None,
            source: None,
        }
    }

    /// An authentication error not tied to a response.
    pub fn auth(message: String) -> (r: Error)
        ensures
            r@ == plain_error(ErrorKind::Auth, message@),
    {
        Error {
            kind: ErrorKind::Auth,
            message,
            context: None,
            status: None,
            request_id: None,
            retry_after: None,
            body_snippet: None,
            source: None,
        }
    }

    /// An authentication failure reported by the service (401 or 403).
    pub fn auth_http(
        context: RequestContext,
        status: u16,
        message: String,
        request_id: Option<String>,
        body_snippet: Option<String>,
    ) -> (r: Error)
        ensures
            r@ == (ErrorView {
                kind: ErrorKind::Auth,
                message: message@,
                context: Some(context@),
                status: Some(status),
                request_id: opt_text(request_id),
                retry_after: None,
                body_snippet: opt_text(body_snippet),
                source: None,
            }),
    {
        Error {
            kind: ErrorKind::Auth,
            message,
            context: Some(context),
            status: Some(status),
            request_id,
            retry_after: None,
            body_snippet,
            source: None,
        }
    }

    /// A transport failure (I/O, TLS, DNS, ...), with the text of its cause.
    pub fn transport(context: RequestContext, message: String, source: String) -> (r: Error)
        ensures
            r@ == (ErrorView {
                kind: ErrorKind::Transport,
                message: message@,
                context: Some(context@),
                status: None,
                request_id: None,
                retry_after: None,
                body_snippet: None,
                source: Some(source@),
            }),
    {
        Error {
            kind: ErrorKind::Transport,
            message,
            context: Some(context),
            status: None,
            request_id: None,
            retry_after: None,
            body_snippet: None,
            source: Some(source),
        }
    }

    /// A timeout, with the text of its cause if there is one.
    pub fn timeout(context: RequestContext, message: String, source: Option<String>) -> (r: Error)
        ensures
            r@ == (ErrorView {
                kind: ErrorKind::Timeout,
                message: message@,
                context: Some(context@),
                status: None,
                request_id: None,
                retry_after: None,
                body_snippet: None,
                source: opt_text(source),
            }),
    {
        Error {
            kind: ErrorKind::Timeout,
            message,
            context: Some(context),
            status: None,
            request_id: None,
            retry_after: None,
            body_snippet: None,
            source,
        }
    }

    /// A response body that could not be decoded, with the text of the decoder's error.
    pub fn decode(
        context: RequestContext,
        message: String,
        body_snippet: Option<String>,
        source: String,
    ) -> (r: Error)
        ensures
            r@ == (ErrorView {
                kind: ErrorKind::Decode,
                message: message@,
                context: Some(context@),
                status: None,
                request_id: None,
                retry_after: None,
                body_snippet: opt_text(body_snippet),
                source: Some(source@),
            }),
    {
        Error {
            kind: ErrorKind::Decode,
            message,
            context: Some(context),
            status: None,
            request_id: None,
            retry_after: None,
            body_snippet,
            source: Some(source),
        }
    }

    /// A non-success status from the service.
    pub fn api(
        context: RequestContext,
        status: u16,
        message: String,
        request_id: Option<String>,
        retry_after: Option<Delay>,
        body_snippet: Option<String>,
    ) -> (r: Error)
        ensures
            r@ == (ErrorView {
                kind: ErrorKind::Api,
                message: message@,
                context: Some(context@),
                status: Some(status),
                request_id: opt_text(request_id),
                retry_after,
                body_snippet: opt_text(body_snippet),
                source: None,
            }),
    {
        Error {
            kind: ErrorKind::Api,
            message,
            context: Some(context),
            status: Some(status),
            request_id,
            retry_after,
            body_snippet,
            source: None,
        }
    }

    /// Get the high-level error category.
    pub fn kind(&self) -> (r: ErrorKind)
        ensures
            r == self@.kind,
    {
        self.kind
    }

    /// The error's message.
    pub fn message(&self) -> (r: &str)
        ensures
            r@ == self@.message,
    {
        self.message.as_str()
    }

    /// If the error is caused by a non-success HTTP status, return that status.
    pub fn status(&self) -> (r: Option<u16>)
        ensures
            r == self@.status,
    {
        self.status
    }

    /// If present, return the request-id/correlation-id from the server response.
    pub fn request_id(&self) -> (r: Option<&str>)
        ensures
            match r {
                Some(s) => self@.request_id == Some(s@),
                None => self@.request_id is None,
            },
    {
        match &self.request_id {
            Some(s) => Some(s.as_str()),
            None => None,
        }
    }

    /// If the server returned a `Retry-After` hint, return it.
    pub fn retry_after(&self) -> (r: Option<Delay>)
        ensures
            r == self@.retry_after,
    {
        self.retry_after
    }

    /// A redacted snippet of the response body, useful for debugging.
    pub fn body_snippet(&self) -> (r: Option<&str>)
        ensures
            match r {
                Some(s) => self@.body_snippet == Some(s@),
                None => self@.body_snippet is None,
            },
    {
        match &self.body_snippet {
            Some(s) => Some(s.as_str()),
            None => None,
        }
    }

    /// Context for the request that failed.
    pub fn context(&self) -> (r: Option<&RequestContext>)
        ensures
            match r {
                Some(c) => self@.context == Some(c@),
                None => self@.context is None,
            },
    {
        match &self.context {
            Some(c) => Some(c),
            None => None,
        }
    }

    /// The text of the lower-level error that caused this one, if any.
    pub fn source_text(&self) -> (r: Option<&str>)
        ensures
            match r {
                Some(s) => self@.source == Some(s@),
                None => self@.source is None,
            },
    {
        match &self.source {
            Some(s) => Some(s.as_str()),
            None => None,
        }
    }

    /// Whether this error is typically safe to retry.
    pub fn is_retryable(&self) -> (r: bool)
        ensures
            r == retryable_error(self@),
    {
        match self.kind {
            ErrorKind::Timeout | ErrorKind::Transport => true,
            ErrorKind::Api => match self.status {
                Some(s) => s == 429 || s == 502 || s == 503 || s == 504,
                None => false,
            },
            _ => false,
        }
    }

    /// The error as one line of text: the message, then the status and the request where
    /// known, then the request-id.
    pub fn to_display_string(&self) -> (r: String)
        ensures
            r@ == display_text(self@),
    {
        let mut out: Vec<char> = Vec::new();
        push_str_chars(&mut out, self.message.as_str());
        match (&self.context, self.status) {
            (Some(ctx), Some(status)) => {
                push_str_chars(&mut out, " (status ");
                push_decimal(&mut out, status as u64);
                push_str_chars(&mut out, ", ");
                push_str_chars(&mut out, ctx.method.as_str());
                push_str_chars(&mut out, " ");
                push_str_chars(&mut out, ctx.url.as_str());
                push_str_chars(&mut out, ")");
            },
            (Some(ctx), None) => {
                push_str_chars(&mut out, " (");
                push_str_chars(&mut out, ctx.method.as_str());
                push_str_chars(&mut out, " ");
                push_str_chars(&mut out, ctx.url.as_str());
                push_str_chars(&mut out, ")");
            },
            (None, Some(status)) => {
                push_str_chars(&mut out, " (status ");
                push_decimal(&mut out, status as u64);
                push_str_chars(&mut out, ")");
            },
            (None, None) => {},
        }
        if let Some(id) = &self.request_id {
            push_str_chars(&mut out, ", request-id=");
            push_str_chars(&mut out, id.as_str());
        }
        proof {
            reveal_strlit(" (status ");
            reveal_strlit(", ");
            reveal_strlit(" ");
            reveal_strlit(")");
            reveal_strlit(" (");
            reveal_strlit(", request-id=");
        }
        assert(out@ =~= display_text(self@));
        string_of(out.as_slice())
    }
}

/// Errors that are typically safe to retry: timeouts, transport failures, and API errors
/// whose status is 429, 502, 503 or 504.
pub open spec fn retryable_error(e: ErrorView) -> bool {
    match e.kind {
        ErrorKind::Timeout | ErrorKind::Transport => true,
        ErrorKind::Api => match e.status {
            Some(s) => retryable_status(s),
            None => false,
        },
        _ => false,
    }
}

/// The one-line text of an error.
pub open spec fn display_text(e: ErrorView) -> Seq<char> {
    let head = match (e.context, e.status) {
        (Some(ctx), Some(status)) => e.message + " (status "@ + decimal_text(status as nat) + ", "@
            + method_name(ctx.method) + " "@ + ctx.url + ")"@,
        (Some(ctx), None) => e.message + " ("@ + method_name(ctx.method) + " "@ + ctx.url + ")"@,
        (None, Some(status)) => e.message + " (status "@ + decimal_text(status as nat) + ")"@,
        (None, None) => e.message,
    };
    match e.request_id {
        Some(id) => head + ", request-id="@ + id,
        None => head,
    }
}

} // verus!
