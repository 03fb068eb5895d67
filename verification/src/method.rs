//! HTTP request methods, as plain values.
use vstd::prelude::*;

verus! {

/// An HTTP request method. `Extension` holds any other method token.
#[derive(Clone, Debug, PartialEq, Eq)]
pub enum Method {
    Get,
    Head,
    Post,
    Put,
    Delete,
    Connect,
    Options,
    Trace,
    Patch,
    Extension(String),
}

/// The method's name as sent on the wire.
pub open spec fn method_name(m: Method) -> Seq<char> {
    match m {
        Method::Get => "GET"@,
        Method::Head => "HEAD"@,
        Method::Post => "POST"@,
        Method::Put => "PUT"@,
        Method::Delete => "DELETE"@,
        Method::Connect => "CONNECT"@,
        Method::Options => "OPTIONS"@,
        Method::Trace => "TRACE"@,
        Method::Patch => "PATCH"@,
        Method::Extension(s) => s@,
    }
}

impl Method {
    /// The method's name as sent on the wire.
    pub fn as_str(&self) -> (r: &str)
        ensures
            r@ == method_name(*self),
    {
        match self {
            Method::Get => "GET",
            Method::Head => "HEAD",
            Method::Post => "POST",
            Method::Put => "PUT",
            Method::Delete => "DELETE",
            Method::Connect => "CONNECT",
            Method::Options => "OPTIONS",
            Method::Trace => "TRACE",
            Method::Patch => "PATCH",
            Method::Extension(s) => s.as_str(),
        }
    }

    /// A copy of this method.
    pub fn duplicate(&self) -> (r: Method)
        ensures
            r == *self,
    {
        match self {
            Method::Get => Method::Get,
            Method::Head => Method::Head,
            Method::Post => Method::Post,
            Method::Put => Method::Put,
            Method::Delete => Method::Delete,
            Method::Connect => Method::Connect,
            Method::Options => Method::Options,
            Method::Trace => Method::Trace,
            Method::Patch => Method::Patch,
            Method::Extension(s) => Method::Extension(s.clone()),
        }
    }
}

/// Methods that may be repeated without changing the result on the server.
pub open spec fn idempotent_method(m: Method) -> bool {
    m is Get || m is Head || m is Put || m is Delete || m is Options
}

/// Whether a request with this method may be retried by default.
pub fn is_idempotent(method: &Method) -> (r: bool)
    ensures
        r == idempotent_method(*method),
{
    match method {
        Method::Get | Method::Head | Method::Put | Method::Delete | Method::Options => true,
        _ => false,
    }
}

} // verus!
