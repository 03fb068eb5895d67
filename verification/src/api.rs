//! The Redfish services: for each endpoint, the request a client sends (method, URL,
//! headers and JSON body), and what the library makes of the replies it needs to read.
use http::HeaderMap;
use vstd::prelude::*;
use vstd::utf8::encode_utf8;

use crate::auth::{auth_error_message, auth_header, header_map_full_message, AuthView, SessionToken};
use crate::client::{
    headers_failure, headers_owed, request_headers_spec, ClientBase, ClientBaseView,
};
use crate::auth::auth_value_invalid;
use crate::error::{plain_error, Error, ErrorKind, ErrorView, RequestContextView, opt_text};
use crate::headers::{header_entries, valid_header_value};
use crate::json::{json_print, JsonValue, JsonView};
use crate::method::Method;
use crate::odata::{query_fits, ODataQuery, ODataQueryView, pairs_spec};
use crate::transport::{get_header_text, header_text, RawResponse};
use crate::types::{
    account_create_json, account_update_json, account_update_empty, next_link_spec, reset_request,
    reset_request_json, simple_update_json, subscription_create_json, subscription_update_empty,
    subscription_update_json, AccountCreateRequest, AccountUpdateRequest, Collection,
    EventSubscriptionCreateRequest, EventSubscriptionUpdateRequest, OdataId, ResetType,
    SimpleUpdateRequest,
};
use crate::url::{join_segments_spec, opt_view, resolve_spec, str_views, url_append_pairs_spec, HttpUrl, UrlView};

verus! {

/// A request ready for the transport.
pub struct PlannedRequest {
    pub method: Method,
    pub url: HttpUrl,
    pub headers: HeaderMap,
    pub body: Option<Vec<u8>>,
}

/// The abstract content of a [`PlannedRequest`].
pub ghost struct PlannedRequestView {
    pub method: Method,
    pub url: UrlView,
    pub headers: Map<Seq<u8>, Seq<Seq<u8>>>,
    pub body: Option<Seq<u8>>,
}

impl View for PlannedRequest {
    type V = PlannedRequestView;

    open spec fn view(&self) -> PlannedRequestView {
        PlannedRequestView {
            method: self.method,
            url: self.url@,
            headers: header_entries(self.headers),
            body: match self.body {
                Some(b) => Some(b@),
                None => None,
            },
        }
    }
}

/// The URL of `segments` under a client's Redfish root, or the error message.
pub open spec fn redfish_url_spec(base: ClientBaseView, segments: Seq<Seq<char>>) -> Result<
    UrlView,
    Seq<char>,
> {
    join_segments_spec(base.base_url, base.redfish_root + segments)
}

/// What planning a request to a known URL gives: a header error where the headers cannot
/// be built (always so where the authentication's value is unusable), else the request with
/// the client's headers and the body printed with its members in order (see
/// [`json_print`]).
pub open spec fn planned_to(
    r: Result<PlannedRequest, Error>,
    base: ClientBaseView,
    method: Method,
    url: UrlView,
    body: Option<JsonView>,
) -> bool {
    &&& (auth_value_invalid(base.auth) ==> r is Err)
    &&& (headers_owed(base.default_headers, base.auth) ==> r is Ok)
    &&& match r {
        Ok(p) => p@ == PlannedRequestView {
            method,
            url,
            headers: request_headers_spec(base.default_headers, body is Some, base.auth),
            body: match body {
                Some(d) => Some(encode_utf8(json_print(d))),
                None => None,
            },
        },
        Err(e) => headers_failure(e@, base.default_headers, base.auth),
    }
}

/// What planning a request to a URL that may have failed to build gives: that URL's
/// error first.
pub open spec fn planned(
    r: Result<PlannedRequest, Error>,
    base: ClientBaseView,
    method: Method,
    url: Result<UrlView, Seq<char>>,
    body: Option<JsonView>,
) -> bool {
    match url {
        Err(m) => r matches Err(e) && e@ == plain_error(ErrorKind::InvalidConfig, m),
        Ok(u) => planned_to(r, base, method, u, body),
    }
}

/// The JSON view of an optional body.
pub open spec fn opt_json(b: Option<&JsonValue>) -> Option<JsonView> {
    match b {
        Some(v) => Some(v@),
        None => None,
    }
}

/// A copy of a byte slice.
pub fn copy_bytes(b: &[u8]) -> (r: Vec<u8>)
    ensures
        r@ == b@,
{
    let mut out: Vec<u8> = Vec::new();
    let mut i: usize = 0;
    while i < b.len()
        invariant
            i <= b@.len(),
            out@ == b@.take(i as int),
        decreases b.len() - i,
    {
        out.push(b[i]);
        assert(b@.take(i as int).push(b@[i as int]) =~= b@.take(i + 1));
        i = i + 1;
    }
    assert(b@.take(b@.len() as int) =~= b@);
    out
}

impl ClientBase {
    /// Plans a request to `url` (see [`planned_to`]).
    pub fn request_to(&self, method: Method, url: HttpUrl, body: Option<&JsonValue>) -> (r: Result<
        PlannedRequest,
        Error,
    >)
        ensures
            planned_to(r, self@, method, url@, opt_json(body)),
    {
        let bytes = match body {
            Some(doc) => {
                let text = doc.to_ordered_json_text();
                Some(copy_bytes(text.as_str().as_bytes()))
            },
            None => None,
        };
        let headers = match self.build_headers(body.is_some()) {
            Ok(h) => h,
            Err(e) => {
                return Err(e);
            },
        };
        Ok(PlannedRequest { method, url, headers, body: bytes })
    }

    /// Plans a request to `segments` under the Redfish root (see [`planned`]).
    pub fn request(&self, method: Method, segments: &[&str], body: Option<&JsonValue>) -> (r:
        Result<PlannedRequest, Error>)
        ensures
            planned(r, self@, method, redfish_url_spec(self@, str_views(segments@)), opt_json(body)),
    {
        match self.redfish_url(segments) {
            Ok(url) => self.request_to(method, url, body),
            Err(e) => Err(e),
        }
    }
}

/// Whether `r` is the plain GET of a resolved URI: the resolution error, or the planned
/// request without a body.
pub open spec fn planned_uri(r: Result<PlannedRequest, Error>, base: ClientBaseView, uri: Seq<char>) -> bool {
    match resolve_spec(base.base_url, uri) {
        Err(m) => r matches Err(e) && e@ == plain_error(ErrorKind::InvalidConfig, m),
        Ok(u) => planned_to(r, base, Method::Get, u, None),
    }
}

impl ClientBase {
    /// Plans the GET of an absolute URI, or of one relative to the base URL.
    pub fn get_uri(&self, uri: &str) -> (r: Result<PlannedRequest, Error>)
        ensures
            planned_uri(r, self@, uri@),
    {
        match self.resolve_uri(uri) {
            Ok(url) => self.request_to(Method::Get, url, None),
            Err(e) => Err(e),
        }
    }

    /// Plans an arbitrary request to an absolute or relative URI, with an optional JSON
    /// body (the escape hatch for unmodeled endpoints).
    pub fn request_json_value(&self, method: Method, uri: &str, body: Option<&JsonValue>) -> (r:
        Result<PlannedRequest, Error>)
        ensures
            match resolve_spec(self@.base_url, uri@) {
                Err(m) => r matches Err(e) && e@ == plain_error(ErrorKind::InvalidConfig, m),
                Ok(u) => planned_to(r, self@, method, u, opt_json(body)),
            },
    {
        match self.resolve_uri(uri) {
            Ok(url) => self.request_to(method, url, body),
            Err(e) => Err(e),
        }
    }
}

// ---------------------------------------------------------------------------------------
// Paginated collections
// ---------------------------------------------------------------------------------------

/// The state of a walk through a paginated collection: the members gathered so far and
/// the URI of the next page, if any.
#[derive(Debug)]
pub struct CollectionWalk<T> {
    members: Vec<T>,
    next: Option<String>,
}

/// The abstract state of a [`CollectionWalk`].
pub ghost struct CollectionWalkView<T> {
    pub members: Seq<T>,
    pub next: Option<Seq<char>>,
}

impl<T> View for CollectionWalk<T> {
    type V = CollectionWalkView<T>;

    closed spec fn view(&self) -> CollectionWalkView<T> {
        CollectionWalkView { members: self.members@, next: opt_view(self.next) }
    }
}

/// The state after reading a page: its members appended, its next link to follow.
pub open spec fn after_page<T>(
    w: CollectionWalkView<T>,
    page_members: Seq<T>,
    members_next_link: Option<Seq<char>>,
    odata_next_link: Option<Seq<char>>,
) -> CollectionWalkView<T> {
    CollectionWalkView {
        members: w.members + page_members,
        next: next_link_spec(members_next_link, odata_next_link),
    }
}

impl<T> CollectionWalk<T> {
    /// A walk that starts at the collection's URI.
    pub fn start(collection_uri: &str) -> (r: CollectionWalk<T>)
        ensures
            r@ == (CollectionWalkView::<T> { members: Seq::empty(), next: Some(collection_uri@) }),
    {
        CollectionWalk { members: Vec::new(), next: Some(collection_uri.to_owned()) }
    }

    /// The URI of the page to fetch next, or `None` once the walk is done.
    pub fn next_uri(&self) -> (r: Option<&str>)
        ensures
            crate::url::opt_str_view(r) == self@.next,
    {
        match &self.next {
            Some(u) => Some(u.as_str()),
            None => None,
        }
    }

    /// Plans the request for the next page, or `None` once the walk is done.
    pub fn next_request(&self, client: &ClientBase) -> (r: Option<Result<PlannedRequest, Error>>)
        ensures
            match self@.next {
                None => r is None,
                Some(u) => r matches Some(p) && planned_uri(p, client@, u),
            },
    {
        match &self.next {
            Some(u) => Some(client.get_uri(u.as_str())),
            None => None,
        }
    }

    /// Takes in a page: appends its members and follows its next link.
    pub fn absorb(&mut self, page: Collection<T>)
        ensures
            final(self)@ == after_page(
                old(self)@,
                page.members@,
                opt_view(page.members_next_link),
                opt_view(page.odata_next_link),
            ),
    {
        let next: Option<String> = match page.next_link() {
            Some(l) => Some(l.to_owned()),
            None => None,
        };
        let mut members = page.members;
        self.members.append(&mut members);
        self.next = next;
    }

    /// Whether the walk is done.
    pub fn is_done(&self) -> (r: bool)
        ensures
            r == (self@.next is None),
    {
        self.next.is_none()
    }

    /// The members gathered.
    pub fn into_members(self) -> (r: Vec<T>)
        ensures
            r@ == self@.members,
    {
        self.members
    }
}

/// A walk that starts at a collection's URL, or that URL's error.
pub open spec fn walk_from(r: Result<CollectionWalk<OdataId>, Error>, url: Result<UrlView, Seq<char>>) -> bool {
    match url {
        Err(m) => r matches Err(e) && e@ == plain_error(ErrorKind::InvalidConfig, m),
        Ok(u) => r matches Ok(w) && w@ == (CollectionWalkView::<OdataId> {
            members: Seq::empty(),
            next: Some(u.href),
        }),
    }
}

/// Starts a walk at a built URL (see [`walk_from`]).
fn walk_from_url(url: Result<HttpUrl, Error>) -> (r: Result<CollectionWalk<OdataId>, Error>)
    ensures
        match url {
            Err(e) => r matches Err(x) && x@ == e@,
            Ok(u) => r matches Ok(w) && w@ == (CollectionWalkView::<OdataId> {
                members: Seq::empty(),
                next: Some(u@.href),
            }),
        },
{
    match url {
        Ok(u) => Ok(CollectionWalk::start(u.as_str())),
        Err(e) => Err(e),
    }
}

/// Reading pages one after another gathers their members in order: the members after
/// two pages are the members of the first page followed by those of the second, and the
/// walk then follows the second page's link.
pub proof fn lemma_walk_concatenates<T>(
    w: CollectionWalkView<T>,
    a: Seq<T>,
    a_next: Option<Seq<char>>,
    b: Seq<T>,
    b_next: Option<Seq<char>>,
)
    ensures
        after_page(after_page(w, a, a_next, None), b, b_next, None).members == w.members + (a + b),
        after_page(after_page(w, a, a_next, None), b, b_next, None).next == b_next,
{
    assert(w.members + a + b =~= w.members + (a + b));
}

// ---------------------------------------------------------------------------------------
// Sessions
// ---------------------------------------------------------------------------------------

/// The result of a successful session login; `S` is the session resource's type.
#[derive(Debug)]
pub struct SessionLogin<S> {
    /// Session token (to be sent as `X-Auth-Token`).
    pub token: SessionToken,
    /// Session resource URI (from the `Location` header).
    pub location: String,
    /// The session resource, where the reply carried a body that decodes as one.
    pub session: Option<S>,
}

/// The message for a login reply without a token.
pub open spec fn missing_token_message() -> Seq<char> {
    "Missing X-Auth-Token in session response"@
}

/// The message for a login reply without a location.
pub open spec fn missing_location_message() -> Seq<char> {
    "Missing Location in session response"@
}

/// The JSON of a login: `UserName` and `Password`.
pub open spec fn session_create_json(username: Seq<char>, password: Seq<char>) -> JsonView {
    JsonView::Object(
        seq![("UserName"@, JsonView::String(username)), ("Password"@, JsonView::String(password))],
    )
}

/// What a login reply gives: the token from `X-Auth-Token` and the location from
/// `Location` (each must be present and visible ASCII, the token first), and, where the
/// body is not empty, the session that it decodes as (`decoded`; `None` where it does
/// not decode as one, which is no error).
pub open spec fn login_spec<S>(r: Result<SessionLogin<S>, Error>, raw: RawResponse, decoded: Option<S>) -> bool {
    let h = header_entries(raw.headers);
    match header_text(h, "x-auth-token"@) {
        None => r matches Err(e) && e@ == plain_error(ErrorKind::Auth, missing_token_message()),
        Some(t) => match header_text(h, "location"@) {
            None => r matches Err(e) && e@ == plain_error(ErrorKind::Auth, missing_location_message()),
            Some(l) => r matches Ok(s) && s.token@ == t && s.location@ == l && s.session == (if raw.body@.len()
                == 0 {
                None
            } else {
                decoded
            }),
        },
    }
}

/// Reads the reply to a login, given the session that its body decodes as (`None` where
/// it does not).
pub fn session_login_from<S>(raw: &RawResponse, decoded: Option<S>) -> (r: Result<SessionLogin<S>, Error>)
    ensures
        login_spec(r, *raw, decoded),
{
    proof {
        reveal_strlit("x-auth-token");
        reveal_strlit("location");
    }
    let token = match get_header_text(&raw.headers, "x-auth-token") {
        Some(t) => SessionToken::new(t.as_str()),
        None => {
            return Err(Error::auth("Missing X-Auth-Token in session response".to_owned()));
        },
    };
    let location = match get_header_text(&raw.headers, "location") {
        Some(l) => l,
        None => {
            return Err(Error::auth("Missing Location in session response".to_owned()));
        },
    };
    let session = if raw.body.len() == 0 {
        None
    } else {
        decoded
    };
    Ok(SessionLogin { token, location, session })
}

// ---------------------------------------------------------------------------------------
// Waiting for tasks
// ---------------------------------------------------------------------------------------

/// What to do after polling a task.
#[derive(Debug)]
pub enum TaskWait {
    /// The task is finished.
    Done,
    /// Poll again after the interval.
    PollAgain,
    /// Stop: the time is up.
    TimedOut(Error),
}

/// The message when a task outlives the wait.
pub open spec fn task_timeout_message() -> Seq<char> {
    "Task did not complete within the specified timeout"@
}

/// Decides what follows a poll of the task at `task_uri` that found it in `state`, after
/// `elapsed_ms` of a wait limited to `timeout_ms`.
pub fn task_wait_step(task_uri: &str, state: Option<&str>, elapsed_ms: u64, timeout_ms: u64) -> (r:
    TaskWait)
    ensures
        crate::types::task_state_done(crate::url::opt_str_view(state)) ==> r is Done,
        !crate::types::task_state_done(crate::url::opt_str_view(state)) && elapsed_ms >= timeout_ms
            ==> (r matches TaskWait::TimedOut(e) && e@ == ErrorView {
            kind: ErrorKind::Timeout,
            message: task_timeout_message(),
            context: Some(RequestContextView { method: Method::Get, url: task_uri@ }),
            status: None,
            request_id: None,
            retry_after: None,
            body_snippet: None,
            source: None,
        }),
        !crate::types::task_state_done(crate::url::opt_str_view(state)) && elapsed_ms < timeout_ms
            ==> r is PollAgain,
{
    if crate::types::task_is_done(state) {
        return TaskWait::Done;
    }
    if elapsed_ms >= timeout_ms {
        let ctx = crate::error::RequestContext::new(Method::Get, task_uri.to_owned());
        return TaskWait::TimedOut(
            Error::timeout(
                ctx,
                "Task did not complete within the specified timeout".to_owned(),
                None,
            ),
        );
    }
    TaskWait::PollAgain
}

// ---------------------------------------------------------------------------------------
// Services
// ---------------------------------------------------------------------------------------

/// A URL with a query applied where one is given, or the error message.
pub open spec fn query_url_spec(url: Result<UrlView, Seq<char>>, query: Option<&ODataQuery>) -> Result<
    UrlView,
    Seq<char>,
> {
    match (url, query) {
        (Err(m), _) => Err(m),
        (Ok(u), None) => Ok(u),
        (Ok(u), Some(q)) => if query_fits(u, q@) {
            Ok(url_append_pairs_spec(u, pairs_spec(q@)))
        } else {
            Err("URL is too long"@)
        },
    }
}

/// An empty JSON object, the body of actions that take no parameter.
pub fn empty_object() -> (r: JsonValue)
    ensures
        r@ == JsonView::Object(Seq::empty()),
{
    let m: Vec<(String, JsonValue)> = Vec::new();
    proof {
        crate::json::lemma_object_view(m);
        assert(crate::json::members_view(m@) =~= Seq::empty());
    }
    JsonValue::Object(m)
}

/// The JSON body of a login (see [`session_create_json`]).
pub fn session_request(username: &str, password: &str) -> (r: JsonValue)
    ensures
        r@ == session_create_json(username@, password@),
{
    let mut m: Vec<(String, JsonValue)> = Vec::new();
    m.push(("UserName".to_owned(), JsonValue::String(username.to_owned())));
    m.push(("Password".to_owned(), JsonValue::String(password.to_owned())));
    proof {
        crate::json::lemma_object_view(m);
        assert(crate::json::members_view(m@) =~= session_create_json(username@, password@)->Object_0);
    }
    JsonValue::Object(m)
}

/// Requests to the service root.
pub struct ServiceRootService<'a> {
    client: &'a ClientBase,
}

impl<'a> View for ServiceRootService<'a> {
    type V = ClientBaseView;

    closed spec fn view(&self) -> ClientBaseView {
        self.client@
    }
}

impl<'a> ServiceRootService<'a> {
    /// Requests through this client.
    pub fn new(client: &'a ClientBase) -> (r: ServiceRootService<'a>)
        ensures
            r@ == client@,
    {
        ServiceRootService { client }
    }

    /// `GET /redfish/v1`
    pub fn get(&self) -> (r: Result<PlannedRequest, Error>)
        ensures
            planned(
                r,
                self@,
                Method::Get,
                redfish_url_spec(self@, Seq::<Seq<char>>::empty()),
                None,
            ),
    {
        let segments: [&str; 0] = [];
        proof {
            assert(str_views(segments@) =~= Seq::<Seq<char>>::empty());
        }
        self.client.request(Method::Get, &segments, None)
    }
}

/// Requests to the `Systems` collection.
pub struct SystemsService<'a> {
    client: &'a ClientBase,
}

impl<'a> View for SystemsService<'a> {
    type V = ClientBaseView;

    closed spec fn view(&self) -> ClientBaseView {
        self.client@
    }
}

impl<'a> SystemsService<'a> {
    /// Requests through this client.
    pub fn new(client: &'a ClientBase) -> (r: SystemsService<'a>)
        ensures
            r@ == client@,
    {
        SystemsService { client }
    }

    /// `GET /redfish/v1/Systems`
    pub fn list(&self) -> (r: Result<PlannedRequest, Error>)
        ensures
            planned(
                r,
                self@,
                Method::Get,
                redfish_url_spec(self@, seq!["Systems"@]),
                None,
            ),
    {
        let segments: [&str; 1] = ["Systems"];
        proof {
            assert(str_views(segments@) =~= seq!["Systems"@]);
        }
        self.client.request(Method::Get, &segments, None)
    }

    /// `GET /redfish/v1/Systems/{system_id}`
    pub fn get(&self, system_id: &str) -> (r: Result<PlannedRequest, Error>)
        ensures
            planned(
                r,
                self@,
                Method::Get,
                redfish_url_spec(self@, seq!["Systems"@, system_id@]),
                None,
            ),
    {
        let segments: [&str; 2] = ["Systems", system_id];
        proof {
            assert(str_views(segments@) =~= seq!["Systems"@, system_id@]);
        }
        self.client.request(Method::Get, &segments, None)
    }

    /// `POST /redfish/v1/Systems/{system_id}/Actions/ComputerSystem.Reset`
    pub fn reset(
        &self,
        system_id: &str,
        reset_type: ResetType,
    ) -> (r: Result<PlannedRequest, Error>)
        ensures
            planned(
                r,
                self@,
                Method::Post,
                redfish_url_spec(self@, seq!["Systems"@, system_id@, "Actions"@, "ComputerSystem.Reset"@]),
                Some(reset_request_json(reset_type)),
            ),
    {
        let segments: [&str; 4] = ["Systems", system_id, "Actions", "ComputerSystem.Reset"];
        proof {
            assert(str_views(segments@) =~= seq!["Systems"@, system_id@, "Actions"@, "ComputerSystem.Reset"@]);
        }
        let doc = reset_request(reset_type);
        self.client.request(Method::Post, &segments, Some(&doc))
    }
}

/// Requests to one member of `Systems`.
pub struct SystemResourceService<'a> {
    client: &'a ClientBase,
    system_id: String,
}

impl<'a> View for SystemResourceService<'a> {
    type V = ClientBaseView;

    closed spec fn view(&self) -> ClientBaseView {
        self.client@
    }
}

impl<'a> SystemResourceService<'a> {
    /// The id of the member.
    pub closed spec fn resource_id(&self) -> Seq<char> {
        self.system_id@
    }

    /// Requests to the member `system_id` through this client.
    pub fn new(client: &'a ClientBase, system_id: &str) -> (r: SystemResourceService<'a>)
        ensures
            r@ == client@,
            r.resource_id() == system_id@,
    {
        SystemResourceService { client, system_id: system_id.to_owned() }
    }

    /// The id of the member.
    pub fn id(&self) -> (r: &str)
        ensures
            r@ == self.resource_id(),
    {
        self.system_id.as_str()
    }

    /// `GET /redfish/v1/Systems/{id}`
    pub fn get(&self) -> (r: Result<PlannedRequest, Error>)
        ensures
            planned(
                r,
                self@,
                Method::Get,
                redfish_url_spec(self@, seq!["Systems"@, self.resource_id()]),
                None,
            ),
    {
        let segments: [&str; 2] = ["Systems", self.system_id.as_str()];
        proof {
            assert(str_views(segments@) =~= seq!["Systems"@, self.resource_id()]);
        }
        self.client.request(Method::Get, &segments, None)
    }

    /// `PATCH /redfish/v1/Systems/{id}`
    pub fn patch(&self, request: &JsonValue) -> (r: Result<PlannedRequest, Error>)
        ensures
            planned(
                r,
                self@,
                Method::Patch,
                redfish_url_spec(self@, seq!["Systems"@, self.resource_id()]),
                Some(request@),
            ),
    {
        let segments: [&str; 2] = ["Systems", self.system_id.as_str()];
        proof {
            assert(str_views(segments@) =~= seq!["Systems"@, self.resource_id()]);
        }
        self.client.request(Method::Patch, &segments, Some(request))
    }

    /// `GET /redfish/v1/Systems/{id}/Bios`
    pub fn get_bios(&self) -> (r: Result<PlannedRequest, Error>)
        ensures
            planned(
                r,
                self@,
                Method::Get,
                redfish_url_spec(self@, seq!["Systems"@, self.resource_id(), "Bios"@]),
                None,
            ),
    {
        let segments: [&str; 3] = ["Systems", self.system_id.as_str(), "Bios"];
        proof {
            assert(str_views(segments@) =~= seq!["Systems"@, self.resource_id(), "Bios"@]);
        }
        self.client.request(Method::Get, &segments, None)
    }

    /// `GET /redfish/v1/Systems/{id}/Bios/Settings`
    pub fn get_bios_settings(&self) -> (r: Result<PlannedRequest, Error>)
        ensures
            planned(
                r,
                self@,
                Method::Get,
                redfish_url_spec(self@, seq!["Systems"@, self.resource_id(), "Bios"@, "Settings"@]),
                None,
            ),
    {
        let segments: [&str; 4] = ["Systems", self.system_id.as_str(), "Bios", "Settings"];
        proof {
            assert(str_views(segments@) =~= seq!["Systems"@, self.resource_id(), "Bios"@, "Settings"@]);
        }
        self.client.request(Method::Get, &segments, None)
    }

    /// `PATCH /redfish/v1/Systems/{id}/Bios/Settings`
    pub fn patch_bios_settings(&self, request: &JsonValue) -> (r: Result<PlannedRequest, Error>)
        ensures
            planned(
                r,
                self@,
                Method::Patch,
                redfish_url_spec(self@, seq!["Systems"@, self.resource_id(), "Bios"@, "Settings"@]),
                Some(request@),
            ),
    {
        let segments: [&str; 4] = ["Systems", self.system_id.as_str(), "Bios", "Settings"];
        proof {
            assert(str_views(segments@) =~= seq!["Systems"@, self.resource_id(), "Bios"@, "Settings"@]);
        }
        self.client.request(Method::Patch, &segments, Some(request))
    }

    /// `GET /redfish/v1/Systems/{id}/EthernetInterfaces`
    pub fn list_ethernet_interfaces(&self) -> (r: Result<PlannedRequest, Error>)
        ensures
            planned(
                r,
                self@,
                Method::Get,
                redfish_url_spec(self@, seq!["Systems"@, self.resource_id(), "EthernetInterfaces"@]),
                None,
            ),
    {
        let segments: [&str; 3] = ["Systems", self.system_id.as_str(), "EthernetInterfaces"];
        proof {
            assert(str_views(segments@) =~= seq!["Systems"@, self.resource_id(), "EthernetInterfaces"@]);
        }
        self.client.request(Method::Get, &segments, None)
    }

    /// `GET /redfish/v1/Systems/{id}/EthernetInterfaces/{eth_id}`
    pub fn get_ethernet_interface(&self, eth_id: &str) -> (r: Result<PlannedRequest, Error>)
        ensures
            planned(
                r,
                self@,
                Method::Get,
                redfish_url_spec(self@, seq!["Systems"@, self.resource_id(), "EthernetInterfaces"@, eth_id@]),
                None,
            ),
    {
        let segments: [&str; 4] = ["Systems", self.system_id.as_str(), "EthernetInterfaces", eth_id];
        proof {
            assert(str_views(segments@) =~= seq!["Systems"@, self.resource_id(), "EthernetInterfaces"@, eth_id@]);
        }
        self.client.request(Method::Get, &segments, None)
    }

    /// `PATCH /redfish/v1/Systems/{id}/EthernetInterfaces/{eth_id}`
    pub fn patch_ethernet_interface(
        &self,
        eth_id: &str,
        request: &JsonValue,
    ) -> (r: Result<PlannedRequest, Error>)
        ensures
            planned(
                r,
                self@,
                Method::Patch,
                redfish_url_spec(self@, seq!["Systems"@, self.resource_id(), "EthernetInterfaces"@, eth_id@]),
                Some(request@),
            ),
    {
        let segments: [&str; 4] = ["Systems", self.system_id.as_str(), "EthernetInterfaces", eth_id];
        proof {
            assert(str_views(segments@) =~= seq!["Systems"@, self.resource_id(), "EthernetInterfaces"@, eth_id@]);
        }
        self.client.request(Method::Patch, &segments, Some(request))
    }

    /// `GET /redfish/v1/Systems/{id}/Storage`
    pub fn list_storage(&self) -> (r: Result<PlannedRequest, Error>)
        ensures
            planned(
                r,
                self@,
                Method::Get,
                redfish_url_spec(self@, seq!["Systems"@, self.resource_id(), "Storage"@]),
                None,
            ),
    {
        let segments: [&str; 3] = ["Systems", self.system_id.as_str(), "Storage"];
        proof {
            assert(str_views(segments@) =~= seq!["Systems"@, self.resource_id(), "Storage"@]);
        }
        self.client.request(Method::Get, &segments, None)
    }

    /// `GET /redfish/v1/Systems/{id}/Storage/{storage_id}`
    pub fn get_storage(&self, storage_id: &str) -> (r: Result<PlannedRequest, Error>)
        ensures
            planned(
                r,
                self@,
                Method::Get,
                redfish_url_spec(self@, seq!["Systems"@, self.resource_id(), "Storage"@, storage_id@]),
                None,
            ),
    {
        let segments: [&str; 4] = ["Systems", self.system_id.as_str(), "Storage", storage_id];
        proof {
            assert(str_views(segments@) =~= seq!["Systems"@, self.resource_id(), "Storage"@, storage_id@]);
        }
        self.client.request(Method::Get, &segments, None)
    }

    /// `GET /redfish/v1/Systems/{id}/Storage/{storage_id}/Drives/{drive_id}`
    pub fn get_drive(&self, storage_id: &str, drive_id: &str) -> (r: Result<PlannedRequest, Error>)
        ensures
            planned(
                r,
                self@,
                Method::Get,
                redfish_url_spec(self@, seq!["Systems"@, self.resource_id(), "Storage"@, storage_id@, "Drives"@, drive_id@]),
                None,
            ),
    {
        let segments: [&str; 6] = ["Systems", self.system_id.as_str(), "Storage", storage_id, "Drives", drive_id];
        proof {
            assert(str_views(segments@) =~= seq!["Systems"@, self.resource_id(), "Storage"@, storage_id@, "Drives"@, drive_id@]);
        }
        self.client.request(Method::Get, &segments, None)
    }

    /// `GET /redfish/v1/Systems/{id}/LogServices`
    pub fn list_log_services(&self) -> (r: Result<PlannedRequest, Error>)
        ensures
            planned(
                r,
                self@,
                Method::Get,
                redfish_url_spec(self@, seq!["Systems"@, self.resource_id(), "LogServices"@]),
                None,
            ),
    {
        let segments: [&str; 3] = ["Systems", self.system_id.as_str(), "LogServices"];
        proof {
            assert(str_views(segments@) =~= seq!["Systems"@, self.resource_id(), "LogServices"@]);
        }
        self.client.request(Method::Get, &segments, None)
    }

    /// `GET /redfish/v1/Systems/{id}/LogServices/{log_id}`
    pub fn get_log_service(&self, log_id: &str) -> (r: Result<PlannedRequest, Error>)
        ensures
            planned(
                r,
                self@,
                Method::Get,
                redfish_url_spec(self@, seq!["Systems"@, self.resource_id(), "LogServices"@, log_id@]),
                None,
            ),
    {
        let segments: [&str; 4] = ["Systems", self.system_id.as_str(), "LogServices", log_id];
        proof {
            assert(str_views(segments@) =~= seq!["Systems"@, self.resource_id(), "LogServices"@, log_id@]);
        }
        self.client.request(Method::Get, &segments, None)
    }

    /// `GET /redfish/v1/Systems/{id}/LogServices/{log_id}/Entries`
    pub fn list_log_entries(
        &self,
        log_id: &str,
        query: Option<&ODataQuery>,
    ) -> (r: Result<PlannedRequest, Error>)
        ensures
            planned(
                r,
                self@,
                Method::Get,
                query_url_spec(redfish_url_spec(self@, seq!["Systems"@, self.resource_id(), "LogServices"@, log_id@, "Entries"@]), query),
                None,
            ),
    {
        let segments: [&str; 5] = ["Systems", self.system_id.as_str(), "LogServices", log_id, "Entries"];
        proof {
            assert(str_views(segments@) =~= seq!["Systems"@, self.resource_id(), "LogServices"@, log_id@, "Entries"@]);
        }
        let url = match self.client.redfish_url(&segments) {
            Ok(u) => u,
            Err(e) => {
                return Err(e);
            },
        };
        let url = match query {
            Some(q) => match q.try_apply_to_url(url) {
                Ok(u) => u,
                Err(e) => {
                    return Err(e);
                },
            },
            None => url,
        };
        self.client.request_to(Method::Get, url, None)
    }

    /// `GET /redfish/v1/Systems/{id}/LogServices/{log_id}/Entries/{entry_id}`
    pub fn get_log_entry(&self, log_id: &str, entry_id: &str) -> (r: Result<PlannedRequest, Error>)
        ensures
            planned(
                r,
                self@,
                Method::Get,
                redfish_url_spec(self@, seq!["Systems"@, self.resource_id(), "LogServices"@, log_id@, "Entries"@, entry_id@]),
                None,
            ),
    {
        let segments: [&str; 6] = ["Systems", self.system_id.as_str(), "LogServices", log_id, "Entries", entry_id];
        proof {
            assert(str_views(segments@) =~= seq!["Systems"@, self.resource_id(), "LogServices"@, log_id@, "Entries"@, entry_id@]);
        }
        self.client.request(Method::Get, &segments, None)
    }

    /// `POST /redfish/v1/Systems/{id}/LogServices/{log_id}/Actions/LogService.ClearLog`
    pub fn clear_log(&self, log_id: &str) -> (r: Result<PlannedRequest, Error>)
        ensures
            planned(
                r,
                self@,
                Method::Post,
                redfish_url_spec(self@, seq!["Systems"@, self.resource_id(), "LogServices"@, log_id@, "Actions"@, "LogService.ClearLog"@]),
                Some(JsonView::Object(Seq::empty())),
            ),
    {
        let segments: [&str; 6] = ["Systems", self.system_id.as_str(), "LogServices", log_id, "Actions", "LogService.ClearLog"];
        proof {
            assert(str_views(segments@) =~= seq!["Systems"@, self.resource_id(), "LogServices"@, log_id@, "Actions"@, "LogService.ClearLog"@]);
        }
        let doc = empty_object();
        self.client.request(Method::Post, &segments, Some(&doc))
    }
}

/// Requests to the `Chassis` collection.
pub struct ChassisService<'a> {
    client: &'a ClientBase,
}

impl<'a> View for ChassisService<'a> {
    type V = ClientBaseView;

    closed spec fn view(&self) -> ClientBaseView {
        self.client@
    }
}

impl<'a> ChassisService<'a> {
    /// Requests through this client.
    pub fn new(client: &'a ClientBase) -> (r: ChassisService<'a>)
        ensures
            r@ == client@,
    {
        ChassisService { client }
    }

    /// `GET /redfish/v1/Chassis`
    pub fn list(&self) -> (r: Result<PlannedRequest, Error>)
        ensures
            planned(
                r,
                self@,
                Method::Get,
                redfish_url_spec(self@, seq!["Chassis"@]),
                None,
            ),
    {
        let segments: [&str; 1] = ["Chassis"];
        proof {
            assert(str_views(segments@) =~= seq!["Chassis"@]);
        }
        self.client.request(Method::Get, &segments, None)
    }

    /// `GET /redfish/v1/Chassis/{chassis_id}`
    pub fn get(&self, chassis_id: &str) -> (r: Result<PlannedRequest, Error>)
        ensures
            planned(
                r,
                self@,
                Method::Get,
                redfish_url_spec(self@, seq!["Chassis"@, chassis_id@]),
                None,
            ),
    {
        let segments: [&str; 2] = ["Chassis", chassis_id];
        proof {
            assert(str_views(segments@) =~= seq!["Chassis"@, chassis_id@]);
        }
        self.client.request(Method::Get, &segments, None)
    }

    /// `POST /redfish/v1/Chassis/{chassis_id}/Actions/Chassis.Reset`
    pub fn reset(
        &self,
        chassis_id: &str,
        reset_type: ResetType,
    ) -> (r: Result<PlannedRequest, Error>)
        ensures
            planned(
                r,
                self@,
                Method::Post,
                redfish_url_spec(self@, seq!["Chassis"@, chassis_id@, "Actions"@, "Chassis.Reset"@]),
                Some(reset_request_json(reset_type)),
            ),
    {
        let segments: [&str; 4] = ["Chassis", chassis_id, "Actions", "Chassis.Reset"];
        proof {
            assert(str_views(segments@) =~= seq!["Chassis"@, chassis_id@, "Actions"@, "Chassis.Reset"@]);
        }
        let doc = reset_request(reset_type);
        self.client.request(Method::Post, &segments, Some(&doc))
    }
}

/// Requests to one member of `Chassis`.
pub struct ChassisResourceService<'a> {
    client: &'a ClientBase,
    chassis_id: String,
}

impl<'a> View for ChassisResourceService<'a> {
    type V = ClientBaseView;

    closed spec fn view(&self) -> ClientBaseView {
        self.client@
    }
}

impl<'a> ChassisResourceService<'a> {
    /// The id of the member.
    pub closed spec fn resource_id(&self) -> Seq<char> {
        self.chassis_id@
    }

    /// Requests to the member `chassis_id` through this client.
    pub fn new(client: &'a ClientBase, chassis_id: &str) -> (r: ChassisResourceService<'a>)
        ensures
            r@ == client@,
            r.resource_id() == chassis_id@,
    {
        ChassisResourceService { client, chassis_id: chassis_id.to_owned() }
    }

    /// The id of the member.
    pub fn id(&self) -> (r: &str)
        ensures
            r@ == self.resource_id(),
    {
        self.chassis_id.as_str()
    }

    /// `GET /redfish/v1/Chassis/{id}`
    pub fn get(&self) -> (r: Result<PlannedRequest, Error>)
        ensures
            planned(
                r,
                self@,
                Method::Get,
                redfish_url_spec(self@, seq!["Chassis"@, self.resource_id()]),
                None,
            ),
    {
        let segments: [&str; 2] = ["Chassis", self.chassis_id.as_str()];
        proof {
            assert(str_views(segments@) =~= seq!["Chassis"@, self.resource_id()]);
        }
        self.client.request(Method::Get, &segments, None)
    }

    /// `POST /redfish/v1/Chassis/{id}/Actions/Chassis.Reset`
    pub fn reset(&self, reset_type: ResetType) -> (r: Result<PlannedRequest, Error>)
        ensures
            planned(
                r,
                self@,
                Method::Post,
                redfish_url_spec(self@, seq!["Chassis"@, self.resource_id(), "Actions"@, "Chassis.Reset"@]),
                Some(reset_request_json(reset_type)),
            ),
    {
        let segments: [&str; 4] = ["Chassis", self.chassis_id.as_str(), "Actions", "Chassis.Reset"];
        proof {
            assert(str_views(segments@) =~= seq!["Chassis"@, self.resource_id(), "Actions"@, "Chassis.Reset"@]);
        }
        let doc = reset_request(reset_type);
        self.client.request(Method::Post, &segments, Some(&doc))
    }

    /// `GET /redfish/v1/Chassis/{id}/Power`
    pub fn get_power(&self) -> (r: Result<PlannedRequest, Error>)
        ensures
            planned(
                r,
                self@,
                Method::Get,
                redfish_url_spec(self@, seq!["Chassis"@, self.resource_id(), "Power"@]),
                None,
            ),
    {
        let segments: [&str; 3] = ["Chassis", self.chassis_id.as_str(), "Power"];
        proof {
            assert(str_views(segments@) =~= seq!["Chassis"@, self.resource_id(), "Power"@]);
        }
        self.client.request(Method::Get, &segments, None)
    }

    /// `GET /redfish/v1/Chassis/{id}/Thermal`
    pub fn get_thermal(&self) -> (r: Result<PlannedRequest, Error>)
        ensures
            planned(
                r,
                self@,
                Method::Get,
                redfish_url_spec(self@, seq!["Chassis"@, self.resource_id(), "Thermal"@]),
                None,
            ),
    {
        let segments: [&str; 3] = ["Chassis", self.chassis_id.as_str(), "Thermal"];
        proof {
            assert(str_views(segments@) =~= seq!["Chassis"@, self.resource_id(), "Thermal"@]);
        }
        self.client.request(Method::Get, &segments, None)
    }

    /// `GET /redfish/v1/Chassis/{id}/Sensors`
    pub fn list_sensors(&self) -> (r: Result<PlannedRequest, Error>)
        ensures
            planned(
                r,
                self@,
                Method::Get,
                redfish_url_spec(self@, seq!["Chassis"@, self.resource_id(), "Sensors"@]),
                None,
            ),
    {
        let segments: [&str; 3] = ["Chassis", self.chassis_id.as_str(), "Sensors"];
        proof {
            assert(str_views(segments@) =~= seq!["Chassis"@, self.resource_id(), "Sensors"@]);
        }
        self.client.request(Method::Get, &segments, None)
    }

    /// `GET /redfish/v1/Chassis/{id}/Sensors/{sensor_id}`
    pub fn get_sensor(&self, sensor_id: &str) -> (r: Result<PlannedRequest, Error>)
        ensures
            planned(
                r,
                self@,
                Method::Get,
                redfish_url_spec(self@, seq!["Chassis"@, self.resource_id(), "Sensors"@, sensor_id@]),
                None,
            ),
    {
        let segments: [&str; 4] = ["Chassis", self.chassis_id.as_str(), "Sensors", sensor_id];
        proof {
            assert(str_views(segments@) =~= seq!["Chassis"@, self.resource_id(), "Sensors"@, sensor_id@]);
        }
        self.client.request(Method::Get, &segments, None)
    }

    /// `GET /redfish/v1/Chassis/{id}/Drives`
    pub fn list_drives(&self) -> (r: Result<PlannedRequest, Error>)
        ensures
            planned(
                r,
                self@,
                Method::Get,
                redfish_url_spec(self@, seq!["Chassis"@, self.resource_id(), "Drives"@]),
                None,
            ),
    {
        let segments: [&str; 3] = ["Chassis", self.chassis_id.as_str(), "Drives"];
        proof {
            assert(str_views(segments@) =~= seq!["Chassis"@, self.resource_id(), "Drives"@]);
        }
        self.client.request(Method::Get, &segments, None)
    }

    /// `GET /redfish/v1/Chassis/{id}/Drives/{drive_id}`
    pub fn get_drive(&self, drive_id: &str) -> (r: Result<PlannedRequest, Error>)
        ensures
            planned(
                r,
                self@,
                Method::Get,
                redfish_url_spec(self@, seq!["Chassis"@, self.resource_id(), "Drives"@, drive_id@]),
                None,
            ),
    {
        let segments: [&str; 4] = ["Chassis", self.chassis_id.as_str(), "Drives", drive_id];
        proof {
            assert(str_views(segments@) =~= seq!["Chassis"@, self.resource_id(), "Drives"@, drive_id@]);
        }
        self.client.request(Method::Get, &segments, None)
    }

    /// `GET /redfish/v1/Chassis/{id}/LogServices`
    pub fn list_log_services(&self) -> (r: Result<PlannedRequest, Error>)
        ensures
            planned(
                r,
                self@,
                Method::Get,
                redfish_url_spec(self@, seq!["Chassis"@, self.resource_id(), "LogServices"@]),
                None,
            ),
    {
        let segments: [&str; 3] = ["Chassis", self.chassis_id.as_str(), "LogServices"];
        proof {
            assert(str_views(segments@) =~= seq!["Chassis"@, self.resource_id(), "LogServices"@]);
        }
        self.client.request(Method::Get, &segments, None)
    }

    /// `GET /redfish/v1/Chassis/{id}/LogServices/{log_id}`
    pub fn get_log_service(&self, log_id: &str) -> (r: Result<PlannedRequest, Error>)
        ensures
            planned(
                r,
                self@,
                Method::Get,
                redfish_url_spec(self@, seq!["Chassis"@, self.resource_id(), "LogServices"@, log_id@]),
                None,
            ),
    {
        let segments: [&str; 4] = ["Chassis", self.chassis_id.as_str(), "LogServices", log_id];
        proof {
            assert(str_views(segments@) =~= seq!["Chassis"@, self.resource_id(), "LogServices"@, log_id@]);
        }
        self.client.request(Method::Get, &segments, None)
    }

    /// `GET /redfish/v1/Chassis/{id}/LogServices/{log_id}/Entries`
    pub fn list_log_entries(
        &self,
        log_id: &str,
        query: Option<&ODataQuery>,
    ) -> (r: Result<PlannedRequest, Error>)
        ensures
            planned(
                r,
                self@,
                Method::Get,
                query_url_spec(redfish_url_spec(self@, seq!["Chassis"@, self.resource_id(), "LogServices"@, log_id@, "Entries"@]), query),
                None,
            ),
    {
        let segments: [&str; 5] = ["Chassis", self.chassis_id.as_str(), "LogServices", log_id, "Entries"];
        proof {
            assert(str_views(segments@) =~= seq!["Chassis"@, self.resource_id(), "LogServices"@, log_id@, "Entries"@]);
        }
        let url = match self.client.redfish_url(&segments) {
            Ok(u) => u,
            Err(e) => {
                return Err(e);
            },
        };
        let url = match query {
            Some(q) => match q.try_apply_to_url(url) {
                Ok(u) => u,
                Err(e) => {
                    return Err(e);
                },
            },
            None => url,
        };
        self.client.request_to(Method::Get, url, None)
    }

    /// `GET /redfish/v1/Chassis/{id}/LogServices/{log_id}/Entries/{entry_id}`
    pub fn get_log_entry(&self, log_id: &str, entry_id: &str) -> (r: Result<PlannedRequest, Error>)
        ensures
            planned(
                r,
                self@,
                Method::Get,
                redfish_url_spec(self@, seq!["Chassis"@, self.resource_id(), "LogServices"@, log_id@, "Entries"@, entry_id@]),
                None,
            ),
    {
        let segments: [&str; 6] = ["Chassis", self.chassis_id.as_str(), "LogServices", log_id, "Entries", entry_id];
        proof {
            assert(str_views(segments@) =~= seq!["Chassis"@, self.resource_id(), "LogServices"@, log_id@, "Entries"@, entry_id@]);
        }
        self.client.request(Method::Get, &segments, None)
    }

    /// `POST /redfish/v1/Chassis/{id}/LogServices/{log_id}/Actions/LogService.ClearLog`
    pub fn clear_log(&self, log_id: &str) -> (r: Result<PlannedRequest, Error>)
        ensures
            planned(
                r,
                self@,
                Method::Post,
                redfish_url_spec(self@, seq!["Chassis"@, self.resource_id(), "LogServices"@, log_id@, "Actions"@, "LogService.ClearLog"@]),
                Some(JsonView::Object(Seq::empty())),
            ),
    {
        let segments: [&str; 6] = ["Chassis", self.chassis_id.as_str(), "LogServices", log_id, "Actions", "LogService.ClearLog"];
        proof {
            assert(str_views(segments@) =~= seq!["Chassis"@, self.resource_id(), "LogServices"@, log_id@, "Actions"@, "LogService.ClearLog"@]);
        }
        let doc = empty_object();
        self.client.request(Method::Post, &segments, Some(&doc))
    }
}

/// Requests to the `Managers` collection.
pub struct ManagersService<'a> {
    client: &'a ClientBase,
}

impl<'a> View for ManagersService<'a> {
    type V = ClientBaseView;

    closed spec fn view(&self) -> ClientBaseView {
        self.client@
    }
}

impl<'a> ManagersService<'a> {
    /// Requests through this client.
    pub fn new(client: &'a ClientBase) -> (r: ManagersService<'a>)
        ensures
            r@ == client@,
    {
        ManagersService { client }
    }

    /// `GET /redfish/v1/Managers`
    pub fn list(&self) -> (r: Result<PlannedRequest, Error>)
        ensures
            planned(
                r,
                self@,
                Method::Get,
                redfish_url_spec(self@, seq!["Managers"@]),
                None,
            ),
    {
        let segments: [&str; 1] = ["Managers"];
        proof {
            assert(str_views(segments@) =~= seq!["Managers"@]);
        }
        self.client.request(Method::Get, &segments, None)
    }

    /// `GET /redfish/v1/Managers/{manager_id}`
    pub fn get(&self, manager_id: &str) -> (r: Result<PlannedRequest, Error>)
        ensures
            planned(
                r,
                self@,
                Method::Get,
                redfish_url_spec(self@, seq!["Managers"@, manager_id@]),
                None,
            ),
    {
        let segments: [&str; 2] = ["Managers", manager_id];
        proof {
            assert(str_views(segments@) =~= seq!["Managers"@, manager_id@]);
        }
        self.client.request(Method::Get, &segments, None)
    }

    /// `POST /redfish/v1/Managers/{manager_id}/Actions/Manager.Reset`
    pub fn reset(
        &self,
        manager_id: &str,
        reset_type: ResetType,
    ) -> (r: Result<PlannedRequest, Error>)
        ensures
            planned(
                r,
                self@,
                Method::Post,
                redfish_url_spec(self@, seq!["Managers"@, manager_id@, "Actions"@, "Manager.Reset"@]),
                Some(reset_request_json(reset_type)),
            ),
    {
        let segments: [&str; 4] = ["Managers", manager_id, "Actions", "Manager.Reset"];
        proof {
            assert(str_views(segments@) =~= seq!["Managers"@, manager_id@, "Actions"@, "Manager.Reset"@]);
        }
        let doc = reset_request(reset_type);
        self.client.request(Method::Post, &segments, Some(&doc))
    }
}

/// Requests to one member of `Managers`.
pub struct ManagerResourceService<'a> {
    client: &'a ClientBase,
    manager_id: String,
}

impl<'a> View for ManagerResourceService<'a> {
    type V = ClientBaseView;

    closed spec fn view(&self) -> ClientBaseView {
        self.client@
    }
}

impl<'a> ManagerResourceService<'a> {
    /// The id of the member.
    pub closed spec fn resource_id(&self) -> Seq<char> {
        self.manager_id@
    }

    /// Requests to the member `manager_id` through this client.
    pub fn new(client: &'a ClientBase, manager_id: &str) -> (r: ManagerResourceService<'a>)
        ensures
            r@ == client@,
            r.resource_id() == manager_id@,
    {
        ManagerResourceService { client, manager_id: manager_id.to_owned() }
    }

    /// The id of the member.
    pub fn id(&self) -> (r: &str)
        ensures
            r@ == self.resource_id(),
    {
        self.manager_id.as_str()
    }

    /// `GET /redfish/v1/Managers/{id}`
    pub fn get(&self) -> (r: Result<PlannedRequest, Error>)
        ensures
            planned(
                r,
                self@,
                Method::Get,
                redfish_url_spec(self@, seq!["Managers"@, self.resource_id()]),
                None,
            ),
    {
        let segments: [&str; 2] = ["Managers", self.manager_id.as_str()];
        proof {
            assert(str_views(segments@) =~= seq!["Managers"@, self.resource_id()]);
        }
        self.client.request(Method::Get, &segments, None)
    }

    /// `POST /redfish/v1/Managers/{id}/Actions/Manager.Reset`
    pub fn reset(&self, reset_type: ResetType) -> (r: Result<PlannedRequest, Error>)
        ensures
            planned(
                r,
                self@,
                Method::Post,
                redfish_url_spec(self@, seq!["Managers"@, self.resource_id(), "Actions"@, "Manager.Reset"@]),
                Some(reset_request_json(reset_type)),
            ),
    {
        let segments: [&str; 4] = ["Managers", self.manager_id.as_str(), "Actions", "Manager.Reset"];
        proof {
            assert(str_views(segments@) =~= seq!["Managers"@, self.resource_id(), "Actions"@, "Manager.Reset"@]);
        }
        let doc = reset_request(reset_type);
        self.client.request(Method::Post, &segments, Some(&doc))
    }

    /// `GET /redfish/v1/Managers/{id}/EthernetInterfaces`
    pub fn list_ethernet_interfaces(&self) -> (r: Result<PlannedRequest, Error>)
        ensures
            planned(
                r,
                self@,
                Method::Get,
                redfish_url_spec(self@, seq!["Managers"@, self.resource_id(), "EthernetInterfaces"@]),
                None,
            ),
    {
        let segments: [&str; 3] = ["Managers", self.manager_id.as_str(), "EthernetInterfaces"];
        proof {
            assert(str_views(segments@) =~= seq!["Managers"@, self.resource_id(), "EthernetInterfaces"@]);
        }
        self.client.request(Method::Get, &segments, None)
    }

    /// `GET /redfish/v1/Managers/{id}/EthernetInterfaces/{eth_id}`
    pub fn get_ethernet_interface(&self, eth_id: &str) -> (r: Result<PlannedRequest, Error>)
        ensures
            planned(
                r,
                self@,
                Method::Get,
                redfish_url_spec(self@, seq!["Managers"@, self.resource_id(), "EthernetInterfaces"@, eth_id@]),
                None,
            ),
    {
        let segments: [&str; 4] = ["Managers", self.manager_id.as_str(), "EthernetInterfaces", eth_id];
        proof {
            assert(str_views(segments@) =~= seq!["Managers"@, self.resource_id(), "EthernetInterfaces"@, eth_id@]);
        }
        self.client.request(Method::Get, &segments, None)
    }

    /// `PATCH /redfish/v1/Managers/{id}/EthernetInterfaces/{eth_id}`
    pub fn patch_ethernet_interface(
        &self,
        eth_id: &str,
        request: &JsonValue,
    ) -> (r: Result<PlannedRequest, Error>)
        ensures
            planned(
                r,
                self@,
                Method::Patch,
                redfish_url_spec(self@, seq!["Managers"@, self.resource_id(), "EthernetInterfaces"@, eth_id@]),
                Some(request@),
            ),
    {
        let segments: [&str; 4] = ["Managers", self.manager_id.as_str(), "EthernetInterfaces", eth_id];
        proof {
            assert(str_views(segments@) =~= seq!["Managers"@, self.resource_id(), "EthernetInterfaces"@, eth_id@]);
        }
        self.client.request(Method::Patch, &segments, Some(request))
    }

    /// `GET /redfish/v1/Managers/{id}/LogServices`
    pub fn list_log_services(&self) -> (r: Result<PlannedRequest, Error>)
        ensures
            planned(
                r,
                self@,
                Method::Get,
                redfish_url_spec(self@, seq!["Managers"@, self.resource_id(), "LogServices"@]),
                None,
            ),
    {
        let segments: [&str; 3] = ["Managers", self.manager_id.as_str(), "LogServices"];
        proof {
            assert(str_views(segments@) =~= seq!["Managers"@, self.resource_id(), "LogServices"@]);
        }
        self.client.request(Method::Get, &segments, None)
    }

    /// `GET /redfish/v1/Managers/{id}/LogServices/{log_id}`
    pub fn get_log_service(&self, log_id: &str) -> (r: Result<PlannedRequest, Error>)
        ensures
            planned(
                r,
                self@,
                Method::Get,
                redfish_url_spec(self@, seq!["Managers"@, self.resource_id(), "LogServices"@, log_id@]),
                None,
            ),
    {
        let segments: [&str; 4] = ["Managers", self.manager_id.as_str(), "LogServices", log_id];
        proof {
            assert(str_views(segments@) =~= seq!["Managers"@, self.resource_id(), "LogServices"@, log_id@]);
        }
        self.client.request(Method::Get, &segments, None)
    }

    /// `GET /redfish/v1/Managers/{id}/LogServices/{log_id}/Entries`
    pub fn list_log_entries(
        &self,
        log_id: &str,
        query: Option<&ODataQuery>,
    ) -> (r: Result<PlannedRequest, Error>)
        ensures
            planned(
                r,
                self@,
                Method::Get,
                query_url_spec(redfish_url_spec(self@, seq!["Managers"@, self.resource_id(), "LogServices"@, log_id@, "Entries"@]), query),
                None,
            ),
    {
        let segments: [&str; 5] = ["Managers", self.manager_id.as_str(), "LogServices", log_id, "Entries"];
        proof {
            assert(str_views(segments@) =~= seq!["Managers"@, self.resource_id(), "LogServices"@, log_id@, "Entries"@]);
        }
        let url = match self.client.redfish_url(&segments) {
            Ok(u) => u,
            Err(e) => {
                return Err(e);
            },
        };
        let url = match query {
            Some(q) => match q.try_apply_to_url(url) {
                Ok(u) => u,
                Err(e) => {
                    return Err(e);
                },
            },
            None => url,
        };
        self.client.request_to(Method::Get, url, None)
    }

    /// `GET /redfish/v1/Managers/{id}/LogServices/{log_id}/Entries/{entry_id}`
    pub fn get_log_entry(&self, log_id: &str, entry_id: &str) -> (r: Result<PlannedRequest, Error>)
        ensures
            planned(
                r,
                self@,
                Method::Get,
                redfish_url_spec(self@, seq!["Managers"@, self.resource_id(), "LogServices"@, log_id@, "Entries"@, entry_id@]),
                None,
            ),
    {
        let segments: [&str; 6] = ["Managers", self.manager_id.as_str(), "LogServices", log_id, "Entries", entry_id];
        proof {
            assert(str_views(segments@) =~= seq!["Managers"@, self.resource_id(), "LogServices"@, log_id@, "Entries"@, entry_id@]);
        }
        self.client.request(Method::Get, &segments, None)
    }

    /// `POST /redfish/v1/Managers/{id}/LogServices/{log_id}/Actions/LogService.ClearLog`
    pub fn clear_log(&self, log_id: &str) -> (r: Result<PlannedRequest, Error>)
        ensures
            planned(
                r,
                self@,
                Method::Post,
                redfish_url_spec(self@, seq!["Managers"@, self.resource_id(), "LogServices"@, log_id@, "Actions"@, "LogService.ClearLog"@]),
                Some(JsonView::Object(Seq::empty())),
            ),
    {
        let segments: [&str; 6] = ["Managers", self.manager_id.as_str(), "LogServices", log_id, "Actions", "LogService.ClearLog"];
        proof {
            assert(str_views(segments@) =~= seq!["Managers"@, self.resource_id(), "LogServices"@, log_id@, "Actions"@, "LogService.ClearLog"@]);
        }
        let doc = empty_object();
        self.client.request(Method::Post, &segments, Some(&doc))
    }

    /// `GET /redfish/v1/Managers/{id}/NetworkProtocol`
    pub fn get_network_protocol(&self) -> (r: Result<PlannedRequest, Error>)
        ensures
            planned(
                r,
                self@,
                Method::Get,
                redfish_url_spec(self@, seq!["Managers"@, self.resource_id(), "NetworkProtocol"@]),
                None,
            ),
    {
        let segments: [&str; 3] = ["Managers", self.manager_id.as_str(), "NetworkProtocol"];
        proof {
            assert(str_views(segments@) =~= seq!["Managers"@, self.resource_id(), "NetworkProtocol"@]);
        }
        self.client.request(Method::Get, &segments, None)
    }

    /// `PATCH /redfish/v1/Managers/{id}/NetworkProtocol`
    pub fn patch_network_protocol(&self, request: &JsonValue) -> (r: Result<PlannedRequest, Error>)
        ensures
            planned(
                r,
                self@,
                Method::Patch,
                redfish_url_spec(self@, seq!["Managers"@, self.resource_id(), "NetworkProtocol"@]),
                Some(request@),
            ),
    {
        let segments: [&str; 3] = ["Managers", self.manager_id.as_str(), "NetworkProtocol"];
        proof {
            assert(str_views(segments@) =~= seq!["Managers"@, self.resource_id(), "NetworkProtocol"@]);
        }
        self.client.request(Method::Patch, &segments, Some(request))
    }
}

/// Requests to the `SessionService`.
pub struct SessionsService<'a> {
    client: &'a ClientBase,
}

impl<'a> View for SessionsService<'a> {
    type V = ClientBaseView;

    closed spec fn view(&self) -> ClientBaseView {
        self.client@
    }
}

impl<'a> SessionsService<'a> {
    /// Requests through this client.
    pub fn new(client: &'a ClientBase) -> (r: SessionsService<'a>)
        ensures
            r@ == client@,
    {
        SessionsService { client }
    }

    /// `GET /redfish/v1/SessionService/Sessions`
    pub fn list(&self) -> (r: Result<PlannedRequest, Error>)
        ensures
            planned(
                r,
                self@,
                Method::Get,
                redfish_url_spec(self@, seq!["SessionService"@, "Sessions"@]),
                None,
            ),
    {
        let segments: [&str; 2] = ["SessionService", "Sessions"];
        proof {
            assert(str_views(segments@) =~= seq!["SessionService"@, "Sessions"@]);
        }
        self.client.request(Method::Get, &segments, None)
    }

    /// `GET /redfish/v1/SessionService/Sessions/{session_id}`
    pub fn get(&self, session_id: &str) -> (r: Result<PlannedRequest, Error>)
        ensures
            planned(
                r,
                self@,
                Method::Get,
                redfish_url_spec(self@, seq!["SessionService"@, "Sessions"@, session_id@]),
                None,
            ),
    {
        let segments: [&str; 3] = ["SessionService", "Sessions", session_id];
        proof {
            assert(str_views(segments@) =~= seq!["SessionService"@, "Sessions"@, session_id@]);
        }
        self.client.request(Method::Get, &segments, None)
    }

    /// `POST /redfish/v1/SessionService/Sessions`
    pub fn create(&self, username: &str, password: &str) -> (r: Result<PlannedRequest, Error>)
        ensures
            planned(
                r,
                self@,
                Method::Post,
                redfish_url_spec(self@, seq!["SessionService"@, "Sessions"@]),
                Some(session_create_json(username@, password@)),
            ),
    {
        let segments: [&str; 2] = ["SessionService", "Sessions"];
        proof {
            assert(str_views(segments@) =~= seq!["SessionService"@, "Sessions"@]);
        }
        let doc = session_request(username, password);
        self.client.request(Method::Post, &segments, Some(&doc))
    }

    /// Plans the deletion of a session, `location` being the URI that its creation
    /// returned (absolute, or relative to the base URL).
    pub fn delete(&self, location: &str) -> (r: Result<PlannedRequest, Error>)
        ensures
            logout_planned(r, self@, location@),
    {
        match self.client.resolve_uri(location) {
            Ok(url) => self.client.request_to(Method::Delete, url, None),
            Err(e) => Err(e),
        }
    }
}

/// What planning the deletion of the session at `location` gives: the location's error
/// where it does not resolve, else one DELETE to the resolved URL with the client's
/// headers and no body.
pub open spec fn logout_planned(r: Result<PlannedRequest, Error>, base: ClientBaseView, location: Seq<char>) -> bool {
    match resolve_spec(base.base_url, location) {
        Err(m) => r matches Err(e) && e@ == plain_error(ErrorKind::InvalidConfig, m),
        Ok(u) => planned_to(r, base, Method::Delete, u, None),
    }
}

/// Logging out after a login: where a login reply was read successfully, deleting the
/// session at the location it gave plans exactly one request, a DELETE to that location
/// resolved against the base URL, with the client's headers and no body (where the
/// client's headers can be built), and plans nothing where the location does not resolve.
pub proof fn lemma_logout_after_login<S>(
    base: ClientBaseView,
    raw: RawResponse,
    decoded: Option<S>,
    login: Result<SessionLogin<S>, Error>,
    plan: Result<PlannedRequest, Error>,
)
    requires
        login_spec(login, raw, decoded),
        login is Ok,
        logout_planned(plan, base, login->Ok_0.location@),
    ensures
        login->Ok_0.location@ == header_text(header_entries(raw.headers), "location"@)->0,
        resolve_spec(base.base_url, login->Ok_0.location@) is Ok && headers_owed(
            base.default_headers,
            base.auth,
        ) ==> (plan matches Ok(p) && p@.method == Method::Delete && p@.url == resolve_spec(
            base.base_url,
            login->Ok_0.location@,
        )->Ok_0 && p@.body is None
            && p@.headers == request_headers_spec(base.default_headers, false, base.auth)),
        resolve_spec(base.base_url, login->Ok_0.location@) is Err ==> plan is Err,
{
}

/// Requests to the `AccountService`.
pub struct AccountServiceService<'a> {
    client: &'a ClientBase,
}

impl<'a> View for AccountServiceService<'a> {
    type V = ClientBaseView;

    closed spec fn view(&self) -> ClientBaseView {
        self.client@
    }
}

impl<'a> AccountServiceService<'a> {
    /// Requests through this client.
    pub fn new(client: &'a ClientBase) -> (r: AccountServiceService<'a>)
        ensures
            r@ == client@,
    {
        AccountServiceService { client }
    }

    /// `GET /redfish/v1/AccountService`
    pub fn get(&self) -> (r: Result<PlannedRequest, Error>)
        ensures
            planned(
                r,
                self@,
                Method::Get,
                redfish_url_spec(self@, seq!["AccountService"@]),
                None,
            ),
    {
        let segments: [&str; 1] = ["AccountService"];
        proof {
            assert(str_views(segments@) =~= seq!["AccountService"@]);
        }
        self.client.request(Method::Get, &segments, None)
    }

    /// `GET /redfish/v1/AccountService/Accounts`
    pub fn list_accounts(&self) -> (r: Result<PlannedRequest, Error>)
        ensures
            planned(
                r,
                self@,
                Method::Get,
                redfish_url_spec(self@, seq!["AccountService"@, "Accounts"@]),
                None,
            ),
    {
        let segments: [&str; 2] = ["AccountService", "Accounts"];
        proof {
            assert(str_views(segments@) =~= seq!["AccountService"@, "Accounts"@]);
        }
        self.client.request(Method::Get, &segments, None)
    }

    /// `GET /redfish/v1/AccountService/Accounts/{account_id}`
    pub fn get_account(&self, account_id: &str) -> (r: Result<PlannedRequest, Error>)
        ensures
            planned(
                r,
                self@,
                Method::Get,
                redfish_url_spec(self@, seq!["AccountService"@, "Accounts"@, account_id@]),
                None,
            ),
    {
        let segments: [&str; 3] = ["AccountService", "Accounts", account_id];
        proof {
            assert(str_views(segments@) =~= seq!["AccountService"@, "Accounts"@, account_id@]);
        }
        self.client.request(Method::Get, &segments, None)
    }

    /// `POST /redfish/v1/AccountService/Accounts`
    pub fn create_account(&self, req: &AccountCreateRequest) -> (r: Result<PlannedRequest, Error>)
        ensures
            planned(
                r,
                self@,
                Method::Post,
                redfish_url_spec(self@, seq!["AccountService"@, "Accounts"@]),
                Some(account_create_json(req@)),
            ),
    {
        let segments: [&str; 2] = ["AccountService", "Accounts"];
        proof {
            assert(str_views(segments@) =~= seq!["AccountService"@, "Accounts"@]);
        }
        let doc = req.to_json();
        self.client.request(Method::Post, &segments, Some(&doc))
    }

    /// `PATCH /redfish/v1/AccountService/Accounts/{account_id}`
    pub fn update_account(
        &self,
        account_id: &str,
        req: &AccountUpdateRequest,
    ) -> (r: Result<PlannedRequest, Error>)
        ensures
            account_update_empty(req@) ==> (r matches Err(e) && e@ == plain_error(
                ErrorKind::InvalidConfig,
                "AccountUpdateRequest is empty"@,
            )),
            !account_update_empty(req@) ==> planned(
                r,
                self@,
                Method::Patch,
                redfish_url_spec(self@, seq!["AccountService"@, "Accounts"@, account_id@]),
                Some(account_update_json(req@)),
            ),
    {
        if req.is_empty() {
            return Err(Error::invalid_config("AccountUpdateRequest is empty".to_owned()));
        }
        let segments: [&str; 3] = ["AccountService", "Accounts", account_id];
        proof {
            assert(str_views(segments@) =~= seq!["AccountService"@, "Accounts"@, account_id@]);
        }
        let doc = req.to_json();
        self.client.request(Method::Patch, &segments, Some(&doc))
    }

    /// `DELETE /redfish/v1/AccountService/Accounts/{account_id}`
    pub fn delete_account(&self, account_id: &str) -> (r: Result<PlannedRequest, Error>)
        ensures
            planned(
                r,
                self@,
                Method::Delete,
                redfish_url_spec(self@, seq!["AccountService"@, "Accounts"@, account_id@]),
                None,
            ),
    {
        let segments: [&str; 3] = ["AccountService", "Accounts", account_id];
        proof {
            assert(str_views(segments@) =~= seq!["AccountService"@, "Accounts"@, account_id@]);
        }
        self.client.request(Method::Delete, &segments, None)
    }

    /// `GET /redfish/v1/AccountService/Roles`
    pub fn list_roles(&self) -> (r: Result<PlannedRequest, Error>)
        ensures
            planned(
                r,
                self@,
                Method::Get,
                redfish_url_spec(self@, seq!["AccountService"@, "Roles"@]),
                None,
            ),
    {
        let segments: [&str; 2] = ["AccountService", "Roles"];
        proof {
            assert(str_views(segments@) =~= seq!["AccountService"@, "Roles"@]);
        }
        self.client.request(Method::Get, &segments, None)
    }

    /// `GET /redfish/v1/AccountService/Roles/{role_id}`
    pub fn get_role(&self, role_id: &str) -> (r: Result<PlannedRequest, Error>)
        ensures
            planned(
                r,
                self@,
                Method::Get,
                redfish_url_spec(self@, seq!["AccountService"@, "Roles"@, role_id@]),
                None,
            ),
    {
        let segments: [&str; 3] = ["AccountService", "Roles", role_id];
        proof {
            assert(str_views(segments@) =~= seq!["AccountService"@, "Roles"@, role_id@]);
        }
        self.client.request(Method::Get, &segments, None)
    }

    /// Follows `Members@odata.nextLink` from the `AccountService/Accounts` collection under the Redfish root
    /// to gather every account member; the walk starts at the URL that the list call reads.
    pub fn list_accounts_all(&self) -> (r: Result<CollectionWalk<OdataId>, Error>)
        ensures
            walk_from(r, redfish_url_spec(self@, seq!["AccountService"@, "Accounts"@])),
    {
        let segments: [&str; 2] = ["AccountService", "Accounts"];
        proof {
            assert(str_views(segments@) =~= seq!["AccountService"@, "Accounts"@]);
        }
        walk_from_url(self.client.redfish_url(&segments))
    }
}

/// Requests to the `EventService`.
pub struct EventServiceService<'a> {
    client: &'a ClientBase,
}

impl<'a> View for EventServiceService<'a> {
    type V = ClientBaseView;

    closed spec fn view(&self) -> ClientBaseView {
        self.client@
    }
}

impl<'a> EventServiceService<'a> {
    /// Requests through this client.
    pub fn new(client: &'a ClientBase) -> (r: EventServiceService<'a>)
        ensures
            r@ == client@,
    {
        EventServiceService { client }
    }

    /// `GET /redfish/v1/EventService`
    pub fn get(&self) -> (r: Result<PlannedRequest, Error>)
        ensures
            planned(
                r,
                self@,
                Method::Get,
                redfish_url_spec(self@, seq!["EventService"@]),
                None,
            ),
    {
        let segments: [&str; 1] = ["EventService"];
        proof {
            assert(str_views(segments@) =~= seq!["EventService"@]);
        }
        self.client.request(Method::Get, &segments, None)
    }

    /// `GET /redfish/v1/EventService/Subscriptions`
    pub fn list_subscriptions(&self) -> (r: Result<PlannedRequest, Error>)
        ensures
            planned(
                r,
                self@,
                Method::Get,
                redfish_url_spec(self@, seq!["EventService"@, "Subscriptions"@]),
                None,
            ),
    {
        let segments: [&str; 2] = ["EventService", "Subscriptions"];
        proof {
            assert(str_views(segments@) =~= seq!["EventService"@, "Subscriptions"@]);
        }
        self.client.request(Method::Get, &segments, None)
    }

    /// `GET /redfish/v1/EventService/Subscriptions/{subscription_id}`
    pub fn get_subscription(&self, subscription_id: &str) -> (r: Result<PlannedRequest, Error>)
        ensures
            planned(
                r,
                self@,
                Method::Get,
                redfish_url_spec(self@, seq!["EventService"@, "Subscriptions"@, subscription_id@]),
                None,
            ),
    {
        let segments: [&str; 3] = ["EventService", "Subscriptions", subscription_id];
        proof {
            assert(str_views(segments@) =~= seq!["EventService"@, "Subscriptions"@, subscription_id@]);
        }
        self.client.request(Method::Get, &segments, None)
    }

    /// `POST /redfish/v1/EventService/Subscriptions`
    pub fn create_subscription(
        &self,
        req: &EventSubscriptionCreateRequest,
    ) -> (r: Result<PlannedRequest, Error>)
        ensures
            planned(
                r,
                self@,
                Method::Post,
                redfish_url_spec(self@, seq!["EventService"@, "Subscriptions"@]),
                Some(subscription_create_json(req@)),
            ),
    {
        let segments: [&str; 2] = ["EventService", "Subscriptions"];
        proof {
            assert(str_views(segments@) =~= seq!["EventService"@, "Subscriptions"@]);
        }
        let doc = req.to_json();
        self.client.request(Method::Post, &segments, Some(&doc))
    }

    /// `PATCH /redfish/v1/EventService/Subscriptions/{subscription_id}`
    pub fn update_subscription(
        &self,
        subscription_id: &str,
        req: &EventSubscriptionUpdateRequest,
    ) -> (r: Result<PlannedRequest, Error>)
        ensures
            subscription_update_empty(req@) ==> (r matches Err(e) && e@ == plain_error(
                ErrorKind::InvalidConfig,
                "EventSubscriptionUpdateRequest is empty"@,
            )),
            !subscription_update_empty(req@) ==> planned(
                r,
                self@,
                Method::Patch,
                redfish_url_spec(self@, seq!["EventService"@, "Subscriptions"@, subscription_id@]),
                Some(subscription_update_json(req@)),
            ),
    {
        if req.is_empty() {
            return Err(Error::invalid_config("EventSubscriptionUpdateRequest is empty".to_owned()));
        }
        let segments: [&str; 3] = ["EventService", "Subscriptions", subscription_id];
        proof {
            assert(str_views(segments@) =~= seq!["EventService"@, "Subscriptions"@, subscription_id@]);
        }
        let doc = req.to_json();
        self.client.request(Method::Patch, &segments, Some(&doc))
    }

    /// `DELETE /redfish/v1/EventService/Subscriptions/{subscription_id}`
    pub fn delete_subscription(&self, subscription_id: &str) -> (r: Result<PlannedRequest, Error>)
        ensures
            planned(
                r,
                self@,
                Method::Delete,
                redfish_url_spec(self@, seq!["EventService"@, "Subscriptions"@, subscription_id@]),
                None,
            ),
    {
        let segments: [&str; 3] = ["EventService", "Subscriptions", subscription_id];
        proof {
            assert(str_views(segments@) =~= seq!["EventService"@, "Subscriptions"@, subscription_id@]);
        }
        self.client.request(Method::Delete, &segments, None)
    }

    /// `POST /redfish/v1/EventService/Actions/EventService.SubmitTestEvent`
    pub fn submit_test_event(&self, request: &JsonValue) -> (r: Result<PlannedRequest, Error>)
        ensures
            planned(
                r,
                self@,
                Method::Post,
                redfish_url_spec(self@, seq!["EventService"@, "Actions"@, "EventService.SubmitTestEvent"@]),
                Some(request@),
            ),
    {
        let segments: [&str; 3] = ["EventService", "Actions", "EventService.SubmitTestEvent"];
        proof {
            assert(str_views(segments@) =~= seq!["EventService"@, "Actions"@, "EventService.SubmitTestEvent"@]);
        }
        self.client.request(Method::Post, &segments, Some(request))
    }

    /// Follows `Members@odata.nextLink` from the `EventService/Subscriptions` collection under the Redfish root
    /// to gather every subscription member; the walk starts at the URL that the list call reads.
    pub fn list_subscriptions_all(&self) -> (r: Result<CollectionWalk<OdataId>, Error>)
        ensures
            walk_from(r, redfish_url_spec(self@, seq!["EventService"@, "Subscriptions"@])),
    {
        let segments: [&str; 2] = ["EventService", "Subscriptions"];
        proof {
            assert(str_views(segments@) =~= seq!["EventService"@, "Subscriptions"@]);
        }
        walk_from_url(self.client.redfish_url(&segments))
    }
}

/// Requests to the `TaskService`.
pub struct TaskServiceService<'a> {
    client: &'a ClientBase,
}

impl<'a> View for TaskServiceService<'a> {
    type V = ClientBaseView;

    closed spec fn view(&self) -> ClientBaseView {
        self.client@
    }
}

impl<'a> TaskServiceService<'a> {
    /// Requests through this client.
    pub fn new(client: &'a ClientBase) -> (r: TaskServiceService<'a>)
        ensures
            r@ == client@,
    {
        TaskServiceService { client }
    }

    /// `GET /redfish/v1/TaskService`
    pub fn get(&self) -> (r: Result<PlannedRequest, Error>)
        ensures
            planned(
                r,
                self@,
                Method::Get,
                redfish_url_spec(self@, seq!["TaskService"@]),
                None,
            ),
    {
        let segments: [&str; 1] = ["TaskService"];
        proof {
            assert(str_views(segments@) =~= seq!["TaskService"@]);
        }
        self.client.request(Method::Get, &segments, None)
    }

    /// `GET /redfish/v1/TaskService/Tasks`
    pub fn list_tasks(&self) -> (r: Result<PlannedRequest, Error>)
        ensures
            planned(
                r,
                self@,
                Method::Get,
                redfish_url_spec(self@, seq!["TaskService"@, "Tasks"@]),
                None,
            ),
    {
        let segments: [&str; 2] = ["TaskService", "Tasks"];
        proof {
            assert(str_views(segments@) =~= seq!["TaskService"@, "Tasks"@]);
        }
        self.client.request(Method::Get, &segments, None)
    }

    /// `GET /redfish/v1/TaskService/Tasks/{task_id}`
    pub fn get_task(&self, task_id: &str) -> (r: Result<PlannedRequest, Error>)
        ensures
            planned(
                r,
                self@,
                Method::Get,
                redfish_url_spec(self@, seq!["TaskService"@, "Tasks"@, task_id@]),
                None,
            ),
    {
        let segments: [&str; 3] = ["TaskService", "Tasks", task_id];
        proof {
            assert(str_views(segments@) =~= seq!["TaskService"@, "Tasks"@, task_id@]);
        }
        self.client.request(Method::Get, &segments, None)
    }

    /// `DELETE /redfish/v1/TaskService/Tasks/{task_id}`
    pub fn delete_task(&self, task_id: &str) -> (r: Result<PlannedRequest, Error>)
        ensures
            planned(
                r,
                self@,
                Method::Delete,
                redfish_url_spec(self@, seq!["TaskService"@, "Tasks"@, task_id@]),
                None,
            ),
    {
        let segments: [&str; 3] = ["TaskService", "Tasks", task_id];
        proof {
            assert(str_views(segments@) =~= seq!["TaskService"@, "Tasks"@, task_id@]);
        }
        self.client.request(Method::Delete, &segments, None)
    }

    /// Follows `Members@odata.nextLink` from the `TaskService/Tasks` collection under the Redfish root
    /// to gather every task member; the walk starts at the URL that the list call reads.
    pub fn list_tasks_all(&self) -> (r: Result<CollectionWalk<OdataId>, Error>)
        ensures
            walk_from(r, redfish_url_spec(self@, seq!["TaskService"@, "Tasks"@])),
    {
        let segments: [&str; 2] = ["TaskService", "Tasks"];
        proof {
            assert(str_views(segments@) =~= seq!["TaskService"@, "Tasks"@]);
        }
        walk_from_url(self.client.redfish_url(&segments))
    }

    /// Plans the GET of a task by URI (absolute or relative).
    pub fn get_task_uri(&self, task_uri: &str) -> (r: Result<PlannedRequest, Error>)
        ensures
            planned_uri(r, self@, task_uri@),
    {
        self.client.get_uri(task_uri)
    }
}

/// Requests to the `UpdateService`.
pub struct UpdateServiceService<'a> {
    client: &'a ClientBase,
}

impl<'a> View for UpdateServiceService<'a> {
    type V = ClientBaseView;

    closed spec fn view(&self) -> ClientBaseView {
        self.client@
    }
}

impl<'a> UpdateServiceService<'a> {
    /// Requests through this client.
    pub fn new(client: &'a ClientBase) -> (r: UpdateServiceService<'a>)
        ensures
            r@ == client@,
    {
        UpdateServiceService { client }
    }

    /// `GET /redfish/v1/UpdateService`
    pub fn get(&self) -> (r: Result<PlannedRequest, Error>)
        ensures
            planned(
                r,
                self@,
                Method::Get,
                redfish_url_spec(self@, seq!["UpdateService"@]),
                None,
            ),
    {
        let segments: [&str; 1] = ["UpdateService"];
        proof {
            assert(str_views(segments@) =~= seq!["UpdateService"@]);
        }
        self.client.request(Method::Get, &segments, None)
    }

    /// `GET /redfish/v1/UpdateService/FirmwareInventory`
    pub fn firmware_inventory(&self) -> (r: Result<PlannedRequest, Error>)
        ensures
            planned(
                r,
                self@,
                Method::Get,
                redfish_url_spec(self@, seq!["UpdateService"@, "FirmwareInventory"@]),
                None,
            ),
    {
        let segments: [&str; 2] = ["UpdateService", "FirmwareInventory"];
        proof {
            assert(str_views(segments@) =~= seq!["UpdateService"@, "FirmwareInventory"@]);
        }
        self.client.request(Method::Get, &segments, None)
    }

    /// `GET /redfish/v1/UpdateService/FirmwareInventory/{inventory_id}`
    pub fn get_firmware_inventory(&self, inventory_id: &str) -> (r: Result<PlannedRequest, Error>)
        ensures
            planned(
                r,
                self@,
                Method::Get,
                redfish_url_spec(self@, seq!["UpdateService"@, "FirmwareInventory"@, inventory_id@]),
                None,
            ),
    {
        let segments: [&str; 3] = ["UpdateService", "FirmwareInventory", inventory_id];
        proof {
            assert(str_views(segments@) =~= seq!["UpdateService"@, "FirmwareInventory"@, inventory_id@]);
        }
        self.client.request(Method::Get, &segments, None)
    }

    /// `GET /redfish/v1/UpdateService/SoftwareInventory`
    pub fn software_inventory(&self) -> (r: Result<PlannedRequest, Error>)
        ensures
            planned(
                r,
                self@,
                Method::Get,
                redfish_url_spec(self@, seq!["UpdateService"@, "SoftwareInventory"@]),
                None,
            ),
    {
        let segments: [&str; 2] = ["UpdateService", "SoftwareInventory"];
        proof {
            assert(str_views(segments@) =~= seq!["UpdateService"@, "SoftwareInventory"@]);
        }
        self.client.request(Method::Get, &segments, None)
    }

    /// `GET /redfish/v1/UpdateService/SoftwareInventory/{inventory_id}`
    pub fn get_software_inventory(&self, inventory_id: &str) -> (r: Result<PlannedRequest, Error>)
        ensures
            planned(
                r,
                self@,
                Method::Get,
                redfish_url_spec(self@, seq!["UpdateService"@, "SoftwareInventory"@, inventory_id@]),
                None,
            ),
    {
        let segments: [&str; 3] = ["UpdateService", "SoftwareInventory", inventory_id];
        proof {
            assert(str_views(segments@) =~= seq!["UpdateService"@, "SoftwareInventory"@, inventory_id@]);
        }
        self.client.request(Method::Get, &segments, None)
    }

    /// `POST /redfish/v1/UpdateService/Actions/UpdateService.SimpleUpdate`
    pub fn simple_update(&self, req: &SimpleUpdateRequest) -> (r: Result<PlannedRequest, Error>)
        ensures
            planned(
                r,
                self@,
                Method::Post,
                redfish_url_spec(self@, seq!["UpdateService"@, "Actions"@, "UpdateService.SimpleUpdate"@]),
                Some(simple_update_json(req@)),
            ),
    {
        let segments: [&str; 3] = ["UpdateService", "Actions", "UpdateService.SimpleUpdate"];
        proof {
            assert(str_views(segments@) =~= seq!["UpdateService"@, "Actions"@, "UpdateService.SimpleUpdate"@]);
        }
        let doc = req.to_json();
        self.client.request(Method::Post, &segments, Some(&doc))
    }
}

/// Requests to the message registries.
pub struct RegistriesService<'a> {
    client: &'a ClientBase,
}

impl<'a> View for RegistriesService<'a> {
    type V = ClientBaseView;

    closed spec fn view(&self) -> ClientBaseView {
        self.client@
    }
}

impl<'a> RegistriesService<'a> {
    /// Requests through this client.
    pub fn new(client: &'a ClientBase) -> (r: RegistriesService<'a>)
        ensures
            r@ == client@,
    {
        RegistriesService { client }
    }

    /// `GET /redfish/v1/Registries`
    pub fn list(&self) -> (r: Result<PlannedRequest, Error>)
        ensures
            planned(
                r,
                self@,
                Method::Get,
                redfish_url_spec(self@, seq!["Registries"@]),
                None,
            ),
    {
        let segments: [&str; 1] = ["Registries"];
        proof {
            assert(str_views(segments@) =~= seq!["Registries"@]);
        }
        self.client.request(Method::Get, &segments, None)
    }

    /// `GET /redfish/v1/Registries/{registry_id}`
    pub fn get(&self, registry_id: &str) -> (r: Result<PlannedRequest, Error>)
        ensures
            planned(
                r,
                self@,
                Method::Get,
                redfish_url_spec(self@, seq!["Registries"@, registry_id@]),
                None,
            ),
    {
        let segments: [&str; 2] = ["Registries", registry_id];
        proof {
            assert(str_views(segments@) =~= seq!["Registries"@, registry_id@]);
        }
        self.client.request(Method::Get, &segments, None)
    }
}

/// Requests to the JSON schemas.
pub struct JsonSchemasService<'a> {
    client: &'a ClientBase,
}

impl<'a> View for JsonSchemasService<'a> {
    type V = ClientBaseView;

    closed spec fn view(&self) -> ClientBaseView {
        self.client@
    }
}

impl<'a> JsonSchemasService<'a> {
    /// Requests through this client.
    pub fn new(client: &'a ClientBase) -> (r: JsonSchemasService<'a>)
        ensures
            r@ == client@,
    {
        JsonSchemasService { client }
    }

    /// `GET /redfish/v1/JsonSchemas`
    pub fn list(&self) -> (r: Result<PlannedRequest, Error>)
        ensures
            planned(
                r,
                self@,
                Method::Get,
                redfish_url_spec(self@, seq!["JsonSchemas"@]),
                None,
            ),
    {
        let segments: [&str; 1] = ["JsonSchemas"];
        proof {
            assert(str_views(segments@) =~= seq!["JsonSchemas"@]);
        }
        self.client.request(Method::Get, &segments, None)
    }

    /// `GET /redfish/v1/JsonSchemas/{schema_id}`
    pub fn get(&self, schema_id: &str) -> (r: Result<PlannedRequest, Error>)
        ensures
            planned(
                r,
                self@,
                Method::Get,
                redfish_url_spec(self@, seq!["JsonSchemas"@, schema_id@]),
                None,
            ),
    {
        let segments: [&str; 2] = ["JsonSchemas", schema_id];
        proof {
            assert(str_views(segments@) =~= seq!["JsonSchemas"@, schema_id@]);
        }
        self.client.request(Method::Get, &segments, None)
    }
}


} // verus!
