use redfish::auth::{Auth, Credentials, SessionToken};
use redfish::error::{Error, ErrorKind, RequestContext};
use redfish::json::JsonValue;
use redfish::method::Method;
use redfish::odata::ODataQuery;
use redfish::redact::{is_sensitive_key, redacted_body_snippet};
use redfish::retry::{
    backoff_delay, capped_backoff, parse_retry_after_at, should_retry_status, Delay, RetryPolicy, UnixTime,
};
use redfish::types::{
    is_sensitive_header, redacted_header_pairs, reset_request, task_is_done, AccountCreateRequest,
    AccountUpdateRequest, BootSourceOverrideEnabled, BootSourceOverrideTarget, Collection,
    EventSubscriptionCreateRequest, EventSubscriptionUpdateRequest, OdataId, ResetType,
    SimpleUpdateRequest,
};

fn parsed(v: &JsonValue) -> serde_json::Value {
    serde_json::from_str(&v.to_json_text()).unwrap()
}

fn json(text: &str) -> serde_json::Value {
    serde_json::from_str(text).unwrap()
}

#[test]
fn basic_bearer_and_session_headers() {
    let mut h = http::HeaderMap::new();
    Auth::basic("admin", "password").apply_headers(&mut h).unwrap();
    assert_eq!(h.get("authorization").unwrap(), "Basic YWRtaW46cGFzc3dvcmQ=");
    Auth::bearer("t0k").apply_headers(&mut h).unwrap();
    assert_eq!(h.get("authorization").unwrap(), "Bearer t0k");
    assert_eq!(h.len(), 1);
    Auth::session_token("s3ss").apply_headers(&mut h).unwrap();
    assert_eq!(h.get("x-auth-token").unwrap(), "s3ss");
    let before = h.clone();
    Auth::none().apply_headers(&mut h).unwrap();
    assert_eq!(h, before);
}

#[test]
fn unusable_session_token_is_refused() {
    let mut h = http::HeaderMap::new();
    let e = Auth::session_token("a\u{7f}b").apply_headers(&mut h).unwrap_err();
    assert_eq!(e.kind(), ErrorKind::InvalidConfig);
    assert_eq!(e.message(), "Invalid X-Auth-Token value: failed to parse header value");
    assert!(h.is_empty());
}

#[test]
fn secrets_do_not_show_in_debug() {
    let c = Credentials::new("admin", "hunter2");
    assert_eq!(c.username(), "admin");
    assert!(!format!("{:?}", c).contains("hunter2"));
    assert!(!format!("{:?}", SessionToken::new("tok-secret")).contains("tok-secret"));
    assert!(!format!("{:?}", Auth::bearer("b-secret")).contains("b-secret"));
}

#[test]
fn account_request_bodies() {
    let r = AccountCreateRequest::new("bob", "pw").enabled(false);
    assert_eq!(r.user_name(), "bob");
    assert_eq!(parsed(&r.to_json()), json(r#"{"UserName":"bob","Password":"pw","Enabled":false}"#));
    let u = AccountUpdateRequest::new();
    assert!(u.is_empty());
    let u = u.password("new").role_id("Admin");
    assert!(!u.is_empty());
    assert_eq!(parsed(&u.to_json()), json(r#"{"Password":"new","RoleId":"Admin"}"#));
}

#[test]
fn subscription_request_bodies() {
    let r = EventSubscriptionCreateRequest::new("https://listener/events")
        .context("ctx")
        .protocol("Redfish")
        .event_types(vec!["Alert".to_string()])
        .message_ids(Vec::new())
        .http_headers(vec![("Authorization".to_string(), "Bearer x".to_string())]);
    assert_eq!(r.destination(), "https://listener/events");
    assert_eq!(
        parsed(&r.to_json()),
        json(r#"{"Destination":"https://listener/events","Context":"ctx","Protocol":"Redfish","EventTypes":["Alert"],"HttpHeaders":{"Authorization":"Bearer x"}}"#)
    );
    let u = EventSubscriptionUpdateRequest::new();
    assert!(u.is_empty());
    let u = u.message_ids(Vec::new());
    assert!(!u.is_empty());
    assert_eq!(parsed(&u.to_json()), json(r#"{"MessageIds":[]}"#));
}

#[test]
fn header_redaction_for_display() {
    assert!(is_sensitive_header("  Set-Cookie "));
    assert!(is_sensitive_header("AUTHORIZATION"));
    assert!(!is_sensitive_header("X-Custom"));
    let pairs = Some(vec![
        ("Authorization".to_string(), "Bearer x".to_string()),
        ("X-Other".to_string(), "keep".to_string()),
    ]);
    let r = redacted_header_pairs(&pairs).unwrap();
    assert_eq!(r[0].1, "<redacted>");
    assert_eq!(r[1].1, "keep");
    assert!(redacted_header_pairs(&None).is_none());
}

#[test]
fn simple_update_and_reset_bodies() {
    let r = SimpleUpdateRequest::new("u").transfer_protocol("HTTP").username("x").password("y");
    assert_eq!(r.image_uri(), "u");
    assert_eq!(
        parsed(&r.to_json()),
        json(r#"{"ImageURI":"u","TransferProtocol":"HTTP","Username":"x","Password":"y"}"#)
    );
    assert_eq!(parsed(&reset_request(ResetType::Nmi)), json(r#"{"ResetType":"Nmi"}"#));
    assert_eq!(ResetType::GracefulShutdown.as_str(), "GracefulShutdown");
}

#[test]
fn enumeration_texts() {
    assert_eq!(BootSourceOverrideEnabled::once().as_str(), "Once");
    assert_eq!(BootSourceOverrideEnabled::new("Vendor").as_str(), "Vendor");
    assert_eq!(BootSourceOverrideTarget::uefi_shell().as_str(), "UefiShell");
    assert_eq!(BootSourceOverrideTarget::none().as_str(), "None");
    assert!(task_is_done(Some("Killed")));
    assert!(!task_is_done(Some("Running")));
    assert!(!task_is_done(None));
}

#[test]
fn next_link_prefers_members_link() {
    let c: Collection<OdataId> = Collection {
        odata_id: None,
        name: None,
        members: Vec::new(),
        members_count: None,
        members_next_link: Some("/m".to_string()),
        odata_next_link: Some("/o".to_string()),
    };
    assert_eq!(c.next_link(), Some("/m"));
    assert_eq!(OdataId { odata_id: "/x".to_string() }.as_str(), "/x");
}

#[test]
fn retry_policy_and_backoff() {
    let p = RetryPolicy::new();
    assert_eq!((p.max_retries(), p.base_delay(), p.max_delay(), p.jitter()), (3, 200, 5000, true));
    let p = p.with_jitter(false).with_base_delay(100).with_max_delay(1000);
    assert_eq!(capped_backoff(&p, 0), 100);
    assert_eq!(capped_backoff(&p, 3), 800);
    assert_eq!(capped_backoff(&p, 4), 1000);
    assert_eq!(capped_backoff(&p, 100), 1000);
    assert_eq!(backoff_delay(&p, 2), 400);
    assert!(should_retry_status(502));
    assert!(!should_retry_status(500));
}

#[test]
fn retry_after_values() {
    let at = |secs: i64, nanos: u32| UnixTime { secs, nanos };
    let d = |secs: u64, nanos: u32| Some(Delay { secs, nanos });
    let mut h = http::HeaderMap::new();
    h.insert("retry-after", " 12 ".parse().unwrap());
    assert_eq!(parse_retry_after_at(&h, at(0, 0)), d(12, 0));
    h.insert("retry-after", "18446744073709551615".parse().unwrap());
    assert_eq!(parse_retry_after_at(&h, at(0, 0)), d(u64::MAX, 0));
    h.insert("retry-after", "Wed, 21 Oct 2015 07:28:00 GMT".parse().unwrap());
    assert_eq!(parse_retry_after_at(&h, at(1445412470, 0)), d(10, 0));
    assert_eq!(parse_retry_after_at(&h, at(1445412470, 250_000_000)), d(9, 750_000_000));
    assert_eq!(parse_retry_after_at(&h, at(1445412480, 0)), d(0, 0));
    assert_eq!(parse_retry_after_at(&h, at(1445412490, 0)), d(0, 0));
    assert_eq!(parse_retry_after_at(&h, at(-1, 500_000_000)), d(1445412480, 500_000_000));
    h.insert("retry-after", "soon".parse().unwrap());
    assert_eq!(parse_retry_after_at(&h, at(0, 0)), None);
}

#[test]
fn snippets_are_redacted_and_cut() {
    let body = br#"{"user":"a","password":"p","nested":{"token":"t"}}"#;
    let s = redacted_body_snippet(body, 8192).unwrap();
    assert!(!s.contains("\"p\"") && !s.contains("\"t\""));
    assert!(s.contains("<redacted>"));
    let s = redacted_body_snippet(b"plain text body that is long", 20).unwrap();
    assert_eq!(s, "plain ...(truncated)");
    assert!(s.len() <= 20);
    assert_eq!(redacted_body_snippet(b"abc", 0), None);
    assert_eq!(redacted_body_snippet(b"", 10), None);
    assert!(is_sensitive_key("X-Auth-Token"));
}

#[test]
fn error_display_and_retryability() {
    let e = Error::invalid_config("bad".to_string());
    assert_eq!(e.to_display_string(), "bad");
    assert!(!e.is_retryable());
    let ctx = RequestContext::new(Method::Get, "https://h/x".to_string());
    let e = Error::transport(ctx, "Transport error".to_string(), "reset".to_string());
    assert_eq!(e.to_display_string(), "Transport error (GET https://h/x)");
    assert!(e.is_retryable());
}

#[test]
fn odata_pairs_in_order() {
    let q = ODataQuery::new()
        .select("Id".to_string())
        .skip(2)
        .with_pair("only".to_string(), "x".to_string());
    let p = q.pairs();
    assert_eq!(p, vec![
        ("$select".to_string(), "Id".to_string()),
        ("$skip".to_string(), "2".to_string()),
        ("only".to_string(), "x".to_string()),
    ]);
}

#[test]
fn json_round_trip() {
    let v = JsonValue::from_json_bytes(br#"{"a":[1,"x",null]}"#).unwrap();
    assert_eq!(v.to_json_text(), r#"{"a":[1,"x",null]}"#);
    assert!(JsonValue::from_json_bytes(b"{").is_err());
}

#[test]
fn snippets_keep_numbers_and_replace_bad_bytes() {
    let s = redacted_body_snippet(br#"{"count":42,"token":"zzz"}"#, 100).unwrap();
    assert!(s.contains("42"));
    assert!(!s.contains("zzz"));
    let s = redacted_body_snippet(b"ok \xff end", 100).unwrap();
    assert_eq!(s, "ok \u{fffd} end");
}

#[test]
fn urls_copy_and_parse() {
    let u = redfish::url::HttpUrl::parse("https://h.example.com/a?b=c#d").unwrap();
    let v = u.duplicate();
    assert_eq!(v.as_str(), "https://h.example.com/a?b=c#d");
    assert_eq!(v.path(), "/a");
    assert_eq!(v.query(), Some("b=c"));
    assert!(redfish::url::HttpUrl::parse("not a url").is_err());
}

#[test]
fn redaction_twice_is_redaction_once() {
    let v = JsonValue::from_json_bytes(br#"{"a":{"Password":"p","list":[{"token":"t"}]},"b":1}"#).unwrap();
    let once = redfish::redact::redacted(&v);
    let twice = redfish::redact::redacted(&once);
    assert_eq!(once.to_json_text(), twice.to_json_text());
    assert_eq!(
        once.to_json_text(),
        r#"{"a":{"Password":"<redacted>","list":[{"token":"<redacted>"}]},"b":1}"#
    );
}

#[test]
fn credentials_apply_to_a_map_with_many_names() {
    let mut h = http::HeaderMap::new();
    for i in 0..200 {
        h.insert(http::HeaderName::from_bytes(format!("x-n{}", i).as_bytes()).unwrap(), "v".parse().unwrap());
    }
    Auth::basic("admin", "password").apply_headers(&mut h).unwrap();
    assert_eq!(h.len(), 201);
    Auth::session_token("s3ss").apply_headers(&mut h).unwrap();
    assert_eq!(h.len(), 202);
}

#[test]
fn json_documents_always_print() {
    let v = JsonValue::Object(vec![
        ("b".to_string(), JsonValue::Null),
        ("a".to_string(), JsonValue::Array(vec![JsonValue::Bool(true)])),
    ]);
    assert_eq!(v.to_json_text(), r#"{"a":[true],"b":null}"#);
}

#[test]
fn subscription_headers_form_a_sorted_map() {
    let r = EventSubscriptionCreateRequest::new("https://listener/events").http_headers(vec![
        ("b-name".to_string(), "1".to_string()),
        ("a-name".to_string(), "2".to_string()),
        ("b-name".to_string(), "3".to_string()),
    ]);
    let v = r.to_json();
    let text = v.to_json_text();
    assert!(text.contains(r#""HttpHeaders":{"a-name":"2","b-name":"3"}"#));
    match v {
        JsonValue::Object(members) => {
            let (_, h) = members.iter().find(|(k, _)| k == "HttpHeaders").unwrap();
            match h {
                JsonValue::Object(hs) => {
                    let names: Vec<&str> = hs.iter().map(|(k, _)| k.as_str()).collect();
                    assert_eq!(names, vec!["a-name", "b-name"]);
                }
                _ => panic!("HttpHeaders is not an object"),
            }
        }
        _ => panic!("not an object"),
    }
    let u = EventSubscriptionUpdateRequest::new()
        .http_headers(vec![("z".to_string(), "1".to_string()), ("z".to_string(), "2".to_string())]);
    assert_eq!(parsed(&u.to_json()), json(r#"{"HttpHeaders":{"z":"2"}}"#));
}

#[test]
fn applying_a_query_appends_its_pairs() {
    let u = redfish::url::HttpUrl::parse("https://h:8443/p?a=1+2&b#frag").unwrap();
    let q = ODataQuery::new().select("Id,Name".to_string()).with_pair("x y".to_string(), "&=".to_string());
    let r = q.apply_to_url(u.duplicate());
    let pairs: Vec<(String, String)> = r.query_pairs();
    assert_eq!(
        pairs,
        vec![
            ("a".to_string(), "1 2".to_string()),
            ("b".to_string(), String::new()),
            ("$select".to_string(), "Id,Name".to_string()),
            ("x y".to_string(), "&=".to_string()),
        ]
    );
    assert_eq!(r.path(), "/p");
    assert!(r.as_str().starts_with("https://h:8443/p?"));
    assert!(r.as_str().ends_with("#frag"));
    let same = ODataQuery::new().apply_to_url(u.duplicate());
    assert_eq!(same.query_pairs(), u.query_pairs());
}

#[test]
fn account_setters_keep_the_user_name() {
    let r = AccountCreateRequest::new("operator", "pw").role_id("Admin").enabled(false).role_id("ReadOnly");
    assert_eq!(r.user_name(), "operator");
}

#[test]
fn delays_from_milliseconds() {
    assert_eq!(redfish::retry::Delay::from_millis(1500), redfish::retry::Delay { secs: 1, nanos: 500_000_000 });
    assert_eq!(redfish::retry::Delay::from_secs(3), redfish::retry::Delay { secs: 3, nanos: 0 });
}
