use http::HeaderMap;
use redfish::error::ErrorKind;
use redfish::json::JsonValue;
use redfish::method::Method;
use redfish::retry::RetryPolicy;
use redfish::transport::{
    backoff_for_retry, classify_http_error_at, decode_failure, decode_json_value,
    extract_redfish_error_message, extract_request_id, finish_response_at, map_transport_failure_at,
    next_retry, step_after_failure, step_after_response, transport_retry, ActionResponse,
    AttemptOutcome, AttemptStep, ExtendedInfo, RawResponse, RedfishErrorBody, TransportFailure,
};
use redfish::retry::{Delay, UnixTime};
use redfish::url::normalize_base_url;

fn url() -> redfish::url::HttpUrl {
    let b = normalize_base_url("https://bmc.example.com").unwrap();
    redfish::url::resolve_uri(&b, "/redfish/v1/Systems").unwrap()
}

fn t0() -> UnixTime {
    UnixTime { secs: 0, nanos: 0 }
}

fn text(s: &str) -> Option<String> {
    Some(s.to_string())
}

fn body(code: Option<String>, message: Option<String>, info: Option<Vec<ExtendedInfo>>) -> Option<RedfishErrorBody> {
    Some(RedfishErrorBody { code, message, extended_info: info })
}

fn headers(pairs: &[(&str, &str)]) -> HeaderMap {
    let mut h = HeaderMap::new();
    for (k, v) in pairs {
        h.insert(
            http::HeaderName::from_bytes(k.as_bytes()).unwrap(),
            http::HeaderValue::from_str(v).unwrap(),
        );
    }
    h
}

#[test]
fn request_id_takes_first_nonblank_candidate() {
    let h = headers(&[("x-request-id", "   "), ("x-correlation-id", "  abc-123 "), ("trace-id", "t")]);
    assert_eq!(extract_request_id(&h).as_deref(), Some("abc-123"));
    let h = headers(&[("trace-id", "t9")]);
    assert_eq!(extract_request_id(&h).as_deref(), Some("t9"));
    assert_eq!(extract_request_id(&HeaderMap::new()), None);
}

#[test]
fn redfish_error_message_joins_parts() {
    let payload = body(
        text("Base.1.8.GeneralError"),
        text(" A general error "),
        Some(vec![ExtendedInfo {
            message_id: text("Base.1.8.PropertyMissing"),
            message: text("The property is missing."),
            resolution: text("Add it."),
        }]),
    );
    assert_eq!(
        extract_redfish_error_message(&payload).as_deref(),
        Some("Base.1.8.GeneralError: A general error: message-id=Base.1.8.PropertyMissing: The property is missing.: resolution=Add it.")
    );
}

#[test]
fn redfish_error_message_absent_cases() {
    assert_eq!(extract_redfish_error_message(&None), None);
    assert_eq!(extract_redfish_error_message(&body(None, None, None)), None);
    assert_eq!(extract_redfish_error_message(&body(text("  "), None, None)), None);
    assert_eq!(extract_redfish_error_message(&body(None, text(" \t"), Some(Vec::new()))), None);
    assert_eq!(extract_redfish_error_message(&body(None, text("only"), None)).as_deref(), Some("only"));
}

#[test]
fn redfish_error_message_trims_all_but_the_code() {
    let info = ExtendedInfo { message_id: text(" id "), message: None, resolution: text("  ") };
    let second = ExtendedInfo { message_id: text("ignored"), message: None, resolution: None };
    assert_eq!(
        extract_redfish_error_message(&body(text(" X "), None, Some(vec![info, second]))).as_deref(),
        Some(" X : message-id=id")
    );
}

#[test]
fn unauthorized_becomes_auth_error() {
    let resp = RawResponse {
        status: 401,
        headers: headers(&[("x-request-id", "rid"), ("retry-after", "5")]),
        body: br#"{"error":{"message":"Denied","password":"x"}}"#.to_vec(),
        error_payload: body(None, text("Denied"), None),
    };
    let e = classify_http_error_at(&Method::Get, &url(), &resp, 8192, t0());
    assert_eq!(e.kind(), ErrorKind::Auth);
    assert_eq!(e.status(), Some(401));
    assert_eq!(e.message(), "Denied");
    assert_eq!(e.request_id(), Some("rid"));
    assert_eq!(e.retry_after(), None);
    assert_eq!(e.context().unwrap().url(), "https://bmc.example.com/redfish/v1/Systems");
    let snippet = e.body_snippet().unwrap();
    assert!(snippet.contains("<redacted>"));
    assert!(!snippet.contains("\"x\""));
}

#[test]
fn server_error_becomes_api_error_with_retry_after() {
    let resp = RawResponse { status: 503, headers: headers(&[("retry-after", "7")]), body: Vec::new(), error_payload: None };
    let e = classify_http_error_at(&Method::Delete, &url(), &resp, 8192, t0());
    assert_eq!(e.kind(), ErrorKind::Api);
    assert_eq!(e.message(), "Redfish API returned HTTP 503");
    assert_eq!(e.retry_after(), Some(Delay { secs: 7, nanos: 0 }));
    assert_eq!(e.body_snippet(), None);
    assert!(e.is_retryable());
    assert_eq!(
        e.to_display_string(),
        "Redfish API returned HTTP 503 (status 503, DELETE https://bmc.example.com/redfish/v1/Systems)"
    );
}

#[test]
fn finish_response_passes_success() {
    let ok = RawResponse { status: 204, headers: HeaderMap::new(), body: Vec::new(), error_payload: None };
    assert!(finish_response_at(&Method::Get, &url(), ok, 100, t0()).is_ok());
    let bad = RawResponse { status: 404, headers: HeaderMap::new(), body: Vec::new(), error_payload: None };
    let e = finish_response_at(&Method::Get, &url(), bad, 100, t0()).unwrap_err();
    assert_eq!(e.status(), Some(404));
    assert!(!e.is_retryable());
}

#[test]
fn transport_failures_map_to_kinds() {
    let e = map_transport_failure_at(&Method::Get, &url(), TransportFailure::TimedOut("slow".to_string()), 8192, t0());
    assert_eq!(e.kind(), ErrorKind::Timeout);
    assert_eq!(e.message(), "Request timed out");
    assert_eq!(e.source_text(), Some("slow"));
    let e = map_transport_failure_at(&Method::Get, &url(), TransportFailure::Config("bad proxy".to_string()), 8192, t0());
    assert_eq!(e.kind(), ErrorKind::InvalidConfig);
    assert_eq!(e.message(), "HTTP client configuration error: bad proxy");
    let e = map_transport_failure_at(&Method::Get, &url(), TransportFailure::Other("reset".to_string()), 8192, t0());
    assert_eq!(e.kind(), ErrorKind::Transport);
    assert_eq!(e.message(), "Transport error");
    let raw = RawResponse { status: 429, headers: HeaderMap::new(), body: Vec::new(), error_payload: None };
    let e = map_transport_failure_at(&Method::Get, &url(), TransportFailure::Status(raw), 8192, t0());
    assert_eq!(e.kind(), ErrorKind::Api);
    assert_eq!(e.status(), Some(429));
}

#[test]
fn retry_settings_follow_policy() {
    let p = RetryPolicy::new().with_base_delay(0).with_max_delay(0).with_max_retries(2);
    let r = transport_retry(&p);
    assert_eq!(r.max_attempts, 3);
    assert_eq!(r.base_backoff_ms, 1);
    assert_eq!(r.max_backoff_ms, 1);
    assert_eq!(r.retryable_statuses, vec![429, 502, 503, 504]);
    let p = RetryPolicy::new().with_max_retries(usize::MAX);
    assert_eq!(transport_retry(&p).max_attempts, usize::MAX);
}

#[test]
fn retry_decisions() {
    let p = RetryPolicy::new().with_jitter(false);
    assert_eq!(next_retry(&p, &Method::Get, 1, &AttemptOutcome::Status(503)), Some(200));
    assert_eq!(next_retry(&p, &Method::Get, 2, &AttemptOutcome::TimedOut), Some(400));
    assert_eq!(next_retry(&p, &Method::Get, 3, &AttemptOutcome::Failed), Some(800));
    assert_eq!(next_retry(&p, &Method::Get, 4, &AttemptOutcome::Failed), None);
    assert_eq!(next_retry(&p, &Method::Get, 1, &AttemptOutcome::Status(500)), None);
    assert_eq!(next_retry(&p, &Method::Post, 1, &AttemptOutcome::Status(503)), None);
    assert_eq!(backoff_for_retry(&p, 0), 200);
    let j = RetryPolicy::new();
    assert!(backoff_for_retry(&j, 3) < 800);
}

#[test]
fn decode_helpers() {
    let v = decode_json_value(&Method::Get, &url(), b"", 100).unwrap();
    assert!(matches!(v, JsonValue::Null));
    let v = decode_json_value(&Method::Get, &url(), br#"{"a":true}"#, 100).unwrap();
    assert!(matches!(v, JsonValue::Object(_)));
    let e = decode_json_value(&Method::Get, &url(), b"{oops", 100).unwrap_err();
    assert_eq!(e.kind(), ErrorKind::Decode);
    assert!(e.message().starts_with("Failed to decode JSON response: "));
    assert_eq!(e.body_snippet(), Some("{oops"));
    let e = decode_failure(&Method::Post, &url(), b"x", 0, "missing field".to_string());
    assert_eq!(e.message(), "Failed to decode JSON response: missing field");
    assert_eq!(e.body_snippet(), None);
}

#[test]
fn action_response_reads_location_and_body() {
    let raw = RawResponse {
        status: 202,
        headers: headers(&[("location", "/redfish/v1/TaskService/Tasks/1"), ("retry-after", "3")]),
        body: br#"{"Id":"1"}"#.to_vec(),
        error_payload: None,
    };
    let a = ActionResponse::from_raw_json_at(&Method::Post, &url(), raw, 100, t0()).unwrap();
    assert_eq!(a.status, 202);
    assert_eq!(a.location.as_deref(), Some("/redfish/v1/TaskService/Tasks/1"));
    assert_eq!(a.retry_after, Some(Delay { secs: 3, nanos: 0 }));
    assert!(a.body.is_some());
    let raw = RawResponse { status: 200, headers: HeaderMap::new(), body: b"<html>".to_vec(), error_payload: None };
    let e = ActionResponse::from_raw_json_at(&Method::Post, &url(), raw, 100, t0()).unwrap_err();
    assert_eq!(e.kind(), ErrorKind::Decode);
}

#[test]
fn attempt_steps() {
    let p = RetryPolicy::new().with_jitter(false);
    let ok = RawResponse { status: 200, headers: HeaderMap::new(), body: b"{}".to_vec(), error_payload: None };
    assert!(matches!(step_after_response(&p, &Method::Get, &url(), 1, ok, 100, t0()), AttemptStep::Finished(Ok(_))));
    let busy = RawResponse { status: 503, headers: headers(&[("retry-after", "2")]), body: Vec::new(), error_payload: None };
    assert!(matches!(step_after_response(&p, &Method::Get, &url(), 1, busy, 100, t0()), AttemptStep::RetryAfter(Delay { secs: 2, nanos: 0 })));
    let busy = RawResponse { status: 503, headers: HeaderMap::new(), body: Vec::new(), error_payload: None };
    assert!(matches!(step_after_response(&p, &Method::Get, &url(), 2, busy, 100, t0()), AttemptStep::RetryAfter(Delay { secs: 0, nanos: 400_000_000 })));
    let busy = RawResponse { status: 503, headers: HeaderMap::new(), body: Vec::new(), error_payload: None };
    match step_after_response(&p, &Method::Post, &url(), 1, busy, 100, t0()) {
        AttemptStep::Finished(Err(e)) => assert_eq!(e.status(), Some(503)),
        other => panic!("unexpected step {:?}", other),
    }
    let slow = TransportFailure::TimedOut("t".to_string());
    assert!(matches!(step_after_failure(&p, &Method::Get, &url(), 1, slow, 100, t0()), AttemptStep::RetryAfter(Delay { secs: 0, nanos: 200_000_000 })));
    let conf = TransportFailure::Config("c".to_string());
    match step_after_failure(&p, &Method::Get, &url(), 1, conf, 100, t0()) {
        AttemptStep::Finished(Err(e)) => assert_eq!(e.kind(), ErrorKind::InvalidConfig),
        other => panic!("unexpected step {:?}", other),
    }
    let slow = TransportFailure::TimedOut("t".to_string());
    match step_after_failure(&p, &Method::Get, &url(), 4, slow, 100, t0()) {
        AttemptStep::Finished(Err(e)) => assert_eq!(e.kind(), ErrorKind::Timeout),
        other => panic!("unexpected step {:?}", other),
    }
}

#[test]
fn status_failures_use_the_configured_snippet_limit() {
    let raw = RawResponse { status: 500, headers: HeaderMap::new(), body: b"0123456789".to_vec(), error_payload: None };
    let e = map_transport_failure_at(&Method::Get, &url(), TransportFailure::Status(raw), 0, t0());
    assert_eq!(e.body_snippet(), None);
    let raw = RawResponse { status: 500, headers: HeaderMap::new(), body: b"0123456789".to_vec(), error_payload: None };
    let e = map_transport_failure_at(&Method::Get, &url(), TransportFailure::Status(raw), 4, t0());
    assert!(e.body_snippet().is_some());
}

#[test]
fn backoff_wait_without_retry_after() {
    let p = RetryPolicy::new().with_jitter(true);
    for _ in 0..20 {
        let busy = RawResponse { status: 503, headers: HeaderMap::new(), body: Vec::new(), error_payload: None };
        match step_after_response(&p, &Method::Get, &url(), 2, busy, 100, t0()) {
            AttemptStep::RetryAfter(d) => assert!(d.secs == 0 && d.nanos < 400_000_000 && d.nanos % 1_000_000 == 0),
            other => panic!("unexpected step {:?}", other),
        }
    }
}
