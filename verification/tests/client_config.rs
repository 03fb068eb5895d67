use redfish::auth::Auth;
use redfish::client::{parse_root_path, split_path, ClientBuilder, DEFAULT_BODY_SNIPPET_LIMIT};
use redfish::error::ErrorKind;
use redfish::retry::RetryPolicy;
use redfish::url::{join_segments, normalize_base_url, resolve_uri};

fn base() -> redfish::client::ClientBase {
    ClientBuilder::new("https://bmc.example.com").unwrap().build().unwrap().base
}

#[test]
fn base_url_gets_scheme_and_trailing_slash() {
    let u = normalize_base_url("  bmc.example.com  ").unwrap();
    assert_eq!(u.as_str(), "https://bmc.example.com/");
    let u = normalize_base_url("http://10.0.0.1:8000/prefix?x=1#frag").unwrap();
    assert_eq!(u.as_str(), "http://10.0.0.1:8000/prefix/");
}

#[test]
fn base_url_errors() {
    let e = normalize_base_url("   ").unwrap_err();
    assert_eq!(e.kind(), ErrorKind::InvalidConfig);
    assert_eq!(e.message(), "Base URL cannot be empty");
    let e = normalize_base_url("ftp://bmc.example.com").unwrap_err();
    assert_eq!(e.message(), "Unsupported URL scheme 'ftp' in base URL");
    let e = normalize_base_url("https://user:pw@bmc.example.com").unwrap_err();
    assert_eq!(e.message(), "Base URL must not include embedded credentials (userinfo)");
    let e = normalize_base_url("https://").unwrap_err();
    assert!(e.message().starts_with("Invalid base URL 'https://': "));
}

#[test]
fn join_segments_cleans_slashes_and_skips_empty() {
    let b = normalize_base_url("https://bmc.example.com").unwrap();
    let u = join_segments(&b, &["redfish", "/v1/", "", "Systems"]).unwrap();
    assert_eq!(u.as_str(), "https://bmc.example.com/redfish/v1/Systems");
}

#[test]
fn resolve_relative_and_absolute() {
    let b = normalize_base_url("https://bmc.example.com").unwrap();
    let u = resolve_uri(&b, "/redfish/v1/Systems/1").unwrap();
    assert_eq!(u.as_str(), "https://bmc.example.com/redfish/v1/Systems/1");
    let u = resolve_uri(&b, "https://other.example.com/x").unwrap();
    assert_eq!(u.as_str(), "https://other.example.com/x");
    let e = resolve_uri(&b, "  ").unwrap_err();
    assert_eq!(e.message(), "URI cannot be empty");
}

#[test]
fn root_path_parsing() {
    let v = parse_root_path(" /redfish/v1/ ").unwrap();
    assert_eq!(v, vec!["redfish".to_string(), "v1".to_string()]);
    let v = parse_root_path("a//b///c").unwrap();
    assert_eq!(v, vec!["a".to_string(), "b".to_string(), "c".to_string()]);
    let e = parse_root_path(" /// ").unwrap_err();
    assert_eq!(e.kind(), ErrorKind::InvalidConfig);
    assert_eq!(e.message(), "redfish_root_path cannot be empty");
}

#[test]
fn split_path_drops_empty_pieces() {
    let chars: Vec<char> = "/x//y/".chars().collect();
    assert_eq!(split_path(&chars), vec!["x".to_string(), "y".to_string()]);
    let chars: Vec<char> = "".chars().collect();
    assert!(split_path(&chars).is_empty());
}

#[test]
fn builder_defaults_and_build() {
    let parts = ClientBuilder::new("bmc.example.com").unwrap().build().unwrap();
    assert_eq!(parts.transport.timeout_ms, 30000);
    assert_eq!(parts.transport.connect_timeout_ms, 10000);
    assert_eq!(parts.transport.user_agent, "redfish/0.3.0");
    assert_eq!(parts.transport.body_snippet_limit, DEFAULT_BODY_SNIPPET_LIMIT);
    assert_eq!(parts.transport.retry.max_retries(), 3);
    assert!(!parts.transport.danger_accept_invalid_certs);
    assert_eq!(
        parts.transport.default_headers.get("accept").unwrap().to_str().unwrap(),
        "application/json"
    );
    assert_eq!(parts.base.base_url().as_str(), "https://bmc.example.com/");
    let u = parts.base.redfish_url(&["Systems"]).unwrap();
    assert_eq!(u.as_str(), "https://bmc.example.com/redfish/v1/Systems");
}

#[test]
fn builder_settings_are_kept() {
    let parts = ClientBuilder::new("https://bmc.example.com")
        .unwrap()
        .redfish_root_path("/custom/root/")
        .unwrap()
        .timeout(5000)
        .connect_timeout(1000)
        .retry_policy(RetryPolicy::new().with_max_retries(0))
        .body_snippet_limit(0)
        .user_agent("tester/1")
        .danger_accept_invalid_certs(true)
        .danger_accept_invalid_hostnames(true)
        .default_header("accept", b"application/xml")
        .unwrap()
        .build()
        .unwrap();
    assert_eq!(parts.transport.timeout_ms, 5000);
    assert_eq!(parts.transport.connect_timeout_ms, 1000);
    assert_eq!(parts.transport.user_agent, "tester/1");
    assert_eq!(parts.transport.retry.max_retries(), 0);
    assert!(parts.transport.danger_accept_invalid_certs);
    assert!(parts.transport.danger_accept_invalid_hostnames);
    assert_eq!(parts.base.body_snippet_limit(), 0);
    assert_eq!(
        parts.transport.default_headers.get("accept").unwrap().to_str().unwrap(),
        "application/xml"
    );
    let u = parts.base.redfish_url(&["Managers", "1"]).unwrap();
    assert_eq!(u.as_str(), "https://bmc.example.com/custom/root/Managers/1");
}

#[test]
fn default_header_refusals() {
    let b = ClientBuilder::new("https://bmc.example.com").unwrap();
    let e = b.default_header("bad name", b"v").err().unwrap();
    assert_eq!(e.message(), "Invalid default header name");
    let b = ClientBuilder::new("https://bmc.example.com").unwrap();
    let e = b.default_header("x-ok", b"line\nbreak").err().unwrap();
    assert_eq!(e.message(), "Invalid default header value");
}

#[test]
fn request_headers_accept_content_type_and_auth() {
    let parts = ClientBuilder::new("https://bmc.example.com")
        .unwrap()
        .auth(Auth::basic("admin", "password"))
        .build()
        .unwrap();
    let h = parts.base.build_headers(true).unwrap();
    assert_eq!(h.get("accept").unwrap(), "application/json");
    assert_eq!(h.get("content-type").unwrap(), "application/json");
    assert_eq!(h.get("authorization").unwrap(), "Basic YWRtaW46cGFzc3dvcmQ=");
    let h = base().build_headers(false).unwrap();
    assert!(h.get("content-type").is_none());
    assert!(h.get("authorization").is_none());
}

#[test]
fn bad_token_fails_header_building() {
    let parts = ClientBuilder::new("https://bmc.example.com")
        .unwrap()
        .auth(Auth::bearer("abc\ndef"))
        .build()
        .unwrap();
    let e = parts.base.build_headers(false).unwrap_err();
    assert_eq!(e.kind(), ErrorKind::InvalidConfig);
    assert_eq!(e.message(), "Invalid bearer token for header: failed to parse header value");
}

#[test]
fn long_base_urls_are_accepted() {
    let long = format!("https://bmc.example.com/{}", "a".repeat(200_000));
    let u = normalize_base_url(&long).unwrap();
    assert!(u.as_str().ends_with("a/"));
    assert_eq!(u.as_str().len(), long.len() + 1);
    let segs = ["x".repeat(100_000)];
    let seg_refs: Vec<&str> = segs.iter().map(|s| s.as_str()).collect();
    let j = join_segments(&u, &seg_refs).unwrap();
    assert!(j.as_str().starts_with(&long));
    assert!(j.as_str().ends_with(&segs[0]));
}

#[test]
fn normalizing_a_normalized_url_gives_it_back() {
    for input in ["bmc.example.com", "http://10.0.0.1:8000/prefix?x=1#frag", "https://h/a/../b", "https://H/%7e/"] {
        let u = normalize_base_url(input).unwrap();
        let again = normalize_base_url(u.as_str()).unwrap();
        assert_eq!(again.as_str(), u.as_str());
        assert!(u.query().is_none());
        assert!(u.path().ends_with('/'));
    }
}
