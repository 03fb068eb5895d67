use http::HeaderMap;
use redfish::api::{
    session_login_from, task_wait_step, AccountServiceService, ChassisResourceService,
    EventServiceService, PlannedRequest, ServiceRootService, SessionsService,
    SystemResourceService, SystemsService, TaskServiceService, TaskWait, UpdateServiceService,
};
use redfish::auth::Auth;
use redfish::client::{ClientBase, ClientBuilder};
use redfish::error::ErrorKind;
use redfish::method::Method;
use redfish::odata::ODataQuery;
use redfish::transport::RawResponse;
use redfish::types::{
    AccountCreateRequest, AccountUpdateRequest, Collection, EventSubscriptionUpdateRequest, OdataId,
    ResetType, SimpleUpdateRequest,
};

fn client() -> ClientBase {
    ClientBuilder::new("https://bmc.example.com")
        .unwrap()
        .auth(Auth::session_token("tok"))
        .build()
        .unwrap()
        .base
}

fn json(text: &str) -> serde_json::Value {
    serde_json::from_str(text).unwrap()
}

fn body_text(p: &PlannedRequest) -> String {
    String::from_utf8(p.body.clone().unwrap()).unwrap()
}

#[test]
fn service_root_and_collections() {
    let c = client();
    let p = ServiceRootService::new(&c).get().unwrap();
    assert_eq!(p.method, Method::Get);
    assert_eq!(p.url.as_str(), "https://bmc.example.com/redfish/v1");
    assert_eq!(p.headers.get("x-auth-token").unwrap(), "tok");
    assert!(p.body.is_none());
    let p = SystemsService::new(&c).get("1").unwrap();
    assert_eq!(p.url.as_str(), "https://bmc.example.com/redfish/v1/Systems/1");
}

#[test]
fn delete_account_plans_delete() {
    let c = client();
    let p = AccountServiceService::new(&c).delete_account("7").unwrap();
    assert_eq!(p.method, Method::Delete);
    assert_eq!(p.url.as_str(), "https://bmc.example.com/redfish/v1/AccountService/Accounts/7");
    assert!(p.headers.get("content-type").is_none());
}

#[test]
fn create_account_sends_json() {
    let c = client();
    let req = AccountCreateRequest::new("bob", "pw").role_id("Operator");
    let p = AccountServiceService::new(&c).create_account(&req).unwrap();
    assert_eq!(p.method, Method::Post);
    assert_eq!(p.headers.get("content-type").unwrap(), "application/json");
    let v: serde_json::Value = serde_json::from_str(&body_text(&p)).unwrap();
    assert_eq!(v, json(r#"{"UserName": "bob", "Password": "pw", "RoleId": "Operator"}"#));
}

#[test]
fn empty_updates_are_refused() {
    let c = client();
    let e = AccountServiceService::new(&c)
        .update_account("1", &AccountUpdateRequest::new())
        .err()
        .unwrap();
    assert_eq!(e.kind(), ErrorKind::InvalidConfig);
    assert_eq!(e.message(), "AccountUpdateRequest is empty");
    let e = EventServiceService::new(&c)
        .update_subscription("1", &EventSubscriptionUpdateRequest::new())
        .err()
        .unwrap();
    assert_eq!(e.message(), "EventSubscriptionUpdateRequest is empty");
    let p = AccountServiceService::new(&c)
        .update_account("1", &AccountUpdateRequest::new().locked(false))
        .unwrap();
    assert_eq!(p.method, Method::Patch);
    assert_eq!(body_text(&p), r#"{"Locked":false}"#);
}

#[test]
fn member_services_use_their_id() {
    let c = client();
    let s = SystemResourceService::new(&c, "sys1");
    assert_eq!(s.id(), "sys1");
    let p = s.get_bios().unwrap();
    assert_eq!(p.url.as_str(), "https://bmc.example.com/redfish/v1/Systems/sys1/Bios");
    let p = ChassisResourceService::new(&c, "c1").reset(ResetType::ForceRestart).unwrap();
    assert_eq!(p.url.as_str(), "https://bmc.example.com/redfish/v1/Chassis/c1/Actions/Chassis.Reset");
    assert_eq!(body_text(&p), r#"{"ResetType":"ForceRestart"}"#);
    let p = s.clear_log("Log1").unwrap();
    assert_eq!(body_text(&p), "{}");
}

#[test]
fn log_entries_with_query() {
    let c = client();
    let q = ODataQuery::new().top(5).filter("Severity eq 'Critical'".to_string());
    let p = SystemResourceService::new(&c, "1").list_log_entries("SEL", Some(&q)).unwrap();
    assert_eq!(
        p.url.as_str(),
        "https://bmc.example.com/redfish/v1/Systems/1/LogServices/SEL/Entries?%24top=5&%24filter=Severity+eq+%27Critical%27"
    );
}

#[test]
fn simple_update_body() {
    let c = client();
    let req = SimpleUpdateRequest::new("http://fw/image.bin").targets(vec!["/t/1".to_string()]).force_update(true);
    let p = UpdateServiceService::new(&c).simple_update(&req).unwrap();
    assert_eq!(
        p.url.as_str(),
        "https://bmc.example.com/redfish/v1/UpdateService/Actions/UpdateService.SimpleUpdate"
    );
    let v: serde_json::Value = serde_json::from_str(&body_text(&p)).unwrap();
    assert_eq!(v, json(r#"{"ImageURI": "http://fw/image.bin", "Targets": ["/t/1"], "ForceUpdate": true}"#));
}

#[test]
fn collection_walk_gathers_pages() {
    let c = client();
    let mut walk = AccountServiceService::new(&c).list_accounts_all().unwrap();
    assert_eq!(walk.next_uri(), Some("https://bmc.example.com/redfish/v1/AccountService/Accounts"));
    let p = walk.next_request(&c).unwrap().unwrap();
    assert_eq!(p.url.as_str(), "https://bmc.example.com/redfish/v1/AccountService/Accounts");
    walk.absorb(Collection {
        odata_id: None,
        name: None,
        members: vec![OdataId { odata_id: "/a/1".to_string() }],
        members_count: Some(2),
        members_next_link: None,
        odata_next_link: Some("/a?page=2".to_string()),
    });
    assert_eq!(walk.next_uri(), Some("/a?page=2"));
    walk.absorb(Collection {
        odata_id: None,
        name: None,
        members: vec![OdataId { odata_id: "/a/2".to_string() }],
        members_count: None,
        members_next_link: None,
        odata_next_link: None,
    });
    assert!(walk.is_done());
    assert!(walk.next_request(&c).is_none());
    let ids: Vec<String> = walk.into_members().iter().map(|m| m.as_str().to_string()).collect();
    assert_eq!(ids, vec!["/a/1".to_string(), "/a/2".to_string()]);
    let w = TaskServiceService::new(&c).list_tasks_all().unwrap();
    assert_eq!(w.next_uri(), Some("https://bmc.example.com/redfish/v1/TaskService/Tasks"));
    let w = EventServiceService::new(&c).list_subscriptions_all().unwrap();
    assert_eq!(w.next_uri(), Some("https://bmc.example.com/redfish/v1/EventService/Subscriptions"));
}

#[test]
fn sessions_login_and_logout() {
    let c = client();
    let p = SessionsService::new(&c).create("admin", "pw").unwrap();
    assert_eq!(p.url.as_str(), "https://bmc.example.com/redfish/v1/SessionService/Sessions");
    let v: serde_json::Value = serde_json::from_str(&body_text(&p)).unwrap();
    assert_eq!(v, json(r#"{"UserName": "admin", "Password": "pw"}"#));
    let mut h = HeaderMap::new();
    h.insert("x-auth-token", "secret".parse().unwrap());
    h.insert("location", "/redfish/v1/SessionService/Sessions/9".parse().unwrap());
    let login = session_login_from(&RawResponse { status: 201, headers: h, body: b"{}".to_vec(), error_payload: None }, Some("session")).unwrap();
    assert_eq!(login.location, "/redfish/v1/SessionService/Sessions/9");
    assert_eq!(login.session, Some("session"));
    let p = SessionsService::new(&c).delete(&login.location).unwrap();
    assert_eq!(p.method, Method::Delete);
    assert_eq!(p.url.as_str(), "https://bmc.example.com/redfish/v1/SessionService/Sessions/9");
    let e = session_login_from::<()>(&RawResponse { status: 201, headers: HeaderMap::new(), body: Vec::new(), error_payload: None }, None).unwrap_err();
    assert_eq!(e.kind(), ErrorKind::Auth);
    assert_eq!(e.message(), "Missing X-Auth-Token in session response");
    let mut h = HeaderMap::new();
    h.insert("x-auth-token", "secret".parse().unwrap());
    let e = session_login_from::<()>(&RawResponse { status: 201, headers: h, body: Vec::new(), error_payload: None }, None).unwrap_err();
    assert_eq!(e.message(), "Missing Location in session response");
}

#[test]
fn task_waiting_decisions() {
    assert!(matches!(task_wait_step("/t/1", Some("Completed"), 0, 10), TaskWait::Done));
    assert!(matches!(task_wait_step("/t/1", Some("Running"), 5, 10), TaskWait::PollAgain));
    match task_wait_step("/t/1", None, 10, 10) {
        TaskWait::TimedOut(e) => {
            assert_eq!(e.kind(), ErrorKind::Timeout);
            assert_eq!(e.message(), "Task did not complete within the specified timeout");
            assert_eq!(e.context().unwrap().url(), "/t/1");
        }
        _ => panic!("expected a timeout"),
    }
}

#[test]
fn request_json_value_escape_hatch() {
    let c = client();
    let body = redfish::json::JsonValue::Bool(true);
    let p = c.request_json_value(Method::Post, "/redfish/v1/Oem/X", Some(&body)).unwrap();
    assert_eq!(p.url.as_str(), "https://bmc.example.com/redfish/v1/Oem/X");
    assert_eq!(body.to_json_text(), "true");
    assert_eq!(body_text(&p), "true");
    let e = c.get_uri("   ").err().unwrap();
    assert_eq!(e.message(), "URI cannot be empty");
}

#[test]
fn login_keeps_the_decoded_session_of_a_nonempty_body() {
    let login_with = |body: &[u8], decoded: Option<&'static str>| {
        let mut h = HeaderMap::new();
        h.insert("x-auth-token", "secret".parse().unwrap());
        h.insert("location", "/redfish/v1/SessionService/Sessions/9".parse().unwrap());
        session_login_from(&RawResponse { status: 201, headers: h, body: body.to_vec(), error_payload: None }, decoded)
            .unwrap()
    };
    assert_eq!(login_with(b"[]", None).session, None);
    assert_eq!(login_with(b"", Some("s")).session, None);
    let s = login_with(br#"{"Id": "9"}"#, Some("s"));
    assert_eq!(s.session, Some("s"));
    assert_eq!(s.location, "/redfish/v1/SessionService/Sessions/9");
}

#[test]
fn logout_plans_one_delete_for_a_full_client() {
    let mut b = ClientBuilder::new("https://bmc.example.com").unwrap().auth(Auth::session_token("tok"));
    for i in 0..50 {
        b = b.default_header(&format!("x-extra-{}", i), b"v").unwrap();
    }
    let c = b.build().unwrap().base;
    let p = SessionsService::new(&c).delete("https://other.example.com/redfish/v1/SessionService/Sessions/1").unwrap();
    assert_eq!(p.method, Method::Delete);
    assert_eq!(p.url.as_str(), "https://other.example.com/redfish/v1/SessionService/Sessions/1");
    assert_eq!(p.headers.get("x-auth-token").unwrap(), "tok");
    assert_eq!(p.headers.get("x-extra-49").unwrap(), "v");
}

#[test]
fn walks_start_under_the_configured_root() {
    let c = ClientBuilder::new("https://bmc.example.com")
        .unwrap()
        .redfish_root_path("/custom/root")
        .unwrap()
        .build()
        .unwrap()
        .base;
    let w = EventServiceService::new(&c).list_subscriptions_all().unwrap();
    assert_eq!(w.next_uri(), Some("https://bmc.example.com/custom/root/EventService/Subscriptions"));
    let p = EventServiceService::new(&c).list_subscriptions().unwrap();
    assert_eq!(Some(p.url.as_str()), w.next_uri());
}

#[test]
fn request_bodies_keep_their_field_order() {
    let c = client();
    let req = AccountCreateRequest::new("zed", "pw").role_id("Operator").enabled(true);
    let p = AccountServiceService::new(&c).create_account(&req).unwrap();
    assert_eq!(body_text(&p), r#"{"UserName":"zed","Password":"pw","RoleId":"Operator","Enabled":true}"#);
    let nested = redfish::json::JsonValue::Object(vec![
        ("b".to_string(), redfish::json::JsonValue::Array(vec![redfish::json::JsonValue::String("q\"".to_string())])),
        ("a".to_string(), redfish::json::JsonValue::Object(Vec::new())),
    ]);
    assert_eq!(nested.to_ordered_json_text(), r#"{"b":["q\""],"a":{}}"#);
    assert_eq!(nested.to_json_text(), r#"{"a":{},"b":["q\""]}"#);
}
