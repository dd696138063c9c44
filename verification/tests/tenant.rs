//! Tenants, their IDs and tokens, and the requests to the store.
use houston_cloud::clock::Timestamp;
use houston_cloud::hex;
use houston_cloud::json::Json;
use houston_cloud::store::{
    create_outcome, created, find_outcome, found, idle, idle_outcome, is_success, send_ok, HttpReply,
    Method, TenantStore,
};
use houston_cloud::tenant::{
    engine_token_from, generate_engine_token, generate_tenant_id, tenant_id_from, Tenant,
    TenantStatus, IDLE_TIMEOUT,
};
use serde_json::Value;

fn to_value(json: &Json) -> Value {
    match json {
        Json::Bool(b) => Value::from(*b),
        Json::Int(i) => Value::from(*i),
        Json::Text(s) => Value::from(s.as_str()),
        Json::List(items) => Value::Array(items.iter().map(to_value).collect()),
        Json::Object(fields) => {
            let mut map = serde_json::Map::new();
            for (key, value) in fields {
                map.insert(key.clone(), to_value(value));
            }
            Value::Object(map)
        }
    }
}

fn tenant(tenant_id: &str, status: TenantStatus) -> Tenant {
    Tenant {
        id: "1".to_string(),
        user_id: "u".to_string(),
        tenant_id: tenant_id.to_string(),
        engine_token: "token".to_string(),
        status,
    }
}

fn pairs(list: &[(String, String)]) -> Vec<(&str, &str)> {
    list.iter().map(|(a, b)| (a.as_str(), b.as_str())).collect()
}

const AUTH: [(&str, &str); 2] = [("apikey", "service-key"), ("Authorization", "Bearer service-key")];

#[test]
fn tenant_id_format() {
    let id = generate_tenant_id();
    assert!(id.starts_with("t-"), "should start with t-: {id}");
    assert_eq!(id.len(), 10, "t- + 8 hex chars: {id}");
    // All chars after "t-" should be hex
    assert!(id[2..].chars().all(|c| c.is_ascii_hexdigit()));
}

#[test]
fn engine_token_length() {
    let token = generate_engine_token();
    assert_eq!(token.len(), 48);
    assert!(token.chars().all(|c| c.is_ascii_alphanumeric()));
}

#[test]
fn tenant_id_uniqueness() {
    let a = generate_tenant_id();
    let b = generate_tenant_id();
    assert_ne!(a, b, "two generated IDs should differ");
}

#[test]
fn tenant_status_display() {
    assert_eq!(TenantStatus::Pending.to_string(), "pending");
    assert_eq!(TenantStatus::Provisioning.to_string(), "provisioning");
    assert_eq!(TenantStatus::Ready.to_string(), "ready");
    assert_eq!(TenantStatus::Error.to_string(), "error");
    assert_eq!(TenantStatus::Suspended.to_string(), "suspended");
}

#[test]
fn idle_duration_is_one_hour() {
    assert_eq!(IDLE_TIMEOUT, 3600);
}

#[test]
fn tenant_status_serde_roundtrip() {
    let json = serde_json::to_string(&to_value(&Json::Text(TenantStatus::Ready.to_string()))).unwrap();
    assert_eq!(json, "\"ready\"");
    let name: String = serde_json::from_str(&json).unwrap();
    let back = TenantStatus::from_name(&name).unwrap();
    assert_eq!(back, TenantStatus::Ready);
}

#[test]
fn every_status_is_read_back() {
    for status in [
        TenantStatus::Pending,
        TenantStatus::Provisioning,
        TenantStatus::Ready,
        TenantStatus::Error,
        TenantStatus::Suspended,
    ] {
        assert_eq!(TenantStatus::from_name(&status.to_string()), Some(status));
    }
    assert_eq!(TenantStatus::from_name("Ready"), None);
    assert_eq!(TenantStatus::from_name(""), None);
}

#[test]
fn hexadecimal_text() {
    assert_eq!(hex::encode(&[]), "");
    assert_eq!(hex::encode(&[0x00, 0x0f, 0xa0, 0xff, 0x9a]), "000fa0ff9a");
}

#[test]
fn tenant_id_from_bytes() {
    assert_eq!(tenant_id_from([0xab, 0xc1, 0x23, 0x45]), "t-abc12345");
    assert_eq!(tenant_id_from([0, 0, 0, 1]), "t-00000001");
}

#[test]
fn engine_token_from_draws() {
    assert_eq!(engine_token_from(&b"aZ09".to_vec()), "aZ09");
    assert_eq!(engine_token_from(&vec![]), "");
}

#[test]
fn tokens_differ() {
    assert_ne!(generate_engine_token(), generate_engine_token());
}

#[test]
fn store_trims_the_url() {
    let store = TenantStore::new("https://example.supabase.co//", "service-key");
    assert_eq!(store.base_url, "https://example.supabase.co/rest/v1");
    assert_eq!(store.service_key, "service-key");
}

#[test]
fn lookup_request() {
    let store = TenantStore::new("https://example.supabase.co", "service-key");
    let request = store.find_by_user("user-1");
    assert_eq!(request.context, "find_by_user");
    assert_eq!(request.method, Method::Get);
    assert_eq!(request.url, "https://example.supabase.co/rest/v1/tenants");
    assert_eq!(pairs(&request.query), [("user_id", "eq.user-1"), ("select", "*")]);
    assert_eq!(pairs(&request.headers), AUTH);
    assert!(request.body.is_none());
}

#[test]
fn insert_request() {
    let store = TenantStore::new("https://example.supabase.co", "service-key");
    let request = store.create_with("user-1", "t-00000001", "secret");
    assert_eq!(request.context, "insert");
    assert_eq!(request.method, Method::Post);
    assert!(request.query.is_empty());
    assert_eq!(
        pairs(&request.headers),
        [("Prefer", "return=representation"), AUTH[0], AUTH[1]]
    );
    assert_eq!(
        to_value(&request.body.unwrap()).to_string(),
        r#"{"engine_token":"secret","status":"provisioning","tenant_id":"t-00000001","user_id":"user-1"}"#
    );
}

#[test]
fn insert_request_draws_id_and_token() {
    let store = TenantStore::new("https://example.supabase.co", "service-key");
    let request = store.create("user-1");
    let body = to_value(&request.body.unwrap());
    assert_eq!(body["user_id"], "user-1");
    assert_eq!(body["tenant_id"].as_str().unwrap().len(), 10);
    assert_eq!(body["engine_token"].as_str().unwrap().len(), 48);
    let other = to_value(&store.create("user-1").body.unwrap());
    assert_ne!(body["engine_token"], other["engine_token"]);
}

#[test]
fn status_request() {
    let store = TenantStore::new("https://example.supabase.co", "service-key");
    let request = store.update_status("t-1", TenantStatus::Suspended);
    assert_eq!(request.context, "update_status");
    assert_eq!(request.method, Method::Patch);
    assert_eq!(pairs(&request.query), [("tenant_id", "eq.t-1")]);
    assert_eq!(pairs(&request.headers), AUTH);
    assert_eq!(to_value(&request.body.unwrap()).to_string(), r#"{"status":"suspended"}"#);
}

#[test]
fn activity_request() {
    let store = TenantStore::new("https://example.supabase.co", "service-key");
    let instant = Timestamp { secs: 1_700_000_000, nanos: 0 };
    let request = store.touch_last_active_at("t-1", instant);
    assert_eq!(request.context, "touch_last_active");
    assert_eq!(request.method, Method::Patch);
    assert_eq!(
        to_value(&request.body.unwrap()).to_string(),
        r#"{"last_active_at":"2023-11-14T22:13:20+00:00"}"#
    );
    let now = to_value(&store.touch_last_active("t-1").body.unwrap());
    let text = now["last_active_at"].as_str().unwrap();
    let parsed = chrono::DateTime::parse_from_rfc3339(text).unwrap();
    let age = chrono::Utc::now().timestamp() - parsed.timestamp();
    assert!((0..60).contains(&age), "{text}");
}

#[test]
fn idle_request() {
    let store = TenantStore::new("https://example.supabase.co", "service-key");
    let now = Timestamp { secs: 1_700_003_600, nanos: 250_000_000 };
    let request = store.find_idle_tenants_at(now, 3600).unwrap();
    assert_eq!(request.context, "find_idle");
    assert_eq!(request.method, Method::Get);
    assert_eq!(
        pairs(&request.query),
        [
            ("status", "eq.ready"),
            ("last_active_at", "lt.2023-11-14T22:13:20.250+00:00"),
            ("select", "*"),
        ]
    );
    assert!(request.body.is_none());
    assert!(store.find_idle_tenants(IDLE_TIMEOUT).is_some());
    assert!(store.find_idle_tenants_at(now, i64::MAX as u64).is_none());
}

#[test]
fn delete_request() {
    let store = TenantStore::new("https://example.supabase.co", "service-key");
    let request = store.delete("t-1");
    assert_eq!(request.context, "delete");
    assert_eq!(request.method, Method::Delete);
    assert_eq!(pairs(&request.query), [("tenant_id", "eq.t-1")]);
    assert!(request.body.is_none());
}

#[test]
fn instants_before_others() {
    let t = Timestamp { secs: 100, nanos: 5 };
    assert_eq!(t.earlier(40), Some(Timestamp { secs: 60, nanos: 5 }));
    assert_eq!(t.earlier(-40), Some(Timestamp { secs: 140, nanos: 5 }));
    assert_eq!(t.earlier(i64::MIN), None);
    assert_eq!(Timestamp { secs: 0, nanos: 0 }.to_rfc3339(), "1970-01-01T00:00:00+00:00");
}

#[test]
fn statuses_that_succeed() {
    assert!(is_success(200) && is_success(204) && is_success(299));
    assert!(!is_success(199) && !is_success(300) && !is_success(404));
}

#[test]
fn store_replies() {
    let body = |status: u16| HttpReply::Answered { status, body: "text".to_string() };
    assert_eq!(send_ok("insert", body(201)), Ok(()));
    assert_eq!(send_ok("insert", body(409)).unwrap_err(), "Supabase insert error: text");
    assert_eq!(
        send_ok("delete", HttpReply::Unsent("no route".to_string())).unwrap_err(),
        "Supabase delete failed: no route"
    );
}

#[test]
fn rows_count_only_where_the_request_succeeded() {
    let rows = || Ok(vec![tenant("t-1", TenantStatus::Ready)]);
    let reply = |status: u16| HttpReply::Answered { status, body: "text".to_string() };
    let expected = tenant("t-1", TenantStatus::Ready);
    assert_eq!(find_outcome(reply(200), rows()).unwrap(), Some(expected.clone()));
    assert_eq!(
        find_outcome(reply(500), rows()).unwrap_err(),
        "Supabase find_by_user error: text"
    );
    assert_eq!(
        find_outcome(reply(200), Err("e".to_string())).unwrap_err(),
        "Failed to parse tenant response: e"
    );
    assert_eq!(create_outcome(reply(201), rows()).unwrap(), expected);
    assert_eq!(create_outcome(reply(409), rows()).unwrap_err(), "Supabase insert error: text");
    assert_eq!(
        create_outcome(reply(201), Ok(vec![])).unwrap_err(),
        "No tenant returned after insert"
    );
    assert_eq!(idle_outcome(reply(200), rows()).unwrap(), [expected]);
    let unsent = HttpReply::Unsent("no route".to_string());
    assert_eq!(
        idle_outcome(unsent, rows()).unwrap_err(),
        "Supabase find_idle failed: no route"
    );
}

#[test]
fn store_rows() {
    let rows = || vec![tenant("t-1", TenantStatus::Ready), tenant("t-2", TenantStatus::Error)];
    let none: Vec<Tenant> = vec![];
    assert_eq!(found(Ok(rows())).unwrap(), Some(tenant("t-1", TenantStatus::Ready)));
    assert_eq!(found(Ok(vec![])).unwrap(), None);
    assert_eq!(found(Err("e".to_string())).unwrap_err(), "Failed to parse tenant response: e");
    assert_eq!(created(Ok(rows())).unwrap(), tenant("t-1", TenantStatus::Ready));
    assert_eq!(created(Ok(none)).unwrap_err(), "No tenant returned after insert");
    assert_eq!(created(Err("e".to_string())).unwrap_err(), "Failed to parse created tenant: e");
    assert_eq!(idle(Ok(rows())).unwrap(), rows());
    assert_eq!(idle(Err("e".to_string())).unwrap_err(), "Failed to parse idle tenants: e");
}
