//! Requests to the control plane, from their headers to their answers.
use houston_cloud::auth::{Claims, JwtVerifier};
use houston_cloud::effects::{is_healthy, Action, Event, HealthProbe};
use houston_cloud::json::Json;
use houston_cloud::routes::{
    create_session, delete_tenant, engine_url, ext_authz, resolve_tenant_url, response_token,
    suspend_tenant, tenant_status, AppState, ErrorResponse, Refusal, Reply, RouteFlow, RouteStep,
    SessionResponse, StatusResponse,
};
use houston_cloud::session::ise;
use houston_cloud::store::TenantStore;
use houston_cloud::tenant::{Tenant, TenantStatus};
use serde_json::Value;

fn test_state(gateway_domain: Option<String>, dev_engine_token: Option<String>) -> AppState {
    AppState {
        tenant_store: TenantStore::new("https://example.supabase.co", "service-key"),
        jwt_verifier: JwtVerifier::new("https://example.supabase.co", "jwt-secret"),
        engine_url_template: "http://localhost:7777".to_string(),
        dev_engine_token,
        engine_image: None,
        gateway_domain,
        gateway_scheme: "https".to_string(),
        gvisor: false,
        storage_class: "standard".to_string(),
    }
}

fn cluster_state() -> AppState {
    let mut state = test_state(Some("engine.example.com".to_string()), None);
    state.engine_image = Some("image".to_string());
    state
}

fn to_value(json: &Json) -> Value {
    match json {
        Json::Bool(b) => Value::from(*b),
        Json::Int(i) => Value::from(*i),
        Json::Text(s) => Value::from(s.as_str()),
        Json::List(items) => Value::Array(items.iter().map(to_value).collect()),
        Json::Object(fields) => {
            let mut map = serde_json::Map::new();
            for (key, value) in fields {
                map.insert(key.clone(), to_value(value));
            }
            Value::Object(map)
        }
    }
}

fn tenant(status: TenantStatus) -> Tenant {
    Tenant {
        id: "1".to_string(),
        user_id: "user-1".to_string(),
        tenant_id: "t-1".to_string(),
        engine_token: "tenant-token".to_string(),
        status,
    }
}

fn claims(sub: &str) -> Claims {
    Claims {
        sub: sub.to_string(),
        aud: None,
        iss: None,
        exp: 2,
        iat: 1,
        role: "authenticated".to_string(),
        email: None,
    }
}

fn waiting(step: RouteStep) -> RouteFlow {
    match step {
        RouteStep::Await(flow) => flow,
        RouteStep::Done(outcome) => panic!("done with {:?}", outcome),
    }
}

fn done(step: RouteStep) -> Result<Reply, Refusal> {
    match step {
        RouteStep::Done(outcome) => outcome,
        RouteStep::Await(flow) => panic!("waits in {:?}", flow),
    }
}

fn refused(step: RouteStep) -> (u16, String) {
    let refusal = done(step).unwrap_err();
    (refusal.status, refusal.body.error)
}

fn session(step: RouteStep) -> SessionResponse {
    match done(step) {
        Ok(Reply::Session(response)) => response,
        other => panic!("unexpected outcome {:?}", other),
    }
}

fn ok() -> Event {
    Event::Performed(Ok(()))
}

fn failed(reason: &str) -> Event {
    Event::Performed(Err(reason.to_string()))
}

const HEADER: Option<&[u8]> = Some(b"Bearer abc");

/// A request whose user is verified.
fn verified(step: RouteStep, state: &AppState) -> RouteFlow {
    let flow = waiting(step);
    assert!(matches!(flow.action(), Action::Verify(token) if token == "abc"));
    let flow = waiting(flow.resume(state, Event::Verified(Ok(claims("user-1")))));
    assert!(matches!(flow.action(), Action::FindTenant(user) if user == "user-1"));
    flow
}

/// A request for a session whose tenant is found, up to where it was noted as active.
fn touched(state: &AppState, status: TenantStatus) -> RouteStep {
    let flow = verified(create_session(HEADER), state);
    let flow = waiting(flow.resume(state, Event::Found(Ok(Some(tenant(status))))));
    assert!(matches!(flow.action(), Action::Touch(id) if id == "t-1"));
    flow.resume(state, ok())
}

fn saves(flow: &RouteFlow, expected: TenantStatus) -> bool {
    matches!(flow.action(), Action::UpdateStatus(id, status) if id == "t-1" && status == expected)
}

#[test]
fn engine_url_replaces_placeholder() {
    let tmpl = "http://tenant-{tenant_id}.houston-tenants.svc.cluster.local:7777";
    assert_eq!(
        engine_url(tmpl, "t-abc12345"),
        "http://tenant-t-abc12345.houston-tenants.svc.cluster.local:7777"
    );
}

#[test]
fn engine_url_localhost_passthrough() {
    let tmpl = "http://localhost:7777";
    assert_eq!(engine_url(tmpl, "t-abc12345"), "http://localhost:7777");
}

#[test]
fn error_response_serializes() {
    let json = serde_json::to_string(&to_value(
        &ErrorResponse {
            error: "not found".into(),
        }
        .to_json(),
    ))
    .unwrap();
    assert!(json.contains("not found"));
}

#[test]
fn health_check_returns_false_for_unreachable() {
    let probe = HealthProbe::new("http://127.0.0.1:19999", "fake-token");
    assert_eq!(probe.url, "http://127.0.0.1:19999/v1/health");
    assert!(!is_healthy(None));
}

#[test]
fn session_response_serializes() {
    let resp = SessionResponse {
        engine_url: "http://localhost:7777".into(),
        engine_token: Some("abc".into()),
        tenant_id: "t-12345678".into(),
        status: TenantStatus::Ready,
    };
    let json = serde_json::to_string(&to_value(&resp.to_json())).unwrap();
    assert!(json.contains("ready"));
    assert!(json.contains("t-12345678"));
}

#[test]
fn response_token_hidden_when_gateway_enabled() {
    let state = test_state(Some("engine.example.com".to_string()), None);
    assert_eq!(response_token(&state, "tenant-token"), None);
}

#[test]
fn response_token_uses_dev_token_without_gateway() {
    let state = test_state(None, Some("dev-token".to_string()));
    assert_eq!(
        response_token(&state, "tenant-token").as_deref(),
        Some("dev-token")
    );
}

#[test]
fn response_token_falls_back_to_the_tenants() {
    let state = test_state(None, None);
    assert_eq!(response_token(&state, "tenant-token").as_deref(), Some("tenant-token"));
    let state = test_state(Some("d".to_string()), Some("dev-token".to_string()));
    assert_eq!(response_token(&state, "tenant-token"), None);
}

#[test]
fn every_placeholder_is_replaced() {
    assert_eq!(engine_url("{tenant_id}/{tenant_id}", "t"), "t/t");
    assert_eq!(engine_url("{{tenant_id}}", "t"), "{t}");
    assert_eq!(engine_url("{tenant_id", "t"), "{tenant_id");
    assert_eq!(engine_url("{tenant_id}", "{tenant_id}"), "{tenant_id}");
    assert_eq!(engine_url("", "t"), "");
}

#[test]
fn tenant_url_depends_on_the_gateway() {
    let state = test_state(Some("engine.example.com".to_string()), None);
    assert_eq!(resolve_tenant_url(&state, "t-1"), "https://t-1.engine.example.com");
    let mut state = test_state(None, None);
    state.engine_url_template = "http://{tenant_id}:7777".to_string();
    assert_eq!(resolve_tenant_url(&state, "t-1"), "http://t-1:7777");
}

#[test]
fn specification_needs_an_image() {
    let tenant = tenant(TenantStatus::Ready);
    assert!(test_state(None, None).k8s_spec(&tenant).is_none());
    let spec = cluster_state().k8s_spec(&tenant).unwrap();
    assert_eq!(spec.tenant_id, "t-1");
    assert_eq!(spec.engine_token, "tenant-token");
    assert_eq!(spec.engine_image, "image");
    assert_eq!(spec.gateway_domain.as_deref(), Some("engine.example.com"));
    assert!(!spec.gvisor);
    assert_eq!(spec.storage_class, "standard");
}

#[test]
fn responses_as_json() {
    let mut response = SessionResponse {
        engine_url: "u".to_string(),
        engine_token: Some("abc".to_string()),
        tenant_id: "t-1".to_string(),
        status: TenantStatus::Provisioning,
    };
    assert_eq!(
        to_value(&response.to_json()).to_string(),
        r#"{"engine_token":"abc","engine_url":"u","status":"provisioning","tenant_id":"t-1"}"#
    );
    response.engine_token = None;
    assert_eq!(
        to_value(&response.to_json()).to_string(),
        r#"{"engine_url":"u","status":"provisioning","tenant_id":"t-1"}"#
    );
    let status = StatusResponse { tenant_id: "t-1".to_string(), status: TenantStatus::Error };
    assert_eq!(
        to_value(&status.to_json()).to_string(),
        r#"{"status":"error","tenant_id":"t-1"}"#
    );
    let refusal = ise("down");
    assert_eq!(refusal.status, 500);
    assert_eq!(to_value(&refusal.body.to_json()).to_string(), r#"{"error":"down"}"#);
}

#[test]
fn probes() {
    let probe = HealthProbe::new("http://engine:7777//", "token");
    assert_eq!(probe.url, "http://engine:7777/v1/health");
    assert_eq!(probe.authorization, "Bearer token");
    assert_eq!(probe.timeout_secs, 3);
    assert!(is_healthy(Some(200)));
    assert!(!is_healthy(Some(503)));
}

#[test]
fn requests_without_token_are_unauthorized() {
    let missing = (401, "Missing Authorization header".to_string());
    let invalid = (401, "Invalid Authorization header".to_string());
    for begin in [create_session, tenant_status, suspend_tenant, delete_tenant, ext_authz] {
        assert_eq!(refused(begin(None)), missing);
        assert_eq!(refused(begin(Some(b"Bearer \xff"))), missing);
        assert_eq!(refused(begin(Some(b"Bearer \n"))), missing);
        assert_eq!(refused(begin(Some(b"Basic abc"))), invalid);
        assert_eq!(refused(begin(Some(b""))), invalid);
        let state = test_state(None, None);
        let flow = waiting(begin(Some(b"bearer abc")));
        let rejected = Event::Verified(Err("expired".to_string()));
        assert_eq!(refused(flow.resume(&state, rejected)), (401, "Unauthorized".to_string()));
    }
}

#[test]
fn failed_lookup_is_told() {
    let state = test_state(None, None);
    for begin in [create_session, tenant_status, suspend_tenant, delete_tenant, ext_authz] {
        let flow = verified(begin(HEADER), &state);
        let lost = Event::Found(Err("down".to_string()));
        assert_eq!(refused(flow.resume(&state, lost)), (500, "down".to_string()));
    }
}

#[test]
fn missing_tenant_is_told() {
    let state = test_state(None, None);
    for begin in [tenant_status, suspend_tenant, delete_tenant] {
        let flow = verified(begin(HEADER), &state);
        let step = flow.resume(&state, Event::Found(Ok(None)));
        assert_eq!(refused(step), (404, "No tenant found".to_string()));
    }
    let flow = verified(ext_authz(HEADER), &state);
    let step = flow.resume(&state, Event::Found(Ok(None)));
    assert_eq!(refused(step), (401, "No tenant provisioned".to_string()));
}

#[test]
fn status_is_answered() {
    let state = test_state(None, None);
    let flow = verified(tenant_status(HEADER), &state);
    let found = Event::Found(Ok(Some(tenant(TenantStatus::Pending))));
    let reply = done(flow.resume(&state, found)).unwrap();
    assert_eq!(reply.status(), 200);
    match reply {
        Reply::Status(response) => {
            assert_eq!(response.tenant_id, "t-1");
            assert_eq!(response.status, TenantStatus::Pending);
        }
        other => panic!("unexpected reply {:?}", other),
    }
}

#[test]
fn suspension_in_the_cluster() {
    let state = cluster_state();
    let found = || Event::Found(Ok(Some(tenant(TenantStatus::Ready))));
    let flow = waiting(verified(suspend_tenant(HEADER), &state).resume(&state, found()));
    assert!(matches!(flow.action(), Action::Suspend(id) if id == "t-1"));
    let flow = waiting(flow.resume(&state, ok()));
    assert!(saves(&flow, TenantStatus::Suspended));
    let reply = done(flow.resume(&state, ok())).unwrap();
    assert!(matches!(reply, Reply::NoContent));
    assert_eq!(reply.status(), 204);

    let flow = waiting(verified(suspend_tenant(HEADER), &state).resume(&state, found()));
    assert_eq!(refused(flow.resume(&state, failed("no pod"))), (500, "no pod".to_string()));
}

#[test]
fn suspension_without_cluster() {
    let state = test_state(None, None);
    let found = Event::Found(Ok(Some(tenant(TenantStatus::Ready))));
    let flow = waiting(verified(suspend_tenant(HEADER), &state).resume(&state, found));
    assert!(saves(&flow, TenantStatus::Suspended));
    assert_eq!(refused(flow.resume(&state, failed("down"))), (500, "down".to_string()));
}

#[test]
fn only_running_tenants_are_suspended() {
    let state = cluster_state();
    for status in [
        TenantStatus::Pending,
        TenantStatus::Provisioning,
        TenantStatus::Error,
        TenantStatus::Suspended,
    ] {
        let flow = verified(suspend_tenant(HEADER), &state);
        let step = flow.resume(&state, Event::Found(Ok(Some(tenant(status)))));
        assert_eq!(refused(step), (409, "Tenant is not running".to_string()));
    }
}

#[test]
fn deletion_tears_down_first() {
    let state = cluster_state();
    let found = || Event::Found(Ok(Some(tenant(TenantStatus::Error))));
    let flow = waiting(verified(delete_tenant(HEADER), &state).resume(&state, found()));
    assert!(matches!(flow.action(), Action::Deprovision(id) if id == "t-1"));
    let flow = waiting(flow.resume(&state, ok()));
    assert!(matches!(flow.action(), Action::DeleteTenant(id) if id == "t-1"));
    assert!(matches!(done(flow.resume(&state, ok())), Ok(Reply::NoContent)));

    let flow = waiting(verified(delete_tenant(HEADER), &state).resume(&state, found()));
    assert_eq!(
        refused(flow.resume(&state, failed("down"))),
        (500, "K8s deprovision failed: down".to_string())
    );

    let state = test_state(None, None);
    let flow = waiting(verified(delete_tenant(HEADER), &state).resume(&state, found()));
    assert!(matches!(flow.action(), Action::DeleteTenant(id) if id == "t-1"));
    assert_eq!(refused(flow.resume(&state, failed("down"))), (500, "down".to_string()));
}

#[test]
fn gateway_gets_the_token_of_a_ready_tenant() {
    let state = cluster_state();
    let flow = verified(ext_authz(HEADER), &state);
    let found = Event::Found(Ok(Some(tenant(TenantStatus::Ready))));
    let reply = done(flow.resume(&state, found)).unwrap();
    assert_eq!(reply.status(), 200);
    match reply {
        Reply::Admission(admission) => {
            assert_eq!(admission.tenant.name, "x-houston-tenant");
            assert_eq!(admission.tenant.value, "t-1");
            assert_eq!(admission.backend.name, "x-houston-backend");
            assert_eq!(
                admission.backend.value,
                "http://tenant-t-1.houston-tenants.svc.cluster.local:7777"
            );
            assert_eq!(admission.authorization.name, "authorization");
            assert_eq!(admission.authorization.value, "Bearer tenant-token");
            assert_eq!(admission.touch, "t-1");
        }
        other => panic!("unexpected reply {:?}", other),
    }
    for status in [
        TenantStatus::Pending,
        TenantStatus::Provisioning,
        TenantStatus::Error,
        TenantStatus::Suspended,
    ] {
        let flow = verified(ext_authz(HEADER), &state);
        let step = flow.resume(&state, Event::Found(Ok(Some(tenant(status)))));
        assert_eq!(refused(step), (503, "Tenant not ready".to_string()));
    }
}

#[test]
fn ready_tenant_is_answered_from_the_store() {
    let state = cluster_state();
    let response = session(touched(&state, TenantStatus::Ready));
    assert_eq!(response.engine_url, "https://t-1.engine.example.com");
    assert_eq!(response.engine_token, None);
    assert_eq!(response.tenant_id, "t-1");
    assert_eq!(response.status, TenantStatus::Ready);
    let response = session(touched(&test_state(None, None), TenantStatus::Pending));
    assert_eq!(response.engine_url, "http://localhost:7777");
    assert_eq!(response.engine_token.as_deref(), Some("tenant-token"));
    assert_eq!(response.status, TenantStatus::Pending);
}

#[test]
fn failed_touch_is_told() {
    let state = cluster_state();
    let flow = verified(create_session(HEADER), &state);
    let found = Event::Found(Ok(Some(tenant(TenantStatus::Ready))));
    let flow = waiting(flow.resume(&state, found));
    assert_eq!(refused(flow.resume(&state, failed("down"))), (500, "down".to_string()));
}

#[test]
fn suspended_tenant_is_woken() {
    let state = cluster_state();
    let flow = waiting(touched(&state, TenantStatus::Suspended));
    assert!(matches!(flow.action(), Action::Wake(spec) if spec.tenant_id == "t-1"));
    let flow = waiting(flow.resume(&state, ok()));
    assert!(saves(&flow, TenantStatus::Provisioning));
    assert_eq!(session(flow.resume(&state, ok())).status, TenantStatus::Provisioning);

    let flow = waiting(touched(&state, TenantStatus::Suspended));
    assert_eq!(
        refused(flow.resume(&state, failed("busy"))),
        (500, "Wake failed: busy".to_string())
    );
    let flow = waiting(touched(&state, TenantStatus::Suspended));
    let flow = waiting(flow.resume(&state, ok()));
    assert_eq!(refused(flow.resume(&state, failed("down"))), (500, "down".to_string()));
    assert_eq!(
        refused(touched(&test_state(None, None), TenantStatus::Suspended)),
        (500, "K8s not configured".to_string())
    );
}

#[test]
fn healthy_tenant_becomes_ready() {
    let mut state = cluster_state();
    state.dev_engine_token = Some("dev-token".to_string());
    for status in [TenantStatus::Provisioning, TenantStatus::Error] {
        let flow = waiting(touched(&state, status));
        match flow.action() {
            Action::CheckHealth(probe) => {
                assert_eq!(
                    probe.url,
                    "http://tenant-t-1.houston-tenants.svc.cluster.local:7777/v1/health"
                );
                assert_eq!(probe.authorization, "Bearer dev-token");
            }
            other => panic!("unexpected action {:?}", other),
        }
        let flow = waiting(flow.resume(&state, Event::Probed(Some(200))));
        assert!(saves(&flow, TenantStatus::Ready));
        assert_eq!(session(flow.resume(&state, ok())).status, TenantStatus::Ready);
    }
    let flow = waiting(touched(&state, TenantStatus::Error));
    let flow = waiting(flow.resume(&state, Event::Probed(Some(200))));
    assert_eq!(refused(flow.resume(&state, failed("down"))), (500, "down".to_string()));
}

#[test]
fn unhealthy_tenant_without_cluster_is_provisioning() {
    let state = test_state(None, None);
    let flow = waiting(touched(&state, TenantStatus::Error));
    let response = session(flow.resume(&state, Event::Probed(Some(500))));
    assert_eq!(response.status, TenantStatus::Provisioning);
}

#[test]
fn unhealthy_tenant_is_provisioned_again_where_its_pod_is_missing() {
    let state = cluster_state();
    let looked_for = || {
        let flow = waiting(touched(&state, TenantStatus::Provisioning));
        let flow = waiting(flow.resume(&state, Event::Probed(None)));
        assert!(matches!(flow.action(), Action::PodExists(id) if id == "t-1"));
        flow
    };
    let lost = Event::Exists(Err("timeout".to_string()));
    assert_eq!(
        refused(looked_for().resume(&state, lost)),
        (500, "K8s unreachable: timeout".to_string())
    );
    let response = session(looked_for().resume(&state, Event::Exists(Ok(true))));
    assert_eq!(response.status, TenantStatus::Provisioning);

    let provisioned = || {
        let flow = waiting(looked_for().resume(&state, Event::Exists(Ok(false))));
        assert!(matches!(flow.action(), Action::Provision(spec) if spec.tenant_id == "t-1"));
        flow
    };
    let flow = waiting(provisioned().resume(&state, ok()));
    assert!(saves(&flow, TenantStatus::Provisioning));
    assert_eq!(session(flow.resume(&state, ok())).status, TenantStatus::Provisioning);
    let flow = waiting(provisioned().resume(&state, ok()));
    assert_eq!(refused(flow.resume(&state, failed("down"))), (500, "down".to_string()));

    let flow = waiting(provisioned().resume(&state, failed("no quota")));
    assert!(saves(&flow, TenantStatus::Error));
    assert_eq!(refused(flow.resume(&state, ok())), (500, "no quota".to_string()));
    let flow = waiting(provisioned().resume(&state, failed("no quota")));
    assert_eq!(refused(flow.resume(&state, failed("down"))), (500, "down".to_string()));
}

fn creating(state: &AppState) -> RouteFlow {
    let flow = verified(create_session(HEADER), state);
    let flow = waiting(flow.resume(state, Event::Found(Ok(None))));
    assert!(matches!(flow.action(), Action::CreateTenant(user) if user == "user-1"));
    flow
}

#[test]
fn new_tenant_in_the_cluster() {
    let mut state = cluster_state();
    state.dev_engine_token = Some("dev-token".to_string());
    let created = || Event::Created(Ok(tenant(TenantStatus::Provisioning)));
    let provisioning = || {
        let flow = waiting(creating(&state).resume(&state, created()));
        assert!(matches!(flow.action(), Action::Provision(spec) if spec.tenant_id == "t-1"));
        flow
    };
    let probing = || {
        let flow = waiting(provisioning().resume(&state, ok()));
        match flow.action() {
            Action::CheckHealth(probe) => {
                assert_eq!(
                    probe.url,
                    "http://tenant-t-1.houston-tenants.svc.cluster.local:7777/v1/health"
                );
                assert_eq!(probe.authorization, "Bearer tenant-token");
            }
            other => panic!("unexpected action {:?}", other),
        }
        flow
    };
    let response = session(probing().resume(&state, Event::Probed(None)));
    assert_eq!(response.status, TenantStatus::Provisioning);
    assert_eq!(response.engine_url, "https://t-1.engine.example.com");
    assert_eq!(response.engine_token, None);

    let flow = waiting(probing().resume(&state, Event::Probed(Some(204))));
    assert!(saves(&flow, TenantStatus::Ready));
    assert_eq!(session(flow.resume(&state, ok())).status, TenantStatus::Ready);
    let flow = waiting(probing().resume(&state, Event::Probed(Some(204))));
    assert_eq!(refused(flow.resume(&state, failed("down"))), (500, "down".to_string()));

    let flow = waiting(provisioning().resume(&state, failed("no quota")));
    assert!(saves(&flow, TenantStatus::Error));
    assert_eq!(refused(flow.resume(&state, ok())), (500, "no quota".to_string()));

    let lost = Event::Created(Err("down".to_string()));
    assert_eq!(refused(creating(&state).resume(&state, lost)), (500, "down".to_string()));
}

#[test]
fn new_tenant_without_cluster() {
    let mut state = test_state(None, Some("dev-token".to_string()));
    state.engine_url_template = "http://{tenant_id}:7777/".to_string();
    let created = Event::Created(Ok(tenant(TenantStatus::Provisioning)));
    let flow = waiting(creating(&state).resume(&state, created));
    match flow.action() {
        Action::CheckHealth(probe) => {
            assert_eq!(probe.url, "http://t-1:7777/v1/health");
            assert_eq!(probe.authorization, "Bearer dev-token");
        }
        other => panic!("unexpected action {:?}", other),
    }
    let response = session(flow.resume(&state, Event::Probed(Some(404))));
    assert_eq!(response.engine_url, "http://t-1:7777/");
    assert_eq!(response.engine_token.as_deref(), Some("dev-token"));
    assert_eq!(response.status, TenantStatus::Provisioning);
}

#[test]
fn new_tenant_without_cluster_behind_the_gateway() {
    let state = test_state(Some("engine.example.com".to_string()), None);
    let created = || Event::Created(Ok(tenant(TenantStatus::Provisioning)));
    let probing = || {
        let flow = waiting(creating(&state).resume(&state, created()));
        match flow.action() {
            Action::CheckHealth(probe) => {
                assert_eq!(probe.url, "http://localhost:7777/v1/health");
                assert_eq!(probe.authorization, "Bearer tenant-token");
            }
            other => panic!("unexpected action {:?}", other),
        }
        flow
    };
    let response = session(probing().resume(&state, Event::Probed(None)));
    assert_eq!(response.engine_url, "https://t-1.engine.example.com");
    assert_eq!(response.engine_token, None);
    assert_eq!(response.tenant_id, "t-1");
    assert_eq!(response.status, TenantStatus::Provisioning);

    let flow = waiting(probing().resume(&state, Event::Probed(Some(200))));
    assert!(saves(&flow, TenantStatus::Ready));
    let response = session(flow.resume(&state, ok()));
    assert_eq!(response.engine_url, "https://t-1.engine.example.com");
    assert_eq!(response.engine_token, None);
    assert_eq!(response.status, TenantStatus::Ready);
    let later = session(touched(&state, TenantStatus::Ready));
    assert_eq!(later.engine_url, response.engine_url);
}

#[test]
fn events_of_another_kind_change_nothing() {
    let state = cluster_state();
    let flow = verified(create_session(HEADER), &state);
    let flow = waiting(flow.resume(&state, ok()));
    assert!(matches!(flow.action(), Action::FindTenant(_)));
    let flow = creating(&state);
    let flow = waiting(flow.resume(&state, Event::Probed(Some(200))));
    assert!(matches!(flow.action(), Action::CreateTenant(_)));
}
