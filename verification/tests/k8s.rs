//! Manifests of tenant objects and the operations on them.
use houston_cloud::json::Json;
use houston_cloud::k8s::operations::{
    KubeAction, KubeEvent, KubeFlow, KubeStep, ObjectKind, Report,
};
use houston_cloud::k8s::{
    base64_encode, build_httproute, build_pod, build_pvc, build_secret, build_service,
    deprovision_tenant, httproute_api_resource, ignore_already_exists, pod_exists, pod_name,
    provision_tenant, suspend_tenant, tenant_engine_url, tenant_public_url, wake_tenant, KubeError,
    TenantSpec, NAMESPACE,
};
use serde_json::Value;

fn test_spec() -> TenantSpec {
    TenantSpec {
        tenant_id: "t-abc12345".to_string(),
        engine_token: "test-token-abc123".to_string(),
        engine_image: "houston/engine:latest".to_string(),
        gateway_domain: None,
        gvisor: false,
        storage_class: "standard".to_string(),
    }
}

fn to_value(json: &Json) -> Value {
    match json {
        Json::Bool(b) => Value::from(*b),
        Json::Int(i) => Value::from(*i),
        Json::Text(s) => Value::from(s.as_str()),
        Json::List(items) => Value::Array(items.iter().map(to_value).collect()),
        Json::Object(fields) => {
            let mut map = serde_json::Map::new();
            for (key, value) in fields {
                map.insert(key.clone(), to_value(value));
            }
            Value::Object(map)
        }
    }
}

fn pvc_of(spec: &TenantSpec) -> k8s_openapi::api::core::v1::PersistentVolumeClaim {
    serde_json::from_value(to_value(&build_pvc(spec))).expect("valid PVC JSON")
}

fn secret_of(spec: &TenantSpec) -> k8s_openapi::api::core::v1::Secret {
    serde_json::from_value(to_value(&build_secret(spec))).expect("valid Secret JSON")
}

fn pod_of(spec: &TenantSpec) -> k8s_openapi::api::core::v1::Pod {
    serde_json::from_value(to_value(&build_pod(spec))).expect("valid Pod JSON")
}

fn service_of(spec: &TenantSpec) -> k8s_openapi::api::core::v1::Service {
    serde_json::from_value(to_value(&build_service(spec))).expect("valid Service JSON")
}

fn kube_error(e: kube::Error) -> KubeError {
    let code = match &e {
        kube::Error::Api(response) => Some(response.code),
        _ => None,
    };
    KubeError { code, text: e.to_string() }
}

fn refusal(code: u16, text: &str) -> Result<(), KubeError> {
    Err(KubeError { code: Some(code), text: text.to_string() })
}

#[test]
fn pvc_has_correct_name_and_labels() {
    let pvc = pvc_of(&test_spec());
    let meta = pvc.metadata;
    assert_eq!(meta.name.as_deref(), Some("tenant-t-abc12345-data"));
    assert_eq!(meta.namespace.as_deref(), Some(NAMESPACE));
    let labels = meta.labels.unwrap();
    assert_eq!(labels.get("houston.ai/tenant").unwrap(), "t-abc12345");
}

#[test]
fn secret_has_correct_name() {
    let secret = secret_of(&test_spec());
    assert_eq!(
        secret.metadata.name.as_deref(),
        Some("tenant-t-abc12345-token")
    );
}

#[test]
fn pod_has_correct_structure() {
    let pod = pod_of(&test_spec());
    let meta = &pod.metadata;
    assert_eq!(meta.name.as_deref(), Some("tenant-t-abc12345"));
    assert_eq!(meta.namespace.as_deref(), Some(NAMESPACE));

    let labels = meta.labels.as_ref().unwrap();
    assert_eq!(labels.get("houston.ai/tenant").unwrap(), "t-abc12345");
    assert_eq!(labels.get("app").unwrap(), "houston-engine");

    let spec = pod.spec.as_ref().unwrap();
    assert_eq!(spec.containers.len(), 1);
    assert_eq!(
        spec.containers[0].image.as_deref(),
        Some("houston/engine:latest")
    );
}

#[test]
fn service_selects_tenant_pod() {
    let svc = service_of(&test_spec());
    let meta = &svc.metadata;
    assert_eq!(meta.name.as_deref(), Some("tenant-t-abc12345"));

    let spec = svc.spec.as_ref().unwrap();
    let selector = spec.selector.as_ref().unwrap();
    assert_eq!(selector.get("houston.ai/tenant").unwrap(), "t-abc12345");
}

#[test]
fn httproute_has_correct_hostname_and_backend() {
    let mut spec = test_spec();
    spec.gateway_domain = Some("engine.houston.cloud".to_string());
    let route = build_httproute(&spec);
    let json = to_value(&route);

    let hostnames = json["spec"]["hostnames"].as_array().unwrap();
    assert_eq!(hostnames[0], "t-abc12345.engine.houston.cloud");

    let backend = &json["spec"]["rules"][0]["backendRefs"][0];
    assert_eq!(backend["name"], "tenant-t-abc12345");
    assert_eq!(backend["port"], 7777);
}

#[test]
fn httproute_not_built_without_domain() {
    let spec = test_spec();
    assert!(spec.gateway_domain.is_none());
}

#[test]
fn pod_without_gvisor_has_no_runtime_class() {
    let spec = test_spec();
    let pod = pod_of(&spec);
    assert!(pod.spec.as_ref().unwrap().runtime_class_name.is_none());
}

#[test]
fn pod_with_gvisor_has_runtime_class() {
    let mut spec = test_spec();
    spec.gvisor = true;
    let pod = pod_of(&spec);
    assert_eq!(
        pod.spec.as_ref().unwrap().runtime_class_name.as_deref(),
        Some("gvisor")
    );
}

#[test]
fn manifests_wake_builds_pod_with_existing_pvc() {
    let spec = test_spec();
    let pod = pod_of(&spec);
    let volumes = pod.spec.as_ref().unwrap().volumes.as_ref().unwrap();
    let pvc_ref = volumes[0].persistent_volume_claim.as_ref().unwrap();
    assert_eq!(pvc_ref.claim_name, "tenant-t-abc12345-data");
}

#[test]
fn base64_encode_works() {
    assert_eq!(base64_encode("hello"), "aGVsbG8=");
    assert_eq!(
        base64_encode("test-token-abc123"),
        "dGVzdC10b2tlbi1hYmMxMjM="
    );
}

#[test]
fn pod_name_matches_tenant_id() {
    assert_eq!(pod_name("t-abc12345"), "tenant-t-abc12345");
}

#[test]
fn tenant_engine_url_format() {
    assert_eq!(
        tenant_engine_url("t-abc12345"),
        "http://tenant-t-abc12345.houston-tenants.svc.cluster.local:7777"
    );
}

#[test]
fn tenant_public_url_format() {
    assert_eq!(
        tenant_public_url("t-abc12345", "https", "engine.houston.cloud"),
        "https://t-abc12345.engine.houston.cloud"
    );
}

#[test]
fn suspend_targets_correct_pod() {
    assert_eq!(pod_name("t-abc12345"), "tenant-t-abc12345");
}

#[test]
fn ignore_already_exists_returns_true_on_create() {
    assert!(ignore_already_exists(Ok::<_, kube::Error>(()).map_err(kube_error)).unwrap());
}

#[test]
fn ignore_already_exists_returns_false_on_409() {
    let err = kube::Error::Api(kube::error::ErrorResponse {
        status: "Failure".into(),
        message: "already exists".into(),
        reason: "AlreadyExists".into(),
        code: 409,
    });
    assert!(!ignore_already_exists(Err::<(), _>(err).map_err(kube_error)).unwrap());
}

#[test]
fn ignore_already_exists_fails_on_other_errors() {
    let err = kube::Error::Api(kube::error::ErrorResponse {
        status: "Failure".into(),
        message: "forbidden".into(),
        reason: "Forbidden".into(),
        code: 403,
    });
    assert!(ignore_already_exists(Err::<(), _>(err).map_err(kube_error)).is_err());
}

#[test]
fn mod_wake_builds_pod_with_existing_pvc() {
    let spec = test_spec();
    let pod = pod_of(&spec);
    let volumes = pod.spec.as_ref().unwrap().volumes.as_ref().unwrap();
    let pvc_ref = volumes[0].persistent_volume_claim.as_ref().unwrap();
    assert_eq!(pvc_ref.claim_name, "tenant-t-abc12345-data");
}

#[test]
fn base64_of_utf8() {
    assert_eq!(base64_encode(""), "");
    assert_eq!(base64_encode("a"), "YQ==");
    assert_eq!(base64_encode("ab"), "YWI=");
    assert_eq!(base64_encode("abc"), "YWJj");
    assert_eq!(base64_encode("~~?>"), "fn4/Pg==");
    assert_eq!(base64_encode("\u{fbff}0"), "76+/MA==");
    assert_eq!(base64_encode("\u{e9}"), "w6k=");
}

#[test]
fn pod_document_in_full() {
    let expected = r#"{"apiVersion":"v1","kind":"Pod","metadata":{"name":"tenant-t-abc12345",
        "namespace":"houston-tenants","labels":{"app":"houston-engine",
        "houston.ai/role":"tenant-engine","houston.ai/tenant":"t-abc12345"}},
        "spec":{"serviceAccountName":"tenant-engine","automountServiceAccountToken":false,
        "tolerations":[{"key":"sandbox.gke.io/runtime","operator":"Equal","value":"gvisor",
        "effect":"NoSchedule"}],"securityContext":{"runAsNonRoot":true,"runAsUser":10001,
        "fsGroup":10001,"seccompProfile":{"type":"RuntimeDefault"}},
        "containers":[{"name":"engine","image":"houston/engine:latest",
        "securityContext":{"allowPrivilegeEscalation":false,"readOnlyRootFilesystem":true,
        "capabilities":{"drop":["ALL"]}},
        "ports":[{"name":"http","containerPort":7777,"protocol":"TCP"}],
        "env":[{"name":"HOUSTON_BIND","value":"0.0.0.0:7777"},
        {"name":"HOUSTON_BIND_ALL","value":"1"},
        {"name":"HOUSTON_NO_PARENT_WATCHDOG","value":"1"},
        {"name":"HOUSTON_HOME","value":"/data/.houston"},
        {"name":"HOUSTON_DOCS","value":"/data/Houston"},
        {"name":"RUST_LOG","value":"info,houston_file_watcher=warn"},
        {"name":"HOUSTON_ENGINE_TOKEN","valueFrom":{"secretKeyRef":
        {"name":"tenant-t-abc12345-token","key":"token"}}}],
        "resources":{"requests":{"cpu":"100m","memory":"512Mi"},
        "limits":{"cpu":"1000m","memory":"1Gi"}},
        "volumeMounts":[{"name":"data","mountPath":"/data"},{"name":"tmp","mountPath":"/tmp"}],
        "readinessProbe":{"exec":{"command":["/bin/sh","-c",
        "curl -sf -H \"Authorization: Bearer ${HOUSTON_ENGINE_TOKEN}\" http://localhost:7777/v1/health"]},
        "initialDelaySeconds":3,"periodSeconds":10,"timeoutSeconds":3},
        "livenessProbe":{"exec":{"command":["/bin/sh","-c",
        "curl -sf -H \"Authorization: Bearer ${HOUSTON_ENGINE_TOKEN}\" http://localhost:7777/v1/health"]},
        "initialDelaySeconds":10,"periodSeconds":30,"timeoutSeconds":5}}],
        "volumes":[{"name":"data","persistentVolumeClaim":{"claimName":"tenant-t-abc12345-data"}},
        {"name":"tmp","emptyDir":{}}],"restartPolicy":"Always"}}"#;
    let expected: Value = serde_json::from_str(expected).unwrap();
    assert_eq!(to_value(&build_pod(&test_spec())), expected);
}

#[test]
fn other_documents_in_full() {
    let mut spec = test_spec();
    spec.gateway_domain = Some("engine.houston.cloud".to_string());
    spec.storage_class = "fast".to_string();
    let pvc: Value = serde_json::from_str(
        r#"{"apiVersion":"v1","kind":"PersistentVolumeClaim","metadata":{
        "name":"tenant-t-abc12345-data","namespace":"houston-tenants","labels":{
        "app":"houston-engine","houston.ai/tenant":"t-abc12345"}},"spec":{
        "accessModes":["ReadWriteOnce"],"storageClassName":"fast",
        "resources":{"requests":{"storage":"10Gi"}}}}"#,
    )
    .unwrap();
    assert_eq!(to_value(&build_pvc(&spec)), pvc);
    let secret: Value = serde_json::from_str(
        r#"{"apiVersion":"v1","kind":"Secret","metadata":{"name":"tenant-t-abc12345-token",
        "namespace":"houston-tenants","labels":{"houston.ai/tenant":"t-abc12345"}},
        "type":"Opaque","data":{"token":"dGVzdC10b2tlbi1hYmMxMjM="}}"#,
    )
    .unwrap();
    assert_eq!(to_value(&build_secret(&spec)), secret);
    let service: Value = serde_json::from_str(
        r#"{"apiVersion":"v1","kind":"Service","metadata":{"name":"tenant-t-abc12345",
        "namespace":"houston-tenants","labels":{"houston.ai/tenant":"t-abc12345"}},
        "spec":{"selector":{"houston.ai/tenant":"t-abc12345"},"ports":[{"name":"http",
        "port":7777,"targetPort":7777,"protocol":"TCP"}],"type":"ClusterIP"}}"#,
    )
    .unwrap();
    assert_eq!(to_value(&build_service(&spec)), service);
    let route: Value = serde_json::from_str(
        r#"{"apiVersion":"gateway.networking.k8s.io/v1","kind":"HTTPRoute","metadata":{
        "name":"tenant-t-abc12345","namespace":"houston-tenants",
        "labels":{"houston.ai/tenant":"t-abc12345"}},"spec":{"parentRefs":[{
        "name":"houston-gateway","namespace":"houston-system","kind":"Gateway"}],
        "hostnames":["t-abc12345.engine.houston.cloud"],"rules":[{
        "matches":[{"path":{"type":"PathPrefix","value":"/"}}],
        "backendRefs":[{"name":"tenant-t-abc12345","port":7777}]}]}}"#,
    )
    .unwrap();
    assert_eq!(to_value(&build_httproute(&spec)), route);
}

#[test]
fn routes_have_their_resource() {
    let resource = httproute_api_resource();
    assert_eq!(resource.group, "gateway.networking.k8s.io");
    assert_eq!(resource.version, "v1");
    assert_eq!(resource.api_version, "gateway.networking.k8s.io/v1");
    assert_eq!(resource.kind, "HTTPRoute");
    assert_eq!(resource.plural, "httproutes");
}

#[test]
fn only_the_secret_changes_with_the_token() {
    let spec = test_spec();
    let mut other = test_spec();
    other.engine_token = "other".to_string();
    assert_eq!(to_value(&build_pod(&spec)), to_value(&build_pod(&other)));
    assert_eq!(to_value(&build_pvc(&spec)), to_value(&build_pvc(&other)));
    assert_eq!(to_value(&build_service(&spec)), to_value(&build_service(&other)));
    assert_ne!(to_value(&build_secret(&spec)), to_value(&build_secret(&other)));
}

fn waiting(step: KubeStep) -> KubeFlow {
    match step {
        KubeStep::Await(flow) => flow,
        KubeStep::Done(outcome) => panic!("done with {:?}", outcome),
    }
}

fn done(step: KubeStep) -> Result<Report, String> {
    match step {
        KubeStep::Done(outcome) => outcome,
        KubeStep::Await(flow) => panic!("waits in {:?}", flow),
    }
}

fn connected(flow: KubeFlow) -> KubeFlow {
    assert!(matches!(flow.action(), KubeAction::Connect));
    waiting(flow.resume(KubeEvent::Connected(Ok(()))))
}

fn kinds_of(flow: &KubeFlow) -> Vec<ObjectKind> {
    match flow.action() {
        KubeAction::Create(objects) => objects.iter().map(|object| object.kind).collect(),
        KubeAction::Delete(objects) => objects.iter().map(|object| object.kind).collect(),
        other => panic!("unexpected action {:?}", other),
    }
}

fn names_of(flow: &KubeFlow) -> Vec<String> {
    match flow.action() {
        KubeAction::Delete(objects) => {
            assert!(objects.iter().all(|object| object.namespace == "houston-tenants"));
            objects.into_iter().map(|object| object.name).collect()
        }
        other => panic!("unexpected action {:?}", other),
    }
}

#[test]
fn client_failure_is_told() {
    let failed = || KubeEvent::Connected(Err("no config".to_string()));
    let message = "K8s client init failed: no config";
    assert_eq!(done(provision_tenant(&test_spec()).resume(failed())).unwrap_err(), message);
    assert_eq!(done(deprovision_tenant("t-1").resume(failed())).unwrap_err(), message);
    assert_eq!(done(pod_exists("t-1").resume(failed())).unwrap_err(), message);
    assert_eq!(done(suspend_tenant("t-1").resume(failed())).unwrap_err(), message);
    assert_eq!(done(wake_tenant(&test_spec()).resume(failed())).unwrap_err(), message);
}

#[test]
fn provisioning_creates_phase_by_phase() {
    let mut spec = test_spec();
    spec.gateway_domain = Some("engine.houston.cloud".to_string());
    let flow = connected(provision_tenant(&spec));
    assert_eq!(kinds_of(&flow), [ObjectKind::Pvc, ObjectKind::Secret]);
    let flow = waiting(flow.resume(KubeEvent::Created(vec![Ok(()), refusal(409, "there")])));
    assert_eq!(kinds_of(&flow), [ObjectKind::Pod]);
    let flow = waiting(flow.resume(KubeEvent::Created(vec![refusal(409, "there")])));
    assert_eq!(kinds_of(&flow), [ObjectKind::Service, ObjectKind::HttpRoute]);
    let replies = vec![refusal(409, "there"), refusal(409, "there")];
    let report = done(flow.resume(KubeEvent::Created(replies)));
    assert_eq!(report, Ok(Report::Provisioned { created: true }));
}

#[test]
fn provisioning_again_creates_nothing() {
    let flow = connected(provision_tenant(&test_spec()));
    let there = || refusal(409, "already exists");
    let flow = waiting(flow.resume(KubeEvent::Created(vec![there(), there()])));
    let flow = waiting(flow.resume(KubeEvent::Created(vec![there()])));
    assert_eq!(kinds_of(&flow), [ObjectKind::Service]);
    let report = done(flow.resume(KubeEvent::Created(vec![there()])));
    assert_eq!(report, Ok(Report::Provisioned { created: false }));
}

#[test]
fn provisioning_stops_at_a_refusal() {
    let flow = connected(provision_tenant(&test_spec()));
    let replies = vec![refusal(403, "forbidden"), refusal(500, "down")];
    assert_eq!(
        done(flow.resume(KubeEvent::Created(replies))).unwrap_err(),
        "Failed to create PVC: forbidden"
    );
    let flow = connected(provision_tenant(&test_spec()));
    let replies = vec![Ok(()), refusal(500, "down")];
    assert_eq!(
        done(flow.resume(KubeEvent::Created(replies))).unwrap_err(),
        "Failed to create Secret: down"
    );
    let flow = connected(provision_tenant(&test_spec()));
    let flow = waiting(flow.resume(KubeEvent::Created(vec![Ok(()), Ok(())])));
    assert_eq!(
        done(flow.resume(KubeEvent::Created(vec![refusal(422, "bad")]))).unwrap_err(),
        "Failed to create Pod: bad"
    );
    let mut spec = test_spec();
    spec.gateway_domain = Some("d".to_string());
    let network = || {
        let flow = connected(provision_tenant(&spec));
        let flow = waiting(flow.resume(KubeEvent::Created(vec![Ok(()), Ok(())])));
        waiting(flow.resume(KubeEvent::Created(vec![Ok(())])))
    };
    let replies = vec![refusal(422, "bad"), Ok(())];
    assert_eq!(
        done(network().resume(KubeEvent::Created(replies))).unwrap_err(),
        "Failed to create Service: bad"
    );
    let replies = vec![Ok(()), refusal(404, "no such kind")];
    assert_eq!(
        done(network().resume(KubeEvent::Created(replies))).unwrap_err(),
        "Failed to create HTTPRoute: no such kind"
    );
}

#[test]
fn deprovisioning_deletes_everything() {
    let flow = connected(deprovision_tenant("t-1"));
    assert_eq!(kinds_of(&flow), [ObjectKind::HttpRoute, ObjectKind::Service, ObjectKind::Pod]);
    assert_eq!(names_of(&flow), ["tenant-t-1", "tenant-t-1", "tenant-t-1"]);
    let replies = vec![refusal(404, "gone"), Ok(()), refusal(500, "down")];
    let flow = waiting(flow.resume(KubeEvent::Deleted(replies)));
    assert_eq!(kinds_of(&flow), [ObjectKind::Secret, ObjectKind::Pvc]);
    assert_eq!(names_of(&flow), ["tenant-t-1-token", "tenant-t-1-data"]);
    let replies = vec![refusal(404, "gone"), refusal(404, "gone")];
    assert_eq!(done(flow.resume(KubeEvent::Deleted(replies))), Ok(Report::Deprovisioned));
}

#[test]
fn pod_lookup() {
    let flow = || connected(pod_exists("t-1"));
    match flow().action() {
        KubeAction::Find(object) => {
            assert_eq!(object.kind, ObjectKind::Pod);
            assert_eq!(object.namespace, "houston-tenants");
            assert_eq!(object.name, "tenant-t-1");
        }
        other => panic!("unexpected action {:?}", other),
    }
    let answer = |reply| done(flow().resume(KubeEvent::Found(reply)));
    assert_eq!(answer(Ok(())), Ok(Report::PodExists(true)));
    assert_eq!(answer(refusal(404, "no")), Ok(Report::PodExists(false)));
    assert_eq!(answer(refusal(403, "no")).unwrap_err(), "Failed to check pod: no");
    let lost = Err(KubeError { code: None, text: "timeout".to_string() });
    assert_eq!(answer(lost).unwrap_err(), "Failed to check pod: timeout");
}

#[test]
fn suspension_deletes_only_the_pod() {
    let flow = connected(suspend_tenant("t-1"));
    assert_eq!(kinds_of(&flow), [ObjectKind::Pod]);
    assert_eq!(names_of(&flow), ["tenant-t-1"]);
    assert_eq!(done(flow.resume(KubeEvent::Deleted(vec![Ok(())]))), Ok(Report::Suspended));
    let flow = connected(suspend_tenant("t-1"));
    let replies = vec![refusal(404, "not found")];
    assert_eq!(
        done(flow.resume(KubeEvent::Deleted(replies))).unwrap_err(),
        "Failed to delete pod: not found"
    );
}

#[test]
fn waking_creates_the_pod() {
    let flow = connected(wake_tenant(&test_spec()));
    match flow.action() {
        KubeAction::Create(objects) => {
            assert_eq!(objects.len(), 1);
            assert_eq!(objects[0].namespace, "houston-tenants");
            assert_eq!(to_value(&objects[0].document), to_value(&build_pod(&test_spec())));
        }
        other => panic!("unexpected action {:?}", other),
    }
    assert_eq!(done(flow.resume(KubeEvent::Created(vec![Ok(())]))), Ok(Report::Woken));
    let flow = connected(wake_tenant(&test_spec()));
    let replies = vec![refusal(409, "already exists")];
    assert_eq!(
        done(flow.resume(KubeEvent::Created(replies))).unwrap_err(),
        "Failed to create pod: already exists"
    );
}

#[test]
fn replies_to_something_else_change_nothing() {
    let flow = connected(provision_tenant(&test_spec()));
    let flow = waiting(flow.resume(KubeEvent::Created(vec![Ok(())])));
    assert_eq!(kinds_of(&flow), [ObjectKind::Pvc, ObjectKind::Secret]);
    let flow = waiting(flow.resume(KubeEvent::Found(Ok(()))));
    assert_eq!(kinds_of(&flow), [ObjectKind::Pvc, ObjectKind::Secret]);
}

#[test]
fn tenants_have_names_of_their_own() {
    assert_ne!(pod_name("t-1"), pod_name("t-2"));
    assert_ne!(tenant_engine_url("t-1"), tenant_engine_url("t-2"));
    let mut other = test_spec();
    other.tenant_id = "t-other".to_string();
    let secret = to_value(&build_secret(&other));
    assert_eq!(secret["metadata"]["name"], "tenant-t-other-token");
    assert_eq!(to_value(&build_pvc(&other))["metadata"]["name"], "tenant-t-other-data");
    let selector = &to_value(&build_service(&other))["spec"]["selector"];
    let labels = &to_value(&build_pod(&test_spec()))["metadata"]["labels"];
    assert_ne!(selector["houston.ai/tenant"], labels["houston.ai/tenant"]);
}
