//! Manifest builders for tenant objects.
//!
//! Pure functions from a `TenantSpec` to the JSON documents that the Kubernetes API takes.
use super::{pod_name, TenantSpec, NAMESPACE};
use base64::Engine;
use crate::json::{Json, JsonView};
use crate::k8s;
use crate::text::cat3;
use vstd::prelude::*;

verus! {

/// The metadata of a tenant's object.
pub open spec fn metadata_json(name: Seq<char>, labels: JsonView) -> JsonView {
    JsonView::object()
        .with("name"@, JsonView::Text(name))
        .with("namespace"@, JsonView::Text(NAMESPACE@))
        .with("labels"@, labels)
}

fn metadata(name: &str, labels: Json) -> (res: Json)
    ensures
        res is Object,
        res@ == metadata_json(name@, labels@),
{
    Json::object().with_text("name", name).with_text("namespace", NAMESPACE).with("labels", labels)
}

/// The claim for a tenant's volume: ten gibibytes that one node at a time may write.
pub open spec fn pvc_json(spec: TenantSpec<Seq<char>>) -> JsonView {
    JsonView::object()
        .with("apiVersion"@, JsonView::Text("v1"@))
        .with("kind"@, JsonView::Text("PersistentVolumeClaim"@))
        .with("metadata"@, metadata_json(
            k8s::pvc_name(spec.tenant_id),
            JsonView::object()
                .with("app"@, JsonView::Text("houston-engine"@))
                .with("houston.ai/tenant"@, JsonView::Text(spec.tenant_id)),
        ))
        .with("spec"@, JsonView::object()
            .with("accessModes"@, JsonView::list().item(JsonView::Text("ReadWriteOnce"@)))
            .with("storageClassName"@, JsonView::Text(spec.storage_class))
            .with("resources"@, JsonView::object()
                .with("requests"@, JsonView::object()
                    .with("storage"@, JsonView::Text("10Gi"@)))))
}

/// Build the PVC manifest for a tenant.
pub fn build_pvc(spec: &TenantSpec) -> (res: Json)
    ensures
        res@ == pvc_json(spec@),
{
    let tenant_id = spec.tenant_id.as_str();
    let name = cat3("tenant-", tenant_id, "-data");
    Json::object()
        .with_text("apiVersion", "v1")
        .with_text("kind", "PersistentVolumeClaim")
        .with("metadata", metadata(
            name.as_str(),
            Json::object()
                .with_text("app", "houston-engine")
                .with_text("houston.ai/tenant", tenant_id),
        ))
        .with("spec", Json::object()
            .with("accessModes", Json::list().item(Json::text("ReadWriteOnce")))
            .with_text("storageClassName", spec.storage_class.as_str())
            .with("resources", Json::object()
                .with("requests", Json::object()
                    .with_text("storage", "10Gi"))))
}

/// The character of the standard base64 alphabet for six bits: the letters, upper case first, the
/// digits, `+` and `/`.
pub open spec fn base64_digit(n: int) -> char
    recommends
        0 <= n < 64,
{
    if n < 26 {
        ('A' as int + n) as char
    } else if n < 52 {
        ('a' as int + n - 26) as char
    } else if n < 62 {
        ('0' as int + n - 52) as char
    } else if n == 62 {
        '+'
    } else {
        '/'
    }
}

/// A byte, or zero behind the last one.
pub open spec fn byte_at(bytes: Seq<u8>, i: int) -> int {
    if i < bytes.len() {
        bytes[i] as int
    } else {
        0
    }
}

/// The standard base64 text of some bytes: four characters for each three bytes, each for six bits.
/// Bits behind the last byte count as zero, and where there are no others the character is `=`.
pub open spec fn base64_text(bytes: Seq<u8>) -> Seq<char> {
    Seq::new(
        ((bytes.len() + 2) / 3 * 4) as nat,
        |i: int|
            {
                let at = i / 4 * 3;
                if i % 4 == 0 {
                    base64_digit(byte_at(bytes, at) / 4)
                } else if i % 4 == 1 {
                    base64_digit(byte_at(bytes, at) % 4 * 16 + byte_at(bytes, at + 1) / 16)
                } else if i % 4 == 2 && at + 1 < bytes.len() {
                    base64_digit(byte_at(bytes, at + 1) % 16 * 4 + byte_at(bytes, at + 2) / 64)
                } else if i % 4 == 3 && at + 2 < bytes.len() {
                    base64_digit(byte_at(bytes, at + 2) % 64)
                } else {
                    '='
                }
            },
    )
}

/// `Engine::encode` of the `STANDARD` engine: the standard base64 text, with padding.
#[verifier::external_body]
fn standard_base64(bytes: &[u8]) -> (res: String)
    ensures
        res@ == base64_text(bytes@),
{
    base64::engine::general_purpose::STANDARD.encode(bytes)
}

/// The standard base64 text of the UTF-8 bytes of `s`.
pub fn base64_encode(s: &str) -> (res: String)
    ensures
        res@ == base64_text(vstd::utf8::encode_utf8(s@)),
{
    standard_base64(s.as_bytes())
}

/// The one label that every object of a tenant carries.
pub open spec fn tenant_label_json(tenant_id: Seq<char>) -> JsonView {
    JsonView::object().with("houston.ai/tenant"@, JsonView::Text(tenant_id))
}

fn tenant_label(tenant_id: &str) -> (res: Json)
    ensures
        res is Object,
        res@ == tenant_label_json(tenant_id@),
{
    Json::object().with_text("houston.ai/tenant", tenant_id)
}

/// The secret that holds a tenant's engine token under the key `token`.
pub open spec fn secret_json(spec: TenantSpec<Seq<char>>) -> JsonView {
    JsonView::object()
        .with("apiVersion"@, JsonView::Text("v1"@))
        .with("kind"@, JsonView::Text("Secret"@))
        .with("metadata"@, metadata_json(
            k8s::secret_name(spec.tenant_id),
            tenant_label_json(spec.tenant_id),
        ))
        .with("type"@, JsonView::Text("Opaque"@))
        .with("data"@, JsonView::object()
            .with("token"@, JsonView::Text(
                base64_text(vstd::utf8::encode_utf8(spec.engine_token)),
            )))
}

/// Build the Secret manifest for a tenant's engine token.
pub fn build_secret(spec: &TenantSpec) -> (res: Json)
    ensures
        res@ == secret_json(spec@),
{
    let name = cat3("tenant-", spec.tenant_id.as_str(), "-token");
    let token = base64_encode(spec.engine_token.as_str());
    Json::object()
        .with_text("apiVersion", "v1")
        .with_text("kind", "Secret")
        .with("metadata", metadata(name.as_str(), tenant_label(spec.tenant_id.as_str())))
        .with_text("type", "Opaque")
        .with("data", Json::object().with_text("token", token.as_str()))
}

/// A variable of the engine's environment.
pub open spec fn env_json(name: Seq<char>, value: Seq<char>) -> JsonView {
    JsonView::object().with("name"@, JsonView::Text(name)).with("value"@, JsonView::Text(value))
}

fn env(name: &str, value: &str) -> (res: Json)
    ensures
        res@ == env_json(name@, value@),
{
    Json::object().with_text("name", name).with_text("value", value)
}

/// The engine's environment: where it listens, where it keeps its data, and its token, which it
/// takes from the tenant's secret.
pub open spec fn environment_json(tenant_id: Seq<char>) -> JsonView {
    JsonView::list()
        .item(env_json("HOUSTON_BIND"@, "0.0.0.0:7777"@))
        .item(env_json("HOUSTON_BIND_ALL"@, "1"@))
        .item(env_json("HOUSTON_NO_PARENT_WATCHDOG"@, "1"@))
        .item(env_json("HOUSTON_HOME"@, "/data/.houston"@))
        .item(env_json("HOUSTON_DOCS"@, "/data/Houston"@))
        .item(env_json("RUST_LOG"@, "info,houston_file_watcher=warn"@))
        .item(JsonView::object()
            .with("name"@, JsonView::Text("HOUSTON_ENGINE_TOKEN"@))
            .with("valueFrom"@, JsonView::object()
                .with("secretKeyRef"@, JsonView::object()
                    .with("name"@, JsonView::Text(k8s::secret_name(tenant_id)))
                    .with("key"@, JsonView::Text("token"@)))))
}

fn environment(tenant_id: &str) -> (res: Json)
    ensures
        res@ == environment_json(tenant_id@),
{
    let secret_name = cat3("tenant-", tenant_id, "-token");
    Json::list()
        .item(env("HOUSTON_BIND", "0.0.0.0:7777"))
        .item(env("HOUSTON_BIND_ALL", "1"))
        .item(env("HOUSTON_NO_PARENT_WATCHDOG", "1"))
        .item(env("HOUSTON_HOME", "/data/.houston"))
        .item(env("HOUSTON_DOCS", "/data/Houston"))
        .item(env("RUST_LOG", "info,houston_file_watcher=warn"))
        .item(Json::object()
            .with_text("name", "HOUSTON_ENGINE_TOKEN")
            .with("valueFrom", Json::object()
                .with("secretKeyRef", Json::object()
                    .with_text("name", secret_name.as_str())
                    .with_text("key", "token"))))
}

/// A probe that asks the engine for its health, with its own token, every `period` seconds.
pub open spec fn probe_json(initial_delay: int, period: int, timeout: int) -> JsonView {
    JsonView::object()
        .with("exec"@, JsonView::object()
            .with("command"@, JsonView::list()
                .item(JsonView::Text("/bin/sh"@))
                .item(JsonView::Text("-c"@))
                .item(JsonView::Text(
                    "curl -sf -H \"Authorization: Bearer ${HOUSTON_ENGINE_TOKEN}\" http://localhost:7777/v1/health"@,
                ))))
        .with("initialDelaySeconds"@, JsonView::Int(initial_delay))
        .with("periodSeconds"@, JsonView::Int(period))
        .with("timeoutSeconds"@, JsonView::Int(timeout))
}

fn probe(initial_delay: i64, period: i64, timeout: i64) -> (res: Json)
    ensures
        res@ == probe_json(initial_delay as int, period as int, timeout as int),
{
    Json::object()
        .with("exec", Json::object()
            .with("command", Json::list()
                .item(Json::text("/bin/sh"))
                .item(Json::text("-c"))
                .item(Json::text(
                    "curl -sf -H \"Authorization: Bearer ${HOUSTON_ENGINE_TOKEN}\" http://localhost:7777/v1/health",
                ))))
        .with("initialDelaySeconds", Json::Int(initial_delay))
        .with("periodSeconds", Json::Int(period))
        .with("timeoutSeconds", Json::Int(timeout))
}

/// What the engine may use of a node.
pub open spec fn resources_json() -> JsonView {
    JsonView::object()
        .with("requests"@, JsonView::object()
            .with("cpu"@, JsonView::Text("100m"@))
            .with("memory"@, JsonView::Text("512Mi"@)))
        .with("limits"@, JsonView::object()
            .with("cpu"@, JsonView::Text("1000m"@))
            .with("memory"@, JsonView::Text("1Gi"@)))
}

fn resources() -> (res: Json)
    ensures
        res@ == resources_json(),
{
    Json::object()
        .with("requests", Json::object()
            .with_text("cpu", "100m")
            .with_text("memory", "512Mi"))
        .with("limits", Json::object()
            .with_text("cpu", "1000m")
            .with_text("memory", "1Gi"))
}

/// The engine's container.
pub open spec fn container_json(spec: TenantSpec<Seq<char>>) -> JsonView {
    JsonView::object()
        .with("name"@, JsonView::Text("engine"@))
        .with("image"@, JsonView::Text(spec.engine_image))
        .with("securityContext"@, JsonView::object()
            .with("allowPrivilegeEscalation"@, JsonView::Bool(false))
            .with("readOnlyRootFilesystem"@, JsonView::Bool(true))
            .with("capabilities"@, JsonView::object()
                .with("drop"@, JsonView::list().item(JsonView::Text("ALL"@)))))
        .with("ports"@, JsonView::list()
            .item(JsonView::object()
                .with("name"@, JsonView::Text("http"@))
                .with("containerPort"@, JsonView::Int(7777))
                .with("protocol"@, JsonView::Text("TCP"@))))
        .with("env"@, environment_json(spec.tenant_id))
        .with("resources"@, resources_json())
        .with("volumeMounts"@, JsonView::list()
            .item(JsonView::object()
                .with("name"@, JsonView::Text("data"@))
                .with("mountPath"@, JsonView::Text("/data"@)))
            .item(JsonView::object()
                .with("name"@, JsonView::Text("tmp"@))
                .with("mountPath"@, JsonView::Text("/tmp"@))))
        .with("readinessProbe"@, probe_json(3, 10, 3))
        .with("livenessProbe"@, probe_json(10, 30, 5))
}

fn container(spec: &TenantSpec) -> (res: Json)
    ensures
        res@ == container_json(spec@),
{
    Json::object()
        .with_text("name", "engine")
        .with_text("image", spec.engine_image.as_str())
        .with("securityContext", Json::object()
            .with("allowPrivilegeEscalation", Json::Bool(false))
            .with("readOnlyRootFilesystem", Json::Bool(true))
            .with("capabilities", Json::object()
                .with("drop", Json::list().item(Json::text("ALL")))))
        .with("ports", Json::list()
            .item(Json::object()
                .with_text("name", "http")
                .with("containerPort", Json::Int(7777))
                .with_text("protocol", "TCP")))
        .with("env", environment(spec.tenant_id.as_str()))
        .with("resources", resources())
        .with("volumeMounts", Json::list()
            .item(Json::object()
                .with_text("name", "data")
                .with_text("mountPath", "/data"))
            .item(Json::object()
                .with_text("name", "tmp")
                .with_text("mountPath", "/tmp")))
        .with("readinessProbe", probe(3, 10, 3))
        .with("livenessProbe", probe(10, 30, 5))
}

/// The part of a pod that says how it runs. A sandboxed pod names its runtime class, another one
/// names none.
pub open spec fn pod_spec_json(spec: TenantSpec<Seq<char>>) -> JsonView {
    let base = JsonView::object()
        .with("serviceAccountName"@, JsonView::Text("tenant-engine"@))
        .with("automountServiceAccountToken"@, JsonView::Bool(false))
        .with("tolerations"@, JsonView::list()
            .item(JsonView::object()
                .with("key"@, JsonView::Text("sandbox.gke.io/runtime"@))
                .with("operator"@, JsonView::Text("Equal"@))
                .with("value"@, JsonView::Text("gvisor"@))
                .with("effect"@, JsonView::Text("NoSchedule"@))))
        .with("securityContext"@, JsonView::object()
            .with("runAsNonRoot"@, JsonView::Bool(true))
            .with("runAsUser"@, JsonView::Int(10001))
            .with("fsGroup"@, JsonView::Int(10001))
            .with("seccompProfile"@, JsonView::object()
                .with("type"@, JsonView::Text("RuntimeDefault"@))))
        .with("containers"@, JsonView::list().item(container_json(spec)))
        .with("volumes"@, JsonView::list()
            .item(JsonView::object()
                .with("name"@, JsonView::Text("data"@))
                .with("persistentVolumeClaim"@, JsonView::object()
                    .with("claimName"@, JsonView::Text(k8s::pvc_name(spec.tenant_id)))))
            .item(JsonView::object()
                .with("name"@, JsonView::Text("tmp"@))
                .with("emptyDir"@, JsonView::object())))
        .with("restartPolicy"@, JsonView::Text("Always"@));
    if spec.gvisor {
        base.with("runtimeClassName"@, JsonView::Text("gvisor"@))
    } else {
        base
    }
}

fn pod_spec(spec: &TenantSpec) -> (res: Json)
    ensures
        res@ == pod_spec_json(spec@),
{
    let claim = cat3("tenant-", spec.tenant_id.as_str(), "-data");
    let base = Json::object()
        .with_text("serviceAccountName", "tenant-engine")
        .with("automountServiceAccountToken", Json::Bool(false))
        .with("tolerations", Json::list()
            .item(Json::object()
                .with_text("key", "sandbox.gke.io/runtime")
                .with_text("operator", "Equal")
                .with_text("value", "gvisor")
                .with_text("effect", "NoSchedule")))
        .with("securityContext", Json::object()
            .with("runAsNonRoot", Json::Bool(true))
            .with("runAsUser", Json::Int(10001))
            .with("fsGroup", Json::Int(10001))
            .with("seccompProfile", Json::object()
                .with_text("type", "RuntimeDefault")))
        .with("containers", Json::list().item(container(spec)))
        .with("volumes", Json::list()
            .item(Json::object()
                .with_text("name", "data")
                .with("persistentVolumeClaim", Json::object()
                    .with_text("claimName", claim.as_str())))
            .item(Json::object()
                .with_text("name", "tmp")
                .with("emptyDir", Json::object())))
        .with_text("restartPolicy", "Always");
    if spec.gvisor {
        base.with_text("runtimeClassName", "gvisor")
    } else {
        base
    }
}

/// The pod that runs a tenant's engine.
pub open spec fn pod_json(spec: TenantSpec<Seq<char>>) -> JsonView {
    JsonView::object()
        .with("apiVersion"@, JsonView::Text("v1"@))
        .with("kind"@, JsonView::Text("Pod"@))
        .with("metadata"@, metadata_json(
            k8s::object_name(spec.tenant_id),
            JsonView::object()
                .with("app"@, JsonView::Text("houston-engine"@))
                .with("houston.ai/role"@, JsonView::Text("tenant-engine"@))
                .with("houston.ai/tenant"@, JsonView::Text(spec.tenant_id)),
        ))
        .with("spec"@, pod_spec_json(spec))
}

/// Build the Pod manifest for a tenant engine.
pub fn build_pod(spec: &TenantSpec) -> (res: Json)
    ensures
        res@ == pod_json(spec@),
{
    let tenant_id = spec.tenant_id.as_str();
    let name = pod_name(tenant_id);
    Json::object()
        .with_text("apiVersion", "v1")
        .with_text("kind", "Pod")
        .with("metadata", metadata(
            name.as_str(),
            Json::object()
                .with_text("app", "houston-engine")
                .with_text("houston.ai/role", "tenant-engine")
                .with_text("houston.ai/tenant", tenant_id),
        ))
        .with("spec", pod_spec(spec))
}

/// The service in front of a tenant's pod: it finds the pod by the tenant's label.
pub open spec fn service_json(spec: TenantSpec<Seq<char>>) -> JsonView {
    JsonView::object()
        .with("apiVersion"@, JsonView::Text("v1"@))
        .with("kind"@, JsonView::Text("Service"@))
        .with("metadata"@, metadata_json(
            k8s::object_name(spec.tenant_id),
            tenant_label_json(spec.tenant_id),
        ))
        .with("spec"@, JsonView::object()
            .with("selector"@, tenant_label_json(spec.tenant_id))
            .with("ports"@, JsonView::list()
                .item(JsonView::object()
                    .with("name"@, JsonView::Text("http"@))
                    .with("port"@, JsonView::Int(7777))
                    .with("targetPort"@, JsonView::Int(7777))
                    .with("protocol"@, JsonView::Text("TCP"@))))
            .with("type"@, JsonView::Text("ClusterIP"@)))
}

/// Build a ClusterIP Service so the control plane can reach the tenant pod.
pub fn build_service(spec: &TenantSpec) -> (res: Json)
    ensures
        res@ == service_json(spec@),
{
    let tenant_id = spec.tenant_id.as_str();
    let name = pod_name(tenant_id);
    Json::object()
        .with_text("apiVersion", "v1")
        .with_text("kind", "Service")
        .with("metadata", metadata(name.as_str(), tenant_label(tenant_id)))
        .with("spec", Json::object()
            .with("selector", tenant_label(tenant_id))
            .with("ports", Json::list()
                .item(Json::object()
                    .with_text("name", "http")
                    .with("port", Json::Int(7777))
                    .with("targetPort", Json::Int(7777))
                    .with_text("protocol", "TCP")))
            .with_text("type", "ClusterIP"))
}

/// The route from a tenant's host name, below `domain`, to the tenant's service.
pub open spec fn httproute_json(tenant_id: Seq<char>, domain: Seq<char>) -> JsonView {
    JsonView::object()
        .with("apiVersion"@, JsonView::Text("gateway.networking.k8s.io/v1"@))
        .with("kind"@, JsonView::Text("HTTPRoute"@))
        .with("metadata"@, metadata_json(k8s::object_name(tenant_id), tenant_label_json(tenant_id)))
        .with("spec"@, JsonView::object()
            .with("parentRefs"@, JsonView::list()
                .item(JsonView::object()
                    .with("name"@, JsonView::Text("houston-gateway"@))
                    .with("namespace"@, JsonView::Text("houston-system"@))
                    .with("kind"@, JsonView::Text("Gateway"@))))
            .with("hostnames"@, JsonView::list().item(JsonView::Text(tenant_id + "."@ + domain)))
            .with("rules"@, JsonView::list()
                .item(JsonView::object()
                    .with("matches"@, JsonView::list()
                        .item(JsonView::object()
                            .with("path"@, JsonView::object()
                                .with("type"@, JsonView::Text("PathPrefix"@))
                                .with("value"@, JsonView::Text("/"@)))))
                    .with("backendRefs"@, JsonView::list()
                        .item(JsonView::object()
                            .with("name"@, JsonView::Text(k8s::object_name(tenant_id)))
                            .with("port"@, JsonView::Int(7777)))))))
}

/// Build a Gateway API HTTPRoute for subdomain-based routing.
///
/// Routes `{tenant_id}.{domain}` to the Service `tenant-{tenant_id}:7777`. Needs a Gateway named
/// `houston-gateway` in the `houston-system` namespace.
pub fn build_httproute(spec: &TenantSpec) -> (res: Json)
    requires
        spec.gateway_domain is Some,
    ensures
        res@ == httproute_json(spec@.tenant_id, spec@.gateway_domain->0),
{
    let tenant_id = spec.tenant_id.as_str();
    let domain = spec.gateway_domain.as_ref().unwrap();
    let name = pod_name(tenant_id);
    let hostname = cat3(tenant_id, ".", domain.as_str());
    Json::object()
        .with_text("apiVersion", "gateway.networking.k8s.io/v1")
        .with_text("kind", "HTTPRoute")
        .with("metadata", metadata(name.as_str(), tenant_label(tenant_id)))
        .with("spec", Json::object()
            .with("parentRefs", Json::list()
                .item(Json::object()
                    .with_text("name", "houston-gateway")
                    .with_text("namespace", "houston-system")
                    .with_text("kind", "Gateway")))
            .with("hostnames", Json::list().item(Json::text(hostname.as_str())))
            .with("rules", Json::list()
                .item(Json::object()
                    .with("matches", Json::list()
                        .item(Json::object()
                            .with("path", Json::object()
                                .with_text("type", "PathPrefix")
                                .with_text("value", "/"))))
                    .with("backendRefs", Json::list()
                        .item(Json::object()
                            .with_text("name", name.as_str())
                            .with("port", Json::Int(7777)))))))
}

/// The three bytes of a group can be told from its four characters.
proof fn base64_groups_are_distinct(a: int, b: int, c: int, x: int, y: int, z: int)
    requires
        0 <= a < 256,
        0 <= b < 256,
        0 <= c < 256,
        0 <= x < 256,
        0 <= y < 256,
        0 <= z < 256,
        base64_digit(a / 4) == base64_digit(x / 4),
        base64_digit(a % 4 * 16 + b / 16) == base64_digit(x % 4 * 16 + y / 16),
    ensures
        a == x,
        b / 16 == y / 16,
        base64_digit(b % 16 * 4 + c / 64) == base64_digit(y % 16 * 4 + z / 64) ==> b == y && c / 64
            == z / 64,
        base64_digit(b % 16 * 4 + c / 64) == base64_digit(y % 16 * 4 + z / 64) && base64_digit(
            c % 64,
        ) == base64_digit(z % 64) ==> c == z,
{
    assert(a / 4 == x / 4);
    assert(a % 4 * 16 + b / 16 == x % 4 * 16 + y / 16);
    assert(a % 4 == x % 4);
    if base64_digit(b % 16 * 4 + c / 64) == base64_digit(y % 16 * 4 + z / 64) {
        assert(b % 16 * 4 + c / 64 == y % 16 * 4 + z / 64);
        assert(b % 16 == y % 16);
    }
}

/// Bytes that differ have different base64 texts.
pub proof fn base64_texts_are_distinct(a: Seq<u8>, b: Seq<u8>)
    requires
        base64_text(a) == base64_text(b),
    ensures
        a == b,
{
    let left = base64_text(a);
    let right = base64_text(b);
    assert(left.len() == (a.len() + 2) / 3 * 4);
    assert(right.len() == (b.len() + 2) / 3 * 4);
    let groups = (a.len() + 2) / 3;
    if groups > 0 {
        let at = (groups - 1) * 3;
        let i = groups * 4 - 2;
        assert(i / 4 * 3 == at && i % 4 == 2 && (i + 1) / 4 * 3 == at && (i + 1) % 4 == 3);
        assert(left[i] == right[i] && left[i + 1] == right[i + 1]);
        assert(left[i] == '=' <==> a.len() == at + 1);
        assert(right[i] == '=' <==> b.len() == at + 1);
        assert(left[i + 1] == '=' <==> a.len() <= at + 2);
        assert(right[i + 1] == '=' <==> b.len() <= at + 2);
    }
    assert(a.len() == b.len());
    assert forall|k: int| 0 <= k < a.len() implies a[k] == b[k] by {
        let at = k / 3 * 3;
        let i = k / 3 * 4;
        assert(i / 4 * 3 == at && i % 4 == 0);
        assert((i + 1) / 4 * 3 == at && (i + 1) % 4 == 1);
        assert((i + 2) / 4 * 3 == at && (i + 2) % 4 == 2);
        assert((i + 3) / 4 * 3 == at && (i + 3) % 4 == 3);
        assert(left[i] == right[i] && left[i + 1] == right[i + 1]);
        assert(left[i + 2] == right[i + 2] && left[i + 3] == right[i + 3]);
        base64_groups_are_distinct(
            byte_at(a, at),
            byte_at(a, at + 1),
            byte_at(a, at + 2),
            byte_at(b, at),
            byte_at(b, at + 1),
            byte_at(b, at + 2),
        );
        assert(k == at || k == at + 1 || k == at + 2);
    }
}

} // verus!
