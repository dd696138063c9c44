//! What holds of a tenant's objects and of the operations on them.
use super::operations::{
    KubeActionView, KubeEventView, KubeFlow, KubeStep, ManifestView, ObjectKind, ObjectRef,
    Operation, Phase, Report,
};
use super::{KubeError, TenantSpec, NAMESPACE};
use crate::json::JsonView;
use crate::k8s;
use crate::k8s::manifests;
use crate::k8s::operations;
use vstd::prelude::*;

verus! {

/// The keys of the documents: most differ in length, and those that do not, where they meet in one
/// object, differ in a letter.
proof fn keys_differ()
    ensures
        "allowPrivilegeEscalation"@.len() == 24,
        "apiVersion"@.len() == 10,
        "automountServiceAccountToken"@.len() == 28,
        "backendRefs"@.len() == 11,
        "capabilities"@.len() == 12,
        "containerPort"@.len() == 13,
        "containers"@.len() == 10,
        "data"@.len() == 4,
        "emptyDir"@.len() == 8,
        "env"@.len() == 3,
        "fsGroup"@.len() == 7,
        "hostnames"@.len() == 9,
        "image"@.len() == 5,
        "key"@.len() == 3,
        "kind"@.len() == 4,
        "labels"@.len() == 6,
        "livenessProbe"@.len() == 13,
        "matches"@.len() == 7,
        "metadata"@.len() == 8,
        "mountPath"@.len() == 9,
        "name"@.len() == 4,
        "namespace"@.len() == 9,
        "parentRefs"@.len() == 10,
        "persistentVolumeClaim"@.len() == 21,
        "port"@.len() == 4,
        "ports"@.len() == 5,
        "protocol"@.len() == 8,
        "readOnlyRootFilesystem"@.len() == 22,
        "readinessProbe"@.len() == 14,
        "resources"@.len() == 9,
        "restartPolicy"@.len() == 13,
        "rules"@.len() == 5,
        "runAsNonRoot"@.len() == 12,
        "runAsUser"@.len() == 9,
        "runtimeClassName"@.len() == 16,
        "seccompProfile"@.len() == 14,
        "securityContext"@.len() == 15,
        "selector"@.len() == 8,
        "serviceAccountName"@.len() == 18,
        "spec"@.len() == 4,
        "targetPort"@.len() == 10,
        "tolerations"@.len() == 11,
        "type"@.len() == 4,
        "valueFrom"@.len() == 9,
        "volumeMounts"@.len() == 12,
        "volumes"@.len() == 7,
        "kind"@ != "spec"@,
        "kind"@ != "type"@,
        "type"@ != "data"@,
        "kind"@ != "data"@,
        "name"@ != "port"@,
        "image"@ != "ports"@,
{
    reveal_strlit("allowPrivilegeEscalation");
    reveal_strlit("apiVersion");
    reveal_strlit("automountServiceAccountToken");
    reveal_strlit("backendRefs");
    reveal_strlit("capabilities");
    reveal_strlit("containerPort");
    reveal_strlit("containers");
    reveal_strlit("data");
    reveal_strlit("emptyDir");
    reveal_strlit("env");
    reveal_strlit("fsGroup");
    reveal_strlit("hostnames");
    reveal_strlit("image");
    reveal_strlit("key");
    reveal_strlit("kind");
    reveal_strlit("labels");
    reveal_strlit("livenessProbe");
    reveal_strlit("matches");
    reveal_strlit("metadata");
    reveal_strlit("mountPath");
    reveal_strlit("name");
    reveal_strlit("namespace");
    reveal_strlit("parentRefs");
    reveal_strlit("persistentVolumeClaim");
    reveal_strlit("port");
    reveal_strlit("ports");
    reveal_strlit("protocol");
    reveal_strlit("readOnlyRootFilesystem");
    reveal_strlit("readinessProbe");
    reveal_strlit("resources");
    reveal_strlit("restartPolicy");
    reveal_strlit("rules");
    reveal_strlit("runAsNonRoot");
    reveal_strlit("runAsUser");
    reveal_strlit("runtimeClassName");
    reveal_strlit("seccompProfile");
    reveal_strlit("securityContext");
    reveal_strlit("selector");
    reveal_strlit("serviceAccountName");
    reveal_strlit("spec");
    reveal_strlit("targetPort");
    reveal_strlit("tolerations");
    reveal_strlit("type");
    reveal_strlit("valueFrom");
    reveal_strlit("volumeMounts");
    reveal_strlit("volumes");
    assert("kind"@[0] != "spec"@[0]);
    assert("kind"@[0] != "type"@[0]);
    assert("type"@[0] != "data"@[0]);
    assert("kind"@[0] != "data"@[0]);
    assert("name"@[0] != "port"@[0]);
    assert("image"@[0] != "ports"@[0]);
}

/// A document of the Kubernetes API has metadata and a specification.
proof fn documents_have_parts(
    version: JsonView,
    kind: JsonView,
    metadata: JsonView,
    spec: JsonView,
)
    ensures
        ({
            let document = JsonView::object()
                .with("apiVersion"@, version)
                .with("kind"@, kind)
                .with("metadata"@, metadata)
                .with("spec"@, spec);
            &&& document.has("metadata"@) && document.at("metadata"@) == metadata
            &&& document.has("spec"@) && document.at("spec"@) == spec
            &&& document.has("kind"@) && document.at("kind"@) == kind
        }),
{
    keys_differ();
}

/// The parts of an object's metadata.
proof fn metadata_has_parts(name: Seq<char>, labels: JsonView)
    ensures
        ({
            let metadata = manifests::metadata_json(name, labels);
            &&& metadata.has("name"@) && metadata.at("name"@) == JsonView::Text(name)
            &&& metadata.has("namespace"@)
            &&& metadata.at("namespace"@) == JsonView::Text(NAMESPACE@)
            &&& metadata.has("labels"@) && metadata.at("labels"@) == labels
        }),
{
    keys_differ();
}

/// The parts of a pod that the laws speak of.
proof fn pod_has_parts(spec: TenantSpec<Seq<char>>)
    ensures
        ({
            let pod = manifests::pod_json(spec);
            let run = pod.at("spec"@);
            &&& pod.has("metadata"@)
            &&& pod.at("metadata"@) == manifests::metadata_json(
                k8s::object_name(spec.tenant_id),
                JsonView::object()
                    .with("app"@, JsonView::Text("houston-engine"@))
                    .with("houston.ai/role"@, JsonView::Text("tenant-engine"@))
                    .with("houston.ai/tenant"@, JsonView::Text(spec.tenant_id)),
            )
            &&& pod.has("spec"@)
            &&& run == manifests::pod_spec_json(spec)
            &&& run.has("automountServiceAccountToken"@)
            &&& run.at("automountServiceAccountToken"@) == JsonView::Bool(false)
            &&& run.has("securityContext"@)
            &&& run.at("securityContext"@) == JsonView::object()
                .with("runAsNonRoot"@, JsonView::Bool(true))
                .with("runAsUser"@, JsonView::Int(10001))
                .with("fsGroup"@, JsonView::Int(10001))
                .with("seccompProfile"@, JsonView::object()
                    .with("type"@, JsonView::Text("RuntimeDefault"@)))
            &&& run.has("containers"@)
            &&& run.at("containers"@) == JsonView::list().item(manifests::container_json(spec))
            &&& run.has("volumes"@)
            &&& run.at("volumes"@) == JsonView::list()
                .item(JsonView::object()
                    .with("name"@, JsonView::Text("data"@))
                    .with("persistentVolumeClaim"@, JsonView::object()
                        .with("claimName"@, JsonView::Text(k8s::pvc_name(spec.tenant_id)))))
                .item(JsonView::object()
                    .with("name"@, JsonView::Text("tmp"@))
                    .with("emptyDir"@, JsonView::object()))
            &&& run.has("runtimeClassName"@) <==> spec.gvisor
            &&& spec.gvisor ==> run.at("runtimeClassName"@) == JsonView::Text("gvisor"@)
        }),
{
    documents_have_parts(
        JsonView::Text("v1"@),
        JsonView::Text("Pod"@),
        manifests::metadata_json(
            k8s::object_name(spec.tenant_id),
            JsonView::object()
                .with("app"@, JsonView::Text("houston-engine"@))
                .with("houston.ai/role"@, JsonView::Text("tenant-engine"@))
                .with("houston.ai/tenant"@, JsonView::Text(spec.tenant_id)),
        ),
        manifests::pod_spec_json(spec),
    );
    keys_differ();
}

/// Tenant pods run non-root, drop Linux capabilities, disable privilege escalation, use the
/// `RuntimeDefault` seccomp profile, get no service account token, and can write only to the
/// tenant's volume and to a volume for temporary files.
pub proof fn pods_are_hardened(spec: TenantSpec<Seq<char>>)
    ensures
        ({
            let run = manifests::pod_json(spec).at("spec"@);
            let context = run.at("securityContext"@);
            let container = run.at("containers"@).nth(0);
            let limits = container.at("securityContext"@);
            &&& run.at("automountServiceAccountToken"@) == JsonView::Bool(false)
            &&& context.at("runAsNonRoot"@) == JsonView::Bool(true)
            &&& context.at("runAsUser"@) == JsonView::Int(10001)
            &&& context.at("fsGroup"@) == JsonView::Int(10001)
            &&& context.at("seccompProfile"@).at("type"@) == JsonView::Text("RuntimeDefault"@)
            &&& run.at("containers"@)->List_0.len() == 1
            &&& limits.at("allowPrivilegeEscalation"@) == JsonView::Bool(false)
            &&& limits.at("readOnlyRootFilesystem"@) == JsonView::Bool(true)
            &&& limits.at("capabilities"@).at("drop"@) == JsonView::list().item(JsonView::Text("ALL"@))
            &&& container.at("volumeMounts"@)->List_0.len() == 2
            &&& container.at("volumeMounts"@).nth(0).at("name"@) == JsonView::Text("data"@)
            &&& container.at("volumeMounts"@).nth(0).at("mountPath"@) == JsonView::Text("/data"@)
            &&& container.at("volumeMounts"@).nth(1).at("name"@) == JsonView::Text("tmp"@)
            &&& container.at("volumeMounts"@).nth(1).at("mountPath"@) == JsonView::Text("/tmp"@)
            &&& run.at("volumes"@)->List_0.len() == 2
            &&& run.at("volumes"@).nth(0).at("name"@) == JsonView::Text("data"@)
            &&& run.at("volumes"@).nth(1).at("name"@) == JsonView::Text("tmp"@)
            &&& run.at("volumes"@).nth(1).at("emptyDir"@) == JsonView::object()
        }),
{
    pod_has_parts(spec);
    keys_differ();
    container_has_parts(spec);
}

/// The parts of the engine's container that the laws speak of.
proof fn container_has_parts(spec: TenantSpec<Seq<char>>)
    ensures
        ({
            let container = manifests::container_json(spec);
            &&& container.has("securityContext"@)
            &&& container.at("securityContext"@) == JsonView::object()
                .with("allowPrivilegeEscalation"@, JsonView::Bool(false))
                .with("readOnlyRootFilesystem"@, JsonView::Bool(true))
                .with("capabilities"@, JsonView::object()
                    .with("drop"@, JsonView::list().item(JsonView::Text("ALL"@))))
            &&& container.at("image"@) == JsonView::Text(spec.engine_image)
            &&& container.at("ports"@) == JsonView::list()
                .item(JsonView::object()
                    .with("name"@, JsonView::Text("http"@))
                    .with("containerPort"@, JsonView::Int(7777))
                    .with("protocol"@, JsonView::Text("TCP"@)))
            &&& container.at("env"@) == manifests::environment_json(spec.tenant_id)
            &&& container.at("volumeMounts"@) == JsonView::list()
                .item(JsonView::object()
                    .with("name"@, JsonView::Text("data"@))
                    .with("mountPath"@, JsonView::Text("/data"@)))
                .item(JsonView::object()
                    .with("name"@, JsonView::Text("tmp"@))
                    .with("mountPath"@, JsonView::Text("/tmp"@)))
        }),
{
    keys_differ();
}

/// A pod names the sandboxed runtime if and only if sandboxing is on.
pub proof fn sandboxing_is_as_configured(spec: TenantSpec<Seq<char>>)
    ensures
        ({
            let run = manifests::pod_json(spec).at("spec"@);
            &&& run.has("runtimeClassName"@) <==> spec.gvisor
            &&& spec.gvisor ==> run.at("runtimeClassName"@) == JsonView::Text("gvisor"@)
        }),
{
    pod_has_parts(spec);
}

/// The name of an object.
pub open spec fn name_of(document: JsonView) -> JsonView {
    document.at("metadata"@).at("name"@)
}

/// The namespace of an object.
pub open spec fn namespace_of(document: JsonView) -> JsonView {
    document.at("metadata"@).at("namespace"@)
}

/// The labels of an object.
pub open spec fn labels_of(document: JsonView) -> JsonView {
    document.at("metadata"@).at("labels"@)
}

/// Whether a selector picks an object with these labels.
pub open spec fn selects(selector: JsonView, labels: JsonView) -> bool {
    forall|key: Seq<char>| #[trigger]
        selector.has(key) ==> labels.has(key) && labels.at(key) == selector.at(key)
}

/// The parts of a secret.
proof fn secret_has_parts(spec: TenantSpec<Seq<char>>)
    ensures
        ({
            let secret = manifests::secret_json(spec);
            &&& secret.at("metadata"@) == manifests::metadata_json(
                k8s::secret_name(spec.tenant_id),
                manifests::tenant_label_json(spec.tenant_id),
            )
            &&& secret.at("data"@) == JsonView::object()
                .with("token"@, JsonView::Text(
                    manifests::base64_text(vstd::utf8::encode_utf8(spec.engine_token)),
                ))
        }),
{
    keys_differ();
}

/// The names of a tenant's objects.
pub proof fn objects_are_named_after_their_tenant(spec: TenantSpec<Seq<char>>)
    ensures
        name_of(manifests::pvc_json(spec)) == JsonView::Text(k8s::pvc_name(spec.tenant_id)),
        name_of(manifests::secret_json(spec)) == JsonView::Text(k8s::secret_name(spec.tenant_id)),
        name_of(manifests::pod_json(spec)) == JsonView::Text(k8s::object_name(spec.tenant_id)),
        name_of(manifests::service_json(spec)) == JsonView::Text(k8s::object_name(spec.tenant_id)),
        spec.gateway_domain is Some ==> name_of(
            manifests::httproute_json(spec.tenant_id, spec.gateway_domain->0),
        ) == JsonView::Text(k8s::object_name(spec.tenant_id)),
{
    objects_have_metadata(spec);
}

/// All objects of all tenants live in one namespace: their documents say so, and there they are
/// created.
pub proof fn objects_live_in_the_namespace(spec: TenantSpec<Seq<char>>)
    ensures
        forall|phase: Phase, i: int|
            0 <= i < phase.objects(spec).len() ==> (#[trigger] phase.objects(spec)[i]).namespace
                == NAMESPACE@,
        namespace_of(manifests::pvc_json(spec)) == JsonView::Text(NAMESPACE@),
        namespace_of(manifests::secret_json(spec)) == JsonView::Text(NAMESPACE@),
        namespace_of(manifests::pod_json(spec)) == JsonView::Text(NAMESPACE@),
        namespace_of(manifests::service_json(spec)) == JsonView::Text(NAMESPACE@),
        spec.gateway_domain is Some ==> namespace_of(
            manifests::httproute_json(spec.tenant_id, spec.gateway_domain->0),
        ) == JsonView::Text(NAMESPACE@),
{
    objects_have_metadata(spec);
}

/// Every object carries its tenant's label.
pub proof fn objects_carry_their_tenants_label(spec: TenantSpec<Seq<char>>)
    ensures
        labels_of(manifests::pvc_json(spec)).at("houston.ai/tenant"@) == JsonView::Text(
            spec.tenant_id,
        ),
        labels_of(manifests::secret_json(spec)).at("houston.ai/tenant"@) == JsonView::Text(
            spec.tenant_id,
        ),
        labels_of(manifests::pod_json(spec)).at("houston.ai/tenant"@) == JsonView::Text(
            spec.tenant_id,
        ),
        labels_of(manifests::service_json(spec)).at("houston.ai/tenant"@) == JsonView::Text(
            spec.tenant_id,
        ),
        spec.gateway_domain is Some ==> labels_of(
            manifests::httproute_json(spec.tenant_id, spec.gateway_domain->0),
        ).at("houston.ai/tenant"@) == JsonView::Text(spec.tenant_id),
{
    objects_have_metadata(spec);
}

/// The metadata of a tenant's objects.
proof fn objects_have_metadata(spec: TenantSpec<Seq<char>>)
    ensures
        ({
            let id = spec.tenant_id;
            let label = manifests::tenant_label_json(id);
            let pvc = manifests::pvc_json(spec);
            let secret = manifests::secret_json(spec);
            let pod = manifests::pod_json(spec);
            let service = manifests::service_json(spec);
            &&& name_of(pvc) == JsonView::Text(k8s::pvc_name(id))
            &&& namespace_of(pvc) == JsonView::Text(NAMESPACE@)
            &&& labels_of(pvc) == JsonView::object()
                .with("app"@, JsonView::Text("houston-engine"@))
                .with("houston.ai/tenant"@, JsonView::Text(id))
            &&& name_of(secret) == JsonView::Text(k8s::secret_name(id))
            &&& namespace_of(secret) == JsonView::Text(NAMESPACE@)
            &&& labels_of(secret) == label
            &&& name_of(pod) == JsonView::Text(k8s::object_name(id))
            &&& namespace_of(pod) == JsonView::Text(NAMESPACE@)
            &&& labels_of(pod) == JsonView::object()
                .with("app"@, JsonView::Text("houston-engine"@))
                .with("houston.ai/role"@, JsonView::Text("tenant-engine"@))
                .with("houston.ai/tenant"@, JsonView::Text(id))
            &&& name_of(service) == JsonView::Text(k8s::object_name(id))
            &&& namespace_of(service) == JsonView::Text(NAMESPACE@)
            &&& labels_of(service) == label
            &&& spec.gateway_domain is Some ==> {
                let route = manifests::httproute_json(id, spec.gateway_domain->0);
                &&& name_of(route) == JsonView::Text(k8s::object_name(id))
                &&& namespace_of(route) == JsonView::Text(NAMESPACE@)
                &&& labels_of(route) == label
            }
        }),
{
    let id = spec.tenant_id;
    let label = manifests::tenant_label_json(id);
    let pvc = manifests::pvc_json(spec);
    documents_have_parts(
        JsonView::Text("v1"@),
        JsonView::Text("PersistentVolumeClaim"@),
        manifests::metadata_json(
            k8s::pvc_name(id),
            JsonView::object()
                .with("app"@, JsonView::Text("houston-engine"@))
                .with("houston.ai/tenant"@, JsonView::Text(id)),
        ),
        pvc.at("spec"@),
    );
    metadata_has_parts(
        k8s::pvc_name(id),
        JsonView::object()
            .with("app"@, JsonView::Text("houston-engine"@))
            .with("houston.ai/tenant"@, JsonView::Text(id)),
    );
    secret_has_parts(spec);
    metadata_has_parts(k8s::secret_name(id), label);
    pod_has_parts(spec);
    metadata_has_parts(
        k8s::object_name(id),
        JsonView::object()
            .with("app"@, JsonView::Text("houston-engine"@))
            .with("houston.ai/role"@, JsonView::Text("tenant-engine"@))
            .with("houston.ai/tenant"@, JsonView::Text(id)),
    );
    service_has_parts(spec);
    metadata_has_parts(k8s::object_name(id), label);
    if spec.gateway_domain is Some {
        route_has_parts(id, spec.gateway_domain->0);
    }
    keys_differ();
}

/// The parts of a service.
proof fn service_has_parts(spec: TenantSpec<Seq<char>>)
    ensures
        ({
            let service = manifests::service_json(spec);
            let run = service.at("spec"@);
            &&& service.at("metadata"@) == manifests::metadata_json(
                k8s::object_name(spec.tenant_id),
                manifests::tenant_label_json(spec.tenant_id),
            )
            &&& run.at("selector"@) == manifests::tenant_label_json(spec.tenant_id)
            &&& run.at("type"@) == JsonView::Text("ClusterIP"@)
            &&& run.at("ports"@)->List_0.len() == 1
            &&& run.at("ports"@).nth(0).at("port"@) == JsonView::Int(7777)
            &&& run.at("ports"@).nth(0).at("targetPort"@) == JsonView::Int(7777)
        }),
{
    keys_differ();
}

/// The parts of a route.
proof fn route_has_parts(tenant_id: Seq<char>, domain: Seq<char>)
    ensures
        ({
            let route = manifests::httproute_json(tenant_id, domain);
            let run = route.at("spec"@);
            let backends = run.at("rules"@).nth(0).at("backendRefs"@);
            &&& route.at("metadata"@) == manifests::metadata_json(
                k8s::object_name(tenant_id),
                manifests::tenant_label_json(tenant_id),
            )
            &&& run.at("hostnames"@) == JsonView::list().item(
                JsonView::Text(tenant_id + "."@ + domain),
            )
            &&& run.at("rules"@)->List_0.len() == 1
            &&& backends->List_0.len() == 1
            &&& backends.nth(0).at("name"@) == JsonView::Text(k8s::object_name(tenant_id))
            &&& backends.nth(0).at("port"@) == JsonView::Int(7777)
        }),
{
    keys_differ();
}

/// A tenant's service picks the tenant's pod and no other tenant's, and leads to the port on which
/// the engine listens.
pub proof fn services_lead_to_their_pod(
    spec: TenantSpec<Seq<char>>,
    other: TenantSpec<Seq<char>>,
)
    ensures
        ({
            let service = manifests::service_json(spec).at("spec"@);
            let container = manifests::pod_json(spec).at("spec"@).at("containers"@).nth(0);
            &&& selects(service.at("selector"@), labels_of(manifests::pod_json(spec)))
            &&& selects(service.at("selector"@), labels_of(manifests::pod_json(other)))
                <==> other.tenant_id == spec.tenant_id
            &&& service.at("ports"@).nth(0).at("targetPort"@) == container.at("ports"@).nth(0).at(
                "containerPort"@,
            )
        }),
{
    let key = "houston.ai/tenant"@;
    let selector = manifests::tenant_label_json(spec.tenant_id);
    objects_have_metadata(spec);
    objects_have_metadata(other);
    service_has_parts(spec);
    pod_has_parts(spec);
    container_has_parts(spec);
    assert(selector.has(key));
    keys_differ();
}

/// The route of a tenant leads from the host of the tenant's public URL to the tenant's service, at
/// the service's port.
pub proof fn routes_lead_to_their_service(
    spec: TenantSpec<Seq<char>>,
    scheme: Seq<char>,
)
    requires
        spec.gateway_domain is Some,
    ensures
        ({
            let domain = spec.gateway_domain->0;
            let service = manifests::service_json(spec);
            let route = manifests::httproute_json(spec.tenant_id, domain).at("spec"@);
            let backend = route.at("rules"@).nth(0).at("backendRefs"@).nth(0);
            let host = route.at("hostnames"@).nth(0);
            &&& k8s::public_url(spec.tenant_id, scheme, domain) == scheme + "://"@ + host->Text_0
            &&& backend.at("name"@) == name_of(service)
            &&& backend.at("port"@) == service.at("spec"@).at("ports"@).nth(0).at("port"@)
        }),
{
    let domain = spec.gateway_domain->0;
    let host = spec.tenant_id + "."@ + domain;
    objects_have_metadata(spec);
    service_has_parts(spec);
    route_has_parts(spec.tenant_id, domain);
    assert(k8s::public_url(spec.tenant_id, scheme, domain) == scheme + "://"@ + host);
}

/// A tenant's pod mounts the tenant's volume claim as its data and takes its token from the
/// tenant's secret, where the secret holds it.
pub proof fn pods_use_their_claim_and_secret(spec: TenantSpec<Seq<char>>)
    ensures
        ({
            let run = manifests::pod_json(spec).at("spec"@);
            let data = run.at("volumes"@).nth(0);
            let token = run.at("containers"@).nth(0).at("env"@).nth(6);
            let source = token.at("valueFrom"@).at("secretKeyRef"@);
            let secret = manifests::secret_json(spec);
            &&& data.at("name"@) == JsonView::Text("data"@)
            &&& data.at("persistentVolumeClaim"@).at("claimName"@) == name_of(
                manifests::pvc_json(spec),
            )
            &&& token.at("name"@) == JsonView::Text("HOUSTON_ENGINE_TOKEN"@)
            &&& source.at("name"@) == name_of(secret)
            &&& secret.at("data"@).has(source.at("key"@)->Text_0)
        }),
{
    objects_have_metadata(spec);
    pod_has_parts(spec);
    container_has_parts(spec);
    secret_has_parts(spec);
    keys_differ();
}

/// Of a tenant's objects only the secret depends on the engine token.
pub proof fn only_the_secret_holds_the_token(
    spec: TenantSpec<Seq<char>>,
    other: TenantSpec<Seq<char>>,
)
    requires
        other == (TenantSpec { engine_token: other.engine_token, ..spec }),
    ensures
        manifests::pvc_json(spec) == manifests::pvc_json(other),
        manifests::pod_json(spec) == manifests::pod_json(other),
        manifests::service_json(spec) == manifests::service_json(other),
        Phase::Pod.objects(spec) == Phase::Pod.objects(other),
        Phase::Network.objects(spec) == Phase::Network.objects(other),
{
    assert(manifests::container_json(spec) == manifests::container_json(other));
    assert(manifests::pod_spec_json(spec) == manifests::pod_spec_json(other));
}

/// Secrets that hold the same were made from the same engine token.
pub proof fn secrets_tell_their_token(spec: TenantSpec<Seq<char>>, other: TenantSpec<Seq<char>>)
    requires
        manifests::secret_json(spec).at("data"@).at("token"@) == manifests::secret_json(other).at(
            "data"@,
        ).at("token"@),
    ensures
        spec.engine_token == other.engine_token,
{
    let bytes = vstd::utf8::encode_utf8(spec.engine_token);
    let other_bytes = vstd::utf8::encode_utf8(other.engine_token);
    secret_has_parts(spec);
    secret_has_parts(other);
    manifests::base64_texts_are_distinct(bytes, other_bytes);
    vstd::utf8::encode_utf8_decode_utf8(spec.engine_token);
    vstd::utf8::encode_utf8_decode_utf8(other.engine_token);
}

/// No two tenants share the name of an object.
pub proof fn tenants_share_no_names(a: Seq<char>, b: Seq<char>)
    requires
        a != b,
    ensures
        k8s::object_name(a) != k8s::object_name(b),
        k8s::secret_name(a) != k8s::secret_name(b),
        k8s::pvc_name(a) != k8s::pvc_name(b),
        k8s::cluster_url(a) != k8s::cluster_url(b),
{
    infixes_show("tenant-"@, a, b, Seq::empty());
    assert("tenant-"@ + a + Seq::<char>::empty() == k8s::object_name(a));
    assert("tenant-"@ + b + Seq::<char>::empty() == k8s::object_name(b));
    infixes_show("tenant-"@, a, b, "-token"@);
    infixes_show("tenant-"@, a, b, "-data"@);
    let tail = "."@ + NAMESPACE@ + ".svc.cluster.local:7777"@;
    infixes_show("http://"@, k8s::object_name(a), k8s::object_name(b), tail);
    assert("http://"@ + k8s::object_name(a) + tail == k8s::cluster_url(a));
    assert("http://"@ + k8s::object_name(b) + tail == k8s::cluster_url(b));
}

/// Texts that differ still differ between the same two texts.
proof fn infixes_show(before: Seq<char>, a: Seq<char>, b: Seq<char>, behind: Seq<char>)
    requires
        a != b,
    ensures
        before + a + behind != before + b + behind,
{
    let left = before + a + behind;
    let right = before + b + behind;
    if left == right {
        assert(left.len() == before.len() + a.len() + behind.len());
        assert(right.len() == before.len() + b.len() + behind.len());
        assert forall|i: int| 0 <= i < a.len() implies a[i] == b[i] by {
            assert(left[before.len() + i] == right[before.len() + i]);
        }
        assert(a == b);
    }
}

/// Whether a request to create an object was refused, other than because it was there already.
pub open spec fn refused(reply: Result<(), KubeError<Seq<char>>>) -> bool {
    reply matches Err(e) && e.code != Some(409u16)
}

/// Whether a request created its object.
pub open spec fn created_by(reply: Result<(), KubeError<Seq<char>>>) -> bool {
    reply is Ok
}

/// A batch comes to something good if and only if no reply of it is a refusal, and then tells
/// whether any object is new.
pub proof fn batches_settle_unless_refused(
    kinds: Seq<ObjectKind>,
    replies: Seq<Result<(), KubeError<Seq<char>>>>,
    created: bool,
)
    requires
        kinds.len() == replies.len(),
    ensures
        ({
            let outcome = operations::settled(kinds, replies, created);
            let any_refused = exists|i: int| 0 <= i < replies.len() && refused(#[trigger] replies[i]);
            let any_created = exists|i: int|
                0 <= i < replies.len() && created_by(#[trigger] replies[i]);
            &&& outcome is Err <==> any_refused
            &&& outcome is Ok ==> outcome == Ok::<bool, Seq<char>>(created || any_created)
        }),
    decreases replies.len(),
{
    if replies.len() > 0 {
        let rest = replies.skip(1);
        match k8s::creation(replies[0]) {
            Ok(new) => {
                batches_settle_unless_refused(kinds.skip(1), rest, created || new);
                assert forall|i: int| 0 <= i < rest.len() implies rest[i] == #[trigger] replies[i
                    + 1] by {}
                if exists|i: int| 0 <= i < rest.len() && refused(#[trigger] rest[i]) {
                    let i = choose|i: int| 0 <= i < rest.len() && refused(#[trigger] rest[i]);
                    assert(refused(replies[i + 1]));
                }
                if exists|i: int| 0 <= i < replies.len() && refused(#[trigger] replies[i]) {
                    let i = choose|i: int| 0 <= i < replies.len() && refused(#[trigger] replies[i]);
                    assert(refused(rest[i - 1]));
                }
                if exists|i: int| 0 <= i < rest.len() && created_by(#[trigger] rest[i]) {
                    let i = choose|i: int| 0 <= i < rest.len() && created_by(#[trigger] rest[i]);
                    assert(created_by(replies[i + 1]));
                }
                if exists|i: int| 0 <= i < replies.len() && created_by(#[trigger] replies[i]) {
                    let i = choose|i: int|
                        0 <= i < replies.len() && created_by(#[trigger] replies[i]);
                    if i > 0 {
                        assert(created_by(rest[i - 1]));
                    }
                }
            },
            Err(_) => {
                assert(refused(replies[0]));
            },
        }
    }
}

/// Where a flow has got to after some events. It stays where it is done.
pub open spec fn run(step: KubeStep<Seq<char>>, events: Seq<KubeEventView>) -> KubeStep<Seq<char>>
    decreases events.len(),
{
    if events.len() == 0 {
        step
    } else {
        match run(step, events.drop_last()) {
            KubeStep::Await(flow) => flow.after(events.last()),
            done => done,
        }
    }
}

/// The replies to the three phases of provisioning.
pub struct Replies {
    pub storage: Seq<Result<(), KubeError<Seq<char>>>>,
    pub pod: Seq<Result<(), KubeError<Seq<char>>>>,
    pub network: Seq<Result<(), KubeError<Seq<char>>>>,
}

impl Replies {
    /// Whether there is one reply for each object.
    pub open spec fn answer(self, spec: TenantSpec<Seq<char>>) -> bool {
        &&& self.storage.len() == Phase::Storage.objects(spec).len()
        &&& self.pod.len() == Phase::Pod.objects(spec).len()
        &&& self.network.len() == Phase::Network.objects(spec).len()
    }

    /// The events that bring them, behind the one that brings the client.
    pub open spec fn events(self) -> Seq<KubeEventView> {
        seq![
            KubeEventView::Connected(Ok(())),
            KubeEventView::Created(self.storage),
            KubeEventView::Created(self.pod),
            KubeEventView::Created(self.network),
        ]
    }

    /// All of them.
    pub open spec fn all(self) -> Seq<Result<(), KubeError<Seq<char>>>> {
        self.storage + self.pod + self.network
    }
}

/// Provisioning succeeds if and only if no object is refused; objects that are there already do no
/// harm. It then tells whether any object is new.
pub proof fn provisioning_succeeds_unless_refused(spec: TenantSpec<Seq<char>>, replies: Replies)
    requires
        replies.answer(spec),
    ensures
        ({
            let end = run(
                KubeStep::Await(KubeFlow::Connecting(Operation::Provision(spec))),
                replies.events(),
            );
            let all = replies.all();
            let any_refused = exists|i: int| 0 <= i < all.len() && refused(#[trigger] all[i]);
            let any_created = exists|i: int| 0 <= i < all.len() && created_by(#[trigger] all[i]);
            &&& any_refused ==> (end matches KubeStep::Done(Err(_)))
            &&& !any_refused ==> end == KubeStep::<Seq<char>>::Done(
                Ok(Report::Provisioned { created: any_created }),
            )
        }),
{
    let routed = spec.gateway_domain is Some;
    let begin = KubeStep::Await(KubeFlow::Connecting(Operation::Provision(spec)));
    let events = replies.events();
    let all = replies.all();
    let first = operations::settled(Phase::Storage.kinds(routed), replies.storage, false);
    batches_settle_unless_refused(Phase::Storage.kinds(routed), replies.storage, false);
    assert(events.drop_last() == seq![events[0], events[1], events[2]]);
    assert(events.drop_last().drop_last() == seq![events[0], events[1]]);
    assert(events.drop_last().drop_last().drop_last() == seq![events[0]]);
    assert(events.drop_last().drop_last().drop_last().drop_last().len() == 0);
    reveal_with_fuel(run, 5);
    let s = replies.storage.len() as int;
    let p = replies.pod.len() as int;
    assert forall|i: int| 0 <= i < s implies #[trigger] replies.storage[i] == all[i] by {}
    assert forall|i: int| 0 <= i < p implies #[trigger] replies.pod[i] == all[s + i] by {}
    assert forall|i: int| 0 <= i < replies.network.len() implies #[trigger] replies.network[i]
        == all[s + p + i] by {}
    assert forall|i: int| 0 <= i < all.len() implies #[trigger] all[i] == (if i < s {
        replies.storage[i]
    } else if i < s + p {
        replies.pod[i - s]
    } else {
        replies.network[i - s - p]
    }) by {}
    if first is Ok {
        let second = operations::settled(Phase::Pod.kinds(routed), replies.pod, first->Ok_0);
        batches_settle_unless_refused(Phase::Pod.kinds(routed), replies.pod, first->Ok_0);
        if second is Ok {
            batches_settle_unless_refused(
                Phase::Network.kinds(routed),
                replies.network,
                second->Ok_0,
            );
        }
    }
}

/// Provisioning is idempotent: where every object is there already it succeeds and creates nothing.
pub proof fn provisioning_is_idempotent(spec: TenantSpec<Seq<char>>, replies: Replies)
    requires
        replies.answer(spec),
        forall|i: int|
            0 <= i < replies.all().len() ==> (#[trigger] replies.all()[i] matches Err(e)
                && e.code == Some(409u16)),
    ensures
        run(
            KubeStep::Await(KubeFlow::Connecting(Operation::Provision(spec))),
            replies.events(),
        ) == KubeStep::<Seq<char>>::Done(Ok(Report::Provisioned { created: false })),
{
    provisioning_succeeds_unless_refused(spec, replies);
}

/// Provisioning goes phase by phase: each phase asks for its objects at once, the next one begins
/// only when none of them was refused, and a refusal is the end.
pub proof fn provisioning_goes_phase_by_phase(
    spec: TenantSpec<Seq<char>>,
    phase: Phase,
    created: bool,
    replies: Seq<Result<(), KubeError<Seq<char>>>>,
)
    requires
        replies.len() == phase.objects(spec).len(),
    ensures
        ({
            let flow = KubeFlow::Provisioning { spec, phase, created };
            let next = flow.after(KubeEventView::Created(replies));
            let any_refused = exists|i: int| 0 <= i < replies.len() && refused(#[trigger] replies[i]);
            &&& flow.asks() == KubeActionView::Create(phase.objects(spec))
            &&& any_refused ==> (next matches KubeStep::Done(Err(_)))
            &&& !any_refused ==> match phase {
                Phase::Storage => next matches KubeStep::Await(f) && f.asks()
                    == KubeActionView::Create(Phase::Pod.objects(spec)),
                Phase::Pod => next matches KubeStep::Await(f) && f.asks()
                    == KubeActionView::Create(Phase::Network.objects(spec)),
                Phase::Network => next matches KubeStep::Done(Ok(Report::Provisioned { .. })),
            }
        }),
{
    batches_settle_unless_refused(phase.kinds(spec.gateway_domain is Some), replies, created);
}

/// Whether an object that is to be created is among those to be deleted.
pub open spec fn deleted_by(object: ManifestView, action: KubeActionView) -> bool {
    action matches KubeActionView::Delete(objects) && exists|i: int|
        0 <= i < objects.len() && (#[trigger] objects[i]).kind == object.kind && objects[i].namespace
            == object.namespace && name_of(object.document) == JsonView::Text(objects[i].name)
}

/// Deprovisioning deletes every object that provisioning creates.
pub proof fn deprovisioning_deletes_what_provisioning_creates(
    spec: TenantSpec<Seq<char>>,
    phase: Phase,
    i: int,
)
    requires
        0 <= i < phase.objects(spec).len(),
    ensures
        ({
            let object = phase.objects(spec)[i];
            let withdrawing = KubeFlow::Withdrawing { tenant_id: spec.tenant_id };
            let erasing = KubeFlow::Erasing { tenant_id: spec.tenant_id };
            deleted_by(object, withdrawing.asks()) || deleted_by(object, erasing.asks())
        }),
{
    let id = spec.tenant_id;
    let name = k8s::object_name(id);
    let withdrawn = seq![
        ObjectRef::of(ObjectKind::HttpRoute, name),
        ObjectRef::of(ObjectKind::Service, name),
        ObjectRef::of(ObjectKind::Pod, name),
    ];
    let erased = seq![
        ObjectRef::of(ObjectKind::Secret, k8s::secret_name(id)),
        ObjectRef::of(ObjectKind::Pvc, k8s::pvc_name(id)),
    ];
    objects_have_metadata(spec);
    match phase.objects(spec)[i].kind {
        ObjectKind::HttpRoute => {
            assert(withdrawn[0].kind == ObjectKind::HttpRoute);
        },
        ObjectKind::Service => {
            assert(withdrawn[1].kind == ObjectKind::Service);
        },
        ObjectKind::Pod => {
            assert(withdrawn[2].kind == ObjectKind::Pod);
        },
        ObjectKind::Secret => {
            assert(erased[0].kind == ObjectKind::Secret);
        },
        ObjectKind::Pvc => {
            assert(erased[1].kind == ObjectKind::Pvc);
        },
    }
}

/// Deprovisioning asks for both of its batches and succeeds, whatever the replies are.
pub proof fn deprovisioning_does_not_mind_refusals(
    tenant_id: Seq<char>,
    withdrawn: Seq<Result<(), KubeError<Seq<char>>>>,
    erased: Seq<Result<(), KubeError<Seq<char>>>>,
)
    requires
        withdrawn.len() == 3,
        erased.len() == 2,
    ensures
        ({
            let begin = KubeFlow::Connecting(Operation::Deprovision(tenant_id));
            let withdrawing = KubeFlow::Withdrawing { tenant_id };
            let erasing = KubeFlow::Erasing { tenant_id };
            &&& begin.after(KubeEventView::Connected(Ok(()))) == KubeStep::Await(withdrawing)
            &&& withdrawing.after(KubeEventView::Deleted(withdrawn)) == KubeStep::Await(erasing)
            &&& erasing.after(KubeEventView::Deleted(erased)) == KubeStep::<Seq<char>>::Done(
                Ok(Report::Deprovisioned),
            )
        }),
{
}

/// Suspending a tenant deletes the pod that provisioning creates, and nothing else: the tenant's
/// data and token stay.
pub proof fn suspending_deletes_only_the_pod(spec: TenantSpec<Seq<char>>)
    ensures
        ({
            let begin = KubeFlow::Connecting(Operation::Suspend(spec.tenant_id));
            let flow = KubeFlow::Suspending { tenant_id: spec.tenant_id };
            let pod = Phase::Pod.objects(spec)[0];
            &&& begin.after(KubeEventView::Connected(Ok(()))) == KubeStep::Await(flow)
            &&& flow.asks() matches KubeActionView::Delete(objects)
            &&& objects.len() == 1
            &&& objects[0].kind == pod.kind
            &&& objects[0].namespace == pod.namespace
            &&& name_of(pod.document) == JsonView::Text(objects[0].name)
            &&& forall|event: KubeEventView|
                flow.after(event) is Done || flow.after(event) == KubeStep::Await(flow)
        }),
{
    objects_have_metadata(spec);
}

/// Waking a tenant creates the very pod that provisioning creates, with the volume claim that the
/// suspension left, and asks for nothing else.
pub proof fn waking_brings_the_pod_back(spec: TenantSpec<Seq<char>>)
    ensures
        ({
            let begin = KubeFlow::Connecting(Operation::Wake(spec));
            let flow = KubeFlow::Waking { spec };
            let claim = manifests::pod_json(spec).at("spec"@).at("volumes"@).nth(0).at(
                "persistentVolumeClaim"@,
            ).at("claimName"@);
            &&& begin.after(KubeEventView::Connected(Ok(()))) == KubeStep::Await(flow)
            &&& flow.asks() == KubeActionView::Create(Phase::Pod.objects(spec))
            &&& claim == name_of(Phase::Storage.objects(spec)[0].document)
            &&& forall|event: KubeEventView|
                flow.after(event) is Done || flow.after(event) == KubeStep::Await(flow)
        }),
{
    pods_use_their_claim_and_secret(spec);
}

/// How many replies a flow still waits for, at most.
pub open spec fn replies_left(step: KubeStep<Seq<char>>) -> nat {
    match step {
        KubeStep::Done(_) => 0,
        KubeStep::Await(KubeFlow::Connecting(_)) => 4,
        KubeStep::Await(KubeFlow::Provisioning { phase, .. }) => match phase {
            Phase::Storage => 3,
            Phase::Pod => 2,
            Phase::Network => 1,
        },
        KubeStep::Await(KubeFlow::Withdrawing { .. }) => 2,
        KubeStep::Await(_) => 1,
    }
}

/// Every operation comes to an end: each reply to what it asks for brings the end nearer.
pub proof fn operations_end(flow: KubeFlow<Seq<char>>, event: KubeEventView)
    requires
        flow.answered_by(event),
    ensures
        replies_left(flow.after(event)) < replies_left(KubeStep::Await(flow)),
{
}

/// Objects are named after their tenant's ID, and addressed by these names.
pub proof fn names_are_made_from_the_id(
    tenant_id: Seq<char>,
    scheme: Seq<char>,
    domain: Seq<char>,
)
    ensures
        k8s::object_name(tenant_id) == "tenant-"@ + tenant_id,
        k8s::secret_name(tenant_id) == "tenant-"@ + tenant_id + "-token"@,
        k8s::pvc_name(tenant_id) == "tenant-"@ + tenant_id + "-data"@,
        k8s::public_url(tenant_id, scheme, domain) == scheme + "://"@ + tenant_id + "."@ + domain,
        k8s::cluster_url(tenant_id) == "http://"@ + ("tenant-"@ + tenant_id) + "."@
            + "houston-tenants"@ + ".svc.cluster.local:7777"@,
        NAMESPACE@ == "houston-tenants"@,
{
}

/// A request to create an object made it, found it there already, or was refused: the API says that
/// it is there already with the status 409, and with no other.
pub proof fn conflicts_mean_that_it_is_there(reply: Result<(), KubeError<Seq<char>>>)
    ensures
        reply is Ok ==> k8s::creation(reply) == Ok::<bool, Seq<char>>(true),
        reply matches Err(e) ==> e.code == Some(409u16) ==> k8s::creation(reply) == Ok::<
            bool,
            Seq<char>,
        >(false),
        reply matches Err(e) ==> e.code != Some(409u16) ==> k8s::creation(reply) == Err::<
            bool,
            Seq<char>,
        >(e.text),
{
}

/// Of the refusals of a batch the first is told, with the kind of its object.
pub proof fn first_refusals_are_told(
    kinds: Seq<ObjectKind>,
    replies: Seq<Result<(), KubeError<Seq<char>>>>,
    created: bool,
    i: int,
)
    requires
        kinds.len() == replies.len(),
        0 <= i < replies.len(),
        refused(replies[i]),
        forall|j: int| 0 <= j < i ==> !refused(#[trigger] replies[j]),
    ensures
        operations::settled(kinds, replies, created) == Err::<bool, Seq<char>>(
            "Failed to create "@ + kinds[i].label_text() + ": "@ + replies[i]->Err_0.text,
        ),
    decreases i,
{
    if i > 0 {
        assert(!refused(replies[0]));
        let new = k8s::creation(replies[0])->Ok_0;
        assert forall|j: int| 0 <= j < i - 1 implies !refused(
            #[trigger] replies.skip(1)[j],
        ) by {
            assert(replies.skip(1)[j] == replies[j + 1]);
        }
        first_refusals_are_told(kinds.skip(1), replies.skip(1), created || new, i - 1);
    }
}

/// Provisioning creates a claim and a secret, then a pod, then a service and, behind the Gateway, a
/// route: each from the tenant's specification, of the kind that its document names, and with these
/// kinds in its errors.
pub proof fn provisioning_creates_every_object(spec: TenantSpec<Seq<char>>)
    ensures
        ({
            let storage = Phase::Storage.objects(spec);
            let pod = Phase::Pod.objects(spec);
            let network = Phase::Network.objects(spec);
            let routed = spec.gateway_domain is Some;
            &&& storage.len() == 2
            &&& storage[0].kind == ObjectKind::Pvc
            &&& storage[0].document == manifests::pvc_json(spec)
            &&& storage[1].kind == ObjectKind::Secret
            &&& storage[1].document == manifests::secret_json(spec)
            &&& pod.len() == 1
            &&& pod[0].kind == ObjectKind::Pod
            &&& pod[0].document == manifests::pod_json(spec)
            &&& network.len() == if routed {
                2int
            } else {
                1int
            }
            &&& network[0].kind == ObjectKind::Service
            &&& network[0].document == manifests::service_json(spec)
            &&& routed ==> network[1].kind == ObjectKind::HttpRoute
            &&& routed ==> network[1].document == manifests::httproute_json(
                spec.tenant_id,
                spec.gateway_domain->0,
            )
            &&& forall|phase: Phase, i: int|
                0 <= i < phase.objects(spec).len() ==> #[trigger] phase.kinds(routed)[i]
                    == phase.objects(spec)[i].kind
            &&& forall|phase: Phase|
                (#[trigger] phase.kinds(routed)).len() == phase.objects(spec).len()
        }),
{
}

/// The events of an operation whose client could be set up.
pub open spec fn with_client() -> Seq<KubeEventView> {
    Seq::empty().push(KubeEventView::Connected(Ok(())))
}

/// One event more takes an operation one step further.
proof fn one_event_more(
    step: KubeStep<Seq<char>>,
    events: Seq<KubeEventView>,
    event: KubeEventView,
)
    ensures
        run(step, events.push(event)) == match run(step, events) {
            KubeStep::Await(flow) => flow.after(event),
            done => done,
        },
{
    assert(events.push(event).drop_last() == events);
}

/// Every operation begins with a client, and where none can be set up that is told.
pub proof fn operations_need_a_client(operation: Operation<Seq<char>>, e: Seq<char>)
    ensures
        KubeFlow::Connecting(operation).asks() == KubeActionView::Connect,
        run(
            KubeStep::Await(KubeFlow::Connecting(operation)),
            Seq::empty().push(KubeEventView::Connected(Err(e))),
        ) == KubeStep::<Seq<char>>::Done(Err("K8s client init failed: "@ + e)),
{
    one_event_more(
        KubeStep::Await(KubeFlow::Connecting(operation)),
        Seq::empty(),
        KubeEventView::Connected(Err(e)),
    );
}

/// Whether a tenant's pod exists is found by its name: it does where it is found, it does not where the
/// API answers with the status 404, and anything else is told.
pub proof fn pods_are_looked_for_by_name(
    tenant_id: Seq<char>,
    reply: Result<(), KubeError<Seq<char>>>,
)
    ensures
        ({
            let begin = KubeStep::Await(KubeFlow::Connecting(Operation::PodExists(tenant_id)));
            let end = run(begin, with_client().push(KubeEventView::Found(reply)));
            &&& run(begin, with_client()) matches KubeStep::Await(flow)
            &&& flow.asks() matches KubeActionView::Find(object)
            &&& object.kind == ObjectKind::Pod
            &&& object.namespace == "houston-tenants"@
            &&& object.name == "tenant-"@ + tenant_id
            &&& reply is Ok ==> end == KubeStep::<Seq<char>>::Done(Ok(Report::PodExists(true)))
            &&& reply matches Err(e) ==> e.code == Some(404u16) ==> end == KubeStep::<
                Seq<char>,
            >::Done(Ok(Report::PodExists(false)))
            &&& reply matches Err(e) ==> e.code != Some(404u16) ==> end == KubeStep::<
                Seq<char>,
            >::Done(Err("Failed to check pod: "@ + e.text))
        }),
{
    let begin = KubeStep::Await(KubeFlow::Connecting(Operation::PodExists(tenant_id)));
    one_event_more(begin, Seq::empty(), KubeEventView::Connected(Ok(())));
    one_event_more(begin, with_client(), KubeEventView::Found(reply));
}

/// A tenant is suspended by deleting its pod, and nothing else; it is suspended if and only if that
/// succeeded.
pub proof fn suspension_takes_the_pods_deletion(
    tenant_id: Seq<char>,
    reply: Result<(), KubeError<Seq<char>>>,
)
    ensures
        ({
            let begin = KubeStep::Await(KubeFlow::Connecting(Operation::Suspend(tenant_id)));
            let end = run(
                begin,
                with_client().push(KubeEventView::Deleted(Seq::empty().push(reply))),
            );
            &&& run(begin, with_client()) matches KubeStep::Await(flow)
            &&& flow.asks() matches KubeActionView::Delete(objects)
            &&& objects.len() == 1
            &&& objects[0].kind == ObjectKind::Pod
            &&& objects[0].namespace == "houston-tenants"@
            &&& objects[0].name == "tenant-"@ + tenant_id
            &&& reply is Ok ==> end == KubeStep::<Seq<char>>::Done(Ok(Report::Suspended))
            &&& reply matches Err(e) ==> end == KubeStep::<Seq<char>>::Done(
                Err("Failed to delete pod: "@ + e.text),
            )
        }),
{
    let begin = KubeStep::Await(KubeFlow::Connecting(Operation::Suspend(tenant_id)));
    let event = KubeEventView::Deleted(Seq::empty().push(reply));
    one_event_more(begin, Seq::empty(), KubeEventView::Connected(Ok(())));
    one_event_more(begin, with_client(), event);
}

/// A tenant is woken by creating its pod, and nothing else; it is woken if and only if that succeeded:
/// a pod that is there already is no success.
pub proof fn waking_takes_the_pods_creation(
    spec: TenantSpec<Seq<char>>,
    reply: Result<(), KubeError<Seq<char>>>,
)
    ensures
        ({
            let begin = KubeStep::Await(KubeFlow::Connecting(Operation::Wake(spec)));
            let end = run(
                begin,
                with_client().push(KubeEventView::Created(Seq::empty().push(reply))),
            );
            &&& run(begin, with_client()) matches KubeStep::Await(flow)
            &&& flow.asks() matches KubeActionView::Create(objects)
            &&& objects.len() == 1
            &&& objects[0].kind == ObjectKind::Pod
            &&& objects[0].namespace == "houston-tenants"@
            &&& objects[0].document == manifests::pod_json(spec)
            &&& reply is Ok ==> end == KubeStep::<Seq<char>>::Done(Ok(Report::Woken))
            &&& reply matches Err(e) ==> end == KubeStep::<Seq<char>>::Done(
                Err("Failed to create pod: "@ + e.text),
            )
        }),
{
    let begin = KubeStep::Await(KubeFlow::Connecting(Operation::Wake(spec)));
    let event = KubeEventView::Created(Seq::empty().push(reply));
    one_event_more(begin, Seq::empty(), KubeEventView::Connected(Ok(())));
    one_event_more(begin, with_client(), event);
}

/// A tenant is deprovisioned by deleting its route, service and pod, and then its secret and its
/// claim, by their names; it is done whatever the replies are.
pub proof fn deprovisioning_takes_two_batches(
    tenant_id: Seq<char>,
    first: Seq<Result<(), KubeError<Seq<char>>>>,
    second: Seq<Result<(), KubeError<Seq<char>>>>,
)
    requires
        first.len() == 3,
        second.len() == 2,
    ensures
        ({
            let begin = KubeStep::Await(KubeFlow::Connecting(Operation::Deprovision(tenant_id)));
            let middle = with_client().push(KubeEventView::Deleted(first));
            let name = "tenant-"@ + tenant_id;
            &&& run(begin, with_client()) matches KubeStep::Await(flow)
            &&& flow.asks() matches KubeActionView::Delete(objects)
            &&& objects.len() == 3
            &&& objects[0].kind == ObjectKind::HttpRoute && objects[0].name == name
            &&& objects[1].kind == ObjectKind::Service && objects[1].name == name
            &&& objects[2].kind == ObjectKind::Pod && objects[2].name == name
            &&& forall|i: int|
                0 <= i < 3 ==> (#[trigger] objects[i]).namespace == "houston-tenants"@
            &&& run(begin, middle) matches KubeStep::Await(rest)
            &&& rest.asks() matches KubeActionView::Delete(others)
            &&& others.len() == 2
            &&& others[0].kind == ObjectKind::Secret && others[0].name == name + "-token"@
            &&& others[1].kind == ObjectKind::Pvc && others[1].name == name + "-data"@
            &&& forall|i: int| 0 <= i < 2 ==> (#[trigger] others[i]).namespace == "houston-tenants"@
            &&& run(begin, middle.push(KubeEventView::Deleted(second))) == KubeStep::<
                Seq<char>,
            >::Done(Ok(Report::Deprovisioned))
        }),
{
    let begin = KubeStep::Await(KubeFlow::Connecting(Operation::Deprovision(tenant_id)));
    let middle = with_client().push(KubeEventView::Deleted(first));
    one_event_more(begin, Seq::empty(), KubeEventView::Connected(Ok(())));
    one_event_more(begin, with_client(), KubeEventView::Deleted(first));
    one_event_more(begin, middle, KubeEventView::Deleted(second));
}

/// An event that is not the reply to what an operation asks for leaves it where it is.
pub proof fn other_events_change_nothing(flow: KubeFlow<Seq<char>>, event: KubeEventView)
    requires
        match flow.asks() {
            KubeActionView::Connect => !(event is Connected),
            KubeActionView::Create(objects) => !(event matches KubeEventView::Created(replies)
                && replies.len() == objects.len()),
            KubeActionView::Find(_) => !(event is Found),
            KubeActionView::Delete(objects) => !(event matches KubeEventView::Deleted(replies)
                && replies.len() == objects.len()),
        },
    ensures
        flow.after(event) == KubeStep::Await(flow),
{
}

/// The keys of an object.
pub open spec fn keys_of(object: JsonView) -> Set<Seq<char>> {
    object->Object_0.dom()
}

/// A claim asks for ten gibibytes of the storage class, for one node at a time, and for nothing else.
pub proof fn claims_in_full(spec: TenantSpec<Seq<char>>)
    ensures
        ({
            let pvc = manifests::pvc_json(spec);
            let wish = pvc.at("spec"@);
            &&& keys_of(pvc) == set!["apiVersion"@, "kind"@, "metadata"@, "spec"@]
            &&& pvc.at("apiVersion"@) == JsonView::Text("v1"@)
            &&& pvc.at("kind"@) == JsonView::Text("PersistentVolumeClaim"@)
            &&& keys_of(pvc.at("metadata"@)) == set!["name"@, "namespace"@, "labels"@]
            &&& labels_of(pvc) == JsonView::object()
                .with("app"@, JsonView::Text("houston-engine"@))
                .with("houston.ai/tenant"@, JsonView::Text(spec.tenant_id))
            &&& keys_of(wish) == set!["accessModes"@, "storageClassName"@, "resources"@]
            &&& wish.at("accessModes"@) == JsonView::list().item(JsonView::Text("ReadWriteOnce"@))
            &&& wish.at("storageClassName"@) == JsonView::Text(spec.storage_class)
            &&& wish.at("resources"@) == JsonView::object()
                .with("requests"@, JsonView::object()
                    .with("storage"@, JsonView::Text("10Gi"@)))
        }),
{
    keys_differ();
    objects_have_metadata(spec);
    let pvc = manifests::pvc_json(spec);
    reveal_strlit("accessModes");
    assert("accessModes"@.len() == 11);
    reveal_strlit("storageClassName");
    assert("storageClassName"@.len() == 16);
    assert(keys_of(pvc) =~= set!["apiVersion"@, "kind"@, "metadata"@, "spec"@]);
    assert(keys_of(pvc.at("metadata"@)) =~= set!["name"@, "namespace"@, "labels"@]);
    assert(keys_of(pvc.at("spec"@)) =~= set!["accessModes"@, "storageClassName"@, "resources"@]);
}

/// A secret holds the base64 text of the engine token, and nothing else.
pub proof fn secrets_in_full(spec: TenantSpec<Seq<char>>)
    ensures
        ({
            let secret = manifests::secret_json(spec);
            &&& keys_of(secret) == set!["apiVersion"@, "kind"@, "metadata"@, "type"@, "data"@]
            &&& secret.at("apiVersion"@) == JsonView::Text("v1"@)
            &&& secret.at("kind"@) == JsonView::Text("Secret"@)
            &&& keys_of(secret.at("metadata"@)) == set!["name"@, "namespace"@, "labels"@]
            &&& labels_of(secret) == JsonView::object()
                .with("houston.ai/tenant"@, JsonView::Text(spec.tenant_id))
            &&& secret.at("type"@) == JsonView::Text("Opaque"@)
            &&& keys_of(secret.at("data"@)) == set!["token"@]
            &&& secret.at("data"@).at("token"@) == JsonView::Text(
                manifests::base64_text(vstd::utf8::encode_utf8(spec.engine_token)),
            )
        }),
{
    keys_differ();
    objects_have_metadata(spec);
    let secret = manifests::secret_json(spec);
    assert(keys_of(secret) =~= set!["apiVersion"@, "kind"@, "metadata"@, "type"@, "data"@]);
    assert(keys_of(secret.at("metadata"@)) =~= set!["name"@, "namespace"@, "labels"@]);
    assert(keys_of(secret.at("data"@)) =~= set!["token"@]);
}

/// A service is one inside the cluster, for the tenant's pod and the engine's port, and nothing else.
pub proof fn services_in_full(spec: TenantSpec<Seq<char>>)
    ensures
        ({
            let service = manifests::service_json(spec);
            let run = service.at("spec"@);
            &&& keys_of(service) == set!["apiVersion"@, "kind"@, "metadata"@, "spec"@]
            &&& service.at("apiVersion"@) == JsonView::Text("v1"@)
            &&& service.at("kind"@) == JsonView::Text("Service"@)
            &&& keys_of(service.at("metadata"@)) == set!["name"@, "namespace"@, "labels"@]
            &&& labels_of(service) == JsonView::object()
                .with("houston.ai/tenant"@, JsonView::Text(spec.tenant_id))
            &&& keys_of(run) == set!["selector"@, "ports"@, "type"@]
            &&& run.at("selector"@) == JsonView::object()
                .with("houston.ai/tenant"@, JsonView::Text(spec.tenant_id))
            &&& run.at("type"@) == JsonView::Text("ClusterIP"@)
            &&& run.at("ports"@) == JsonView::list()
                .item(JsonView::object()
                    .with("name"@, JsonView::Text("http"@))
                    .with("port"@, JsonView::Int(7777))
                    .with("targetPort"@, JsonView::Int(7777))
                    .with("protocol"@, JsonView::Text("TCP"@)))
        }),
{
    keys_differ();
    objects_have_metadata(spec);
    let service = manifests::service_json(spec);
    assert(keys_of(service) =~= set!["apiVersion"@, "kind"@, "metadata"@, "spec"@]);
    assert(keys_of(service.at("metadata"@)) =~= set!["name"@, "namespace"@, "labels"@]);
    assert(keys_of(service.at("spec"@)) =~= set!["selector"@, "ports"@, "type"@]);
}

/// A route leads all paths of the tenant's host, at the Gateway, to the tenant's service, and nothing
/// else.
pub proof fn routes_in_full(tenant_id: Seq<char>, domain: Seq<char>)
    ensures
        ({
            let route = manifests::httproute_json(tenant_id, domain);
            let run = route.at("spec"@);
            let rule = run.at("rules"@).nth(0);
            &&& keys_of(route) == set!["apiVersion"@, "kind"@, "metadata"@, "spec"@]
            &&& route.at("apiVersion"@) == JsonView::Text("gateway.networking.k8s.io/v1"@)
            &&& route.at("kind"@) == JsonView::Text("HTTPRoute"@)
            &&& keys_of(route.at("metadata"@)) == set!["name"@, "namespace"@, "labels"@]
            &&& name_of(route) == JsonView::Text("tenant-"@ + tenant_id)
            &&& namespace_of(route) == JsonView::Text("houston-tenants"@)
            &&& labels_of(route) == JsonView::object()
                .with("houston.ai/tenant"@, JsonView::Text(tenant_id))
            &&& keys_of(run) == set!["parentRefs"@, "hostnames"@, "rules"@]
            &&& run.at("parentRefs"@) == JsonView::list()
                .item(JsonView::object()
                    .with("name"@, JsonView::Text("houston-gateway"@))
                    .with("namespace"@, JsonView::Text("houston-system"@))
                    .with("kind"@, JsonView::Text("Gateway"@)))
            &&& run.at("hostnames"@) == JsonView::list()
                .item(JsonView::Text(tenant_id + "."@ + domain))
            &&& run.at("rules"@)->List_0.len() == 1
            &&& keys_of(rule) == set!["matches"@, "backendRefs"@]
            &&& rule.at("matches"@) == JsonView::list()
                .item(JsonView::object()
                    .with("path"@, JsonView::object()
                        .with("type"@, JsonView::Text("PathPrefix"@))
                        .with("value"@, JsonView::Text("/"@))))
            &&& rule.at("backendRefs"@) == JsonView::list()
                .item(JsonView::object()
                    .with("name"@, JsonView::Text("tenant-"@ + tenant_id))
                    .with("port"@, JsonView::Int(7777)))
        }),
{
    keys_differ();
    route_has_parts(tenant_id, domain);
    metadata_has_parts(k8s::object_name(tenant_id), manifests::tenant_label_json(tenant_id));
    let route = manifests::httproute_json(tenant_id, domain);
    let run = route.at("spec"@);
    assert(keys_of(route) =~= set!["apiVersion"@, "kind"@, "metadata"@, "spec"@]);
    assert(keys_of(route.at("metadata"@)) =~= set!["name"@, "namespace"@, "labels"@]);
    assert(keys_of(run) =~= set!["parentRefs"@, "hostnames"@, "rules"@]);
    assert(keys_of(run.at("rules"@).nth(0)) =~= set!["matches"@, "backendRefs"@]);
}

/// A pod runs one container, the engine's, on the tenant's volume and one for temporary files, always
/// restarted, where sandboxed pods may run, under the tenants' service account, and says nothing else.
pub proof fn pods_in_full(spec: TenantSpec<Seq<char>>)
    ensures
        ({
            let pod = manifests::pod_json(spec);
            let run = pod.at("spec"@);
            let context = run.at("securityContext"@);
            let keys = set![
                "serviceAccountName"@,
                "automountServiceAccountToken"@,
                "tolerations"@,
                "securityContext"@,
                "containers"@,
                "volumes"@,
                "restartPolicy"@,
            ];
            &&& keys_of(pod) == set!["apiVersion"@, "kind"@, "metadata"@, "spec"@]
            &&& pod.at("apiVersion"@) == JsonView::Text("v1"@)
            &&& pod.at("kind"@) == JsonView::Text("Pod"@)
            &&& keys_of(pod.at("metadata"@)) == set!["name"@, "namespace"@, "labels"@]
            &&& labels_of(pod) == JsonView::object()
                .with("app"@, JsonView::Text("houston-engine"@))
                .with("houston.ai/role"@, JsonView::Text("tenant-engine"@))
                .with("houston.ai/tenant"@, JsonView::Text(spec.tenant_id))
            &&& keys_of(run) == if spec.gvisor {
                keys.insert("runtimeClassName"@)
            } else {
                keys
            }
            &&& run.at("serviceAccountName"@) == JsonView::Text("tenant-engine"@)
            &&& run.at("restartPolicy"@) == JsonView::Text("Always"@)
            &&& run.at("tolerations"@) == JsonView::list()
                .item(JsonView::object()
                    .with("key"@, JsonView::Text("sandbox.gke.io/runtime"@))
                    .with("operator"@, JsonView::Text("Equal"@))
                    .with("value"@, JsonView::Text("gvisor"@))
                    .with("effect"@, JsonView::Text("NoSchedule"@)))
            &&& keys_of(context) == set![
                "runAsNonRoot"@,
                "runAsUser"@,
                "fsGroup"@,
                "seccompProfile"@,
            ]
            &&& context.at("seccompProfile"@) == JsonView::object()
                .with("type"@, JsonView::Text("RuntimeDefault"@))
            &&& run.at("containers"@)->List_0.len() == 1
            &&& run.at("volumes"@) == JsonView::list()
                .item(JsonView::object()
                    .with("name"@, JsonView::Text("data"@))
                    .with("persistentVolumeClaim"@, JsonView::object()
                        .with("claimName"@, JsonView::Text(
                            "tenant-"@ + spec.tenant_id + "-data"@,
                        ))))
                .item(JsonView::object()
                    .with("name"@, JsonView::Text("tmp"@))
                    .with("emptyDir"@, JsonView::object()))
        }),
{
    keys_differ();
    objects_have_metadata(spec);
    pod_has_parts(spec);
    let pod = manifests::pod_json(spec);
    let run = pod.at("spec"@);
    let keys = set![
        "serviceAccountName"@,
        "automountServiceAccountToken"@,
        "tolerations"@,
        "securityContext"@,
        "containers"@,
        "volumes"@,
        "restartPolicy"@,
    ];
    assert(keys_of(pod) =~= set!["apiVersion"@, "kind"@, "metadata"@, "spec"@]);
    assert(keys_of(pod.at("metadata"@)) =~= set!["name"@, "namespace"@, "labels"@]);
    if spec.gvisor {
        assert(keys_of(run) =~= keys.insert("runtimeClassName"@));
    } else {
        assert(keys_of(run) =~= keys);
    }
    assert(keys_of(run.at("securityContext"@)) =~= set![
        "runAsNonRoot"@,
        "runAsUser"@,
        "fsGroup"@,
        "seccompProfile"@,
    ]);
}

/// The engine's container runs the image of the specification, listens on one port, knows where it
/// runs from its environment and its token from the tenant's secret, has limits, and is asked for its
/// health with its own token; it says nothing else.
pub proof fn containers_in_full(spec: TenantSpec<Seq<char>>)
    ensures
        ({
            let container = manifests::pod_json(spec).at("spec"@).at("containers"@).nth(0);
            let limits = container.at("securityContext"@);
            &&& keys_of(container) == set![
                "name"@,
                "image"@,
                "securityContext"@,
                "ports"@,
                "env"@,
                "resources"@,
                "volumeMounts"@,
                "readinessProbe"@,
                "livenessProbe"@,
            ]
            &&& container.at("name"@) == JsonView::Text("engine"@)
            &&& container.at("image"@) == JsonView::Text(spec.engine_image)
            &&& keys_of(limits) == set![
                "allowPrivilegeEscalation"@,
                "readOnlyRootFilesystem"@,
                "capabilities"@,
            ]
            &&& limits.at("capabilities"@) == JsonView::object()
                .with("drop"@, JsonView::list().item(JsonView::Text("ALL"@)))
            &&& container.at("ports"@) == JsonView::list()
                .item(JsonView::object()
                    .with("name"@, JsonView::Text("http"@))
                    .with("containerPort"@, JsonView::Int(7777))
                    .with("protocol"@, JsonView::Text("TCP"@)))
            &&& container.at("resources"@) == JsonView::object()
                .with("requests"@, JsonView::object()
                    .with("cpu"@, JsonView::Text("100m"@))
                    .with("memory"@, JsonView::Text("512Mi"@)))
                .with("limits"@, JsonView::object()
                    .with("cpu"@, JsonView::Text("1000m"@))
                    .with("memory"@, JsonView::Text("1Gi"@)))
            &&& container.at("volumeMounts"@) == JsonView::list()
                .item(JsonView::object()
                    .with("name"@, JsonView::Text("data"@))
                    .with("mountPath"@, JsonView::Text("/data"@)))
                .item(JsonView::object()
                    .with("name"@, JsonView::Text("tmp"@))
                    .with("mountPath"@, JsonView::Text("/tmp"@)))
            &&& is_probe(container.at("readinessProbe"@), 3, 10, 3)
            &&& is_probe(container.at("livenessProbe"@), 10, 30, 5)
            &&& is_environment(container.at("env"@), spec.tenant_id)
        }),
{
    keys_differ();
    pod_has_parts(spec);
    container_has_parts(spec);
    let container = manifests::pod_json(spec).at("spec"@).at("containers"@).nth(0);
    assert(keys_of(container) =~= set![
        "name"@,
        "image"@,
        "securityContext"@,
        "ports"@,
        "env"@,
        "resources"@,
        "volumeMounts"@,
        "readinessProbe"@,
        "livenessProbe"@,
    ]);
    assert(keys_of(container.at("securityContext"@)) =~= set![
        "allowPrivilegeEscalation"@,
        "readOnlyRootFilesystem"@,
        "capabilities"@,
    ]);
    probes_ask_for_health(3, 10, 3);
    probes_ask_for_health(10, 30, 5);
    environments_are_set(spec.tenant_id);
}

/// Whether a probe asks the engine for its health, with the token in its environment, after a delay,
/// every so often, and for how long.
pub open spec fn is_probe(probe: JsonView, delay: int, period: int, timeout: int) -> bool {
    &&& keys_of(probe) == set![
        "exec"@,
        "initialDelaySeconds"@,
        "periodSeconds"@,
        "timeoutSeconds"@,
    ]
    &&& probe.at("exec"@) == JsonView::object()
        .with("command"@, JsonView::list()
            .item(JsonView::Text("/bin/sh"@))
            .item(JsonView::Text("-c"@))
            .item(JsonView::Text(
                "curl -sf -H \"Authorization: Bearer ${HOUSTON_ENGINE_TOKEN}\" http://localhost:7777/v1/health"@,
            )))
    &&& probe.at("initialDelaySeconds"@) == JsonView::Int(delay)
    &&& probe.at("periodSeconds"@) == JsonView::Int(period)
    &&& probe.at("timeoutSeconds"@) == JsonView::Int(timeout)
}

proof fn probes_ask_for_health(delay: int, period: int, timeout: int)
    ensures
        is_probe(manifests::probe_json(delay, period, timeout), delay, period, timeout),
{
    reveal_strlit("exec");
    assert("exec"@.len() == 4);
    reveal_strlit("initialDelaySeconds");
    assert("initialDelaySeconds"@.len() == 19);
    reveal_strlit("periodSeconds");
    assert("periodSeconds"@.len() == 13);
    reveal_strlit("timeoutSeconds");
    assert("timeoutSeconds"@.len() == 14);
    assert(keys_of(manifests::probe_json(delay, period, timeout)) =~= set![
        "exec"@,
        "initialDelaySeconds"@,
        "periodSeconds"@,
        "timeoutSeconds"@,
    ]);
}

/// Whether an entry of an environment is a variable with a value.
pub open spec fn is_variable(entry: JsonView, name: Seq<char>, value: Seq<char>) -> bool {
    &&& keys_of(entry) == set!["name"@, "value"@]
    &&& entry.at("name"@) == JsonView::Text(name)
    &&& entry.at("value"@) == JsonView::Text(value)
}

/// Whether an environment is the engine's: it listens on its port, keeps its data on the tenant's
/// volume, and takes its token from the tenant's secret.
pub open spec fn is_environment(env: JsonView, tenant_id: Seq<char>) -> bool {
    let token = env.nth(6);
    &&& env is List
    &&& env->List_0.len() == 7
    &&& is_variable(env.nth(0), "HOUSTON_BIND"@, "0.0.0.0:7777"@)
    &&& is_variable(env.nth(1), "HOUSTON_BIND_ALL"@, "1"@)
    &&& is_variable(env.nth(2), "HOUSTON_NO_PARENT_WATCHDOG"@, "1"@)
    &&& is_variable(env.nth(3), "HOUSTON_HOME"@, "/data/.houston"@)
    &&& is_variable(env.nth(4), "HOUSTON_DOCS"@, "/data/Houston"@)
    &&& is_variable(env.nth(5), "RUST_LOG"@, "info,houston_file_watcher=warn"@)
    &&& keys_of(token) == set!["name"@, "valueFrom"@]
    &&& token.at("name"@) == JsonView::Text("HOUSTON_ENGINE_TOKEN"@)
    &&& token.at("valueFrom"@) == JsonView::object()
        .with("secretKeyRef"@, JsonView::object()
            .with("name"@, JsonView::Text("tenant-"@ + tenant_id + "-token"@))
            .with("key"@, JsonView::Text("token"@)))
}

proof fn variables_are_set(name: Seq<char>, value: Seq<char>)
    ensures
        is_variable(manifests::env_json(name, value), name, value),
{
    keys_differ();
    reveal_strlit("value");
    assert("value"@.len() == 5);
    assert(keys_of(manifests::env_json(name, value)) =~= set!["name"@, "value"@]);
}

proof fn environments_are_set(tenant_id: Seq<char>)
    ensures
        is_environment(manifests::environment_json(tenant_id), tenant_id),
{
    keys_differ();
    variables_are_set("HOUSTON_BIND"@, "0.0.0.0:7777"@);
    variables_are_set("HOUSTON_BIND_ALL"@, "1"@);
    variables_are_set("HOUSTON_NO_PARENT_WATCHDOG"@, "1"@);
    variables_are_set("HOUSTON_HOME"@, "/data/.houston"@);
    variables_are_set("HOUSTON_DOCS"@, "/data/Houston"@);
    variables_are_set("RUST_LOG"@, "info,houston_file_watcher=warn"@);
    assert(keys_of(manifests::environment_json(tenant_id).nth(6)) =~= set!["name"@, "valueFrom"@]);
}

} // verus!
