//! Kubernetes tenant provisioning.
//!
//! Each tenant gets isolated objects in the `houston-tenants` namespace: a volume claim, a secret,
//! a pod, a service and, where the Gateway is in use, a route.
use crate::text;
use crate::text::{cat, cat3};
use vstd::prelude::*;

pub mod laws;
pub mod manifests;
pub mod operations;

pub use manifests::{base64_encode, build_httproute, build_pod, build_pvc, build_secret, build_service};
pub use operations::{
    deprovision_tenant, pod_exists, provision_tenant, suspend_tenant, wake_tenant,
};

verus! {

/// The namespace that holds every tenant's objects.
pub const NAMESPACE: &'static str = "houston-tenants";

/// What a tenant's objects are made from.
#[verifier::ext_equal]
#[derive(Debug)]
pub struct TenantSpec<S = String> {
    pub tenant_id: S,
    pub engine_token: S,
    pub engine_image: S,
    pub gateway_domain: Option<S>,
    pub gvisor: bool,
    pub storage_class: S,
}

impl View for TenantSpec {
    type V = TenantSpec<Seq<char>>;

    open spec fn view(&self) -> TenantSpec<Seq<char>> {
        TenantSpec {
            tenant_id: self.tenant_id@,
            engine_token: self.engine_token@,
            engine_image: self.engine_image@,
            gateway_domain: text::opt(self.gateway_domain),
            gvisor: self.gvisor,
            storage_class: self.storage_class@,
        }
    }
}

impl Clone for TenantSpec {
    fn clone(&self) -> (res: Self)
        ensures
            res@ == self@,
    {
        TenantSpec {
            tenant_id: self.tenant_id.clone(),
            engine_token: self.engine_token.clone(),
            engine_image: self.engine_image.clone(),
            gateway_domain: self.gateway_domain.clone(),
            gvisor: self.gvisor,
            storage_class: self.storage_class.clone(),
        }
    }
}

/// The name of a tenant's pod, service and route.
pub open spec fn object_name(tenant_id: Seq<char>) -> Seq<char> {
    "tenant-"@ + tenant_id
}

/// The name of the secret that holds a tenant's engine token.
pub open spec fn secret_name(tenant_id: Seq<char>) -> Seq<char> {
    "tenant-"@ + tenant_id + "-token"@
}

/// The name of the claim for a tenant's volume.
pub open spec fn pvc_name(tenant_id: Seq<char>) -> Seq<char> {
    "tenant-"@ + tenant_id + "-data"@
}

/// The name of a tenant's pod, service and route.
pub fn pod_name(tenant_id: &str) -> (res: String)
    ensures
        res@ == object_name(tenant_id@),
{
    cat("tenant-", tenant_id)
}

/// The public URL of a tenant, through the Gateway.
pub open spec fn public_url(tenant_id: Seq<char>, scheme: Seq<char>, domain: Seq<char>) -> Seq<char> {
    scheme + "://"@ + tenant_id + "."@ + domain
}

/// Public URL for a tenant via the Gateway (browser-accessible).
pub fn tenant_public_url(tenant_id: &str, scheme: &str, domain: &str) -> (res: String)
    ensures
        res@ == public_url(tenant_id@, scheme@, domain@),
{
    let host = cat3(tenant_id, ".", domain);
    let res = cat3(scheme, "://", host.as_str());
    assert(res@ == public_url(tenant_id@, scheme@, domain@));
    res
}

/// The URL of a tenant's engine inside the cluster.
pub open spec fn cluster_url(tenant_id: Seq<char>) -> Seq<char> {
    "http://"@ + object_name(tenant_id) + "."@ + NAMESPACE@ + ".svc.cluster.local:7777"@
}

/// Cluster-internal URL for a tenant (control plane health checks).
pub fn tenant_engine_url(tenant_id: &str) -> (res: String)
    ensures
        res@ == cluster_url(tenant_id@),
{
    let host = cat3("http://", pod_name(tenant_id).as_str(), ".");
    cat3(host.as_str(), NAMESPACE, ".svc.cluster.local:7777")
}

/// A reply of the Kubernetes API, or of the way to it, that says no.
#[verifier::ext_equal]
#[derive(Debug)]
pub struct KubeError<S = String> {
    /// The HTTP status, where the API itself refused.
    pub code: Option<u16>,
    /// The error in words.
    pub text: S,
}

impl View for KubeError {
    type V = KubeError<Seq<char>>;

    open spec fn view(&self) -> KubeError<Seq<char>> {
        KubeError { code: self.code, text: self.text@ }
    }
}

/// The content of a reply.
pub open spec fn reply_view<T>(reply: Result<T, KubeError>) -> Result<T, KubeError<Seq<char>>> {
    match reply {
        Ok(value) => Ok(value),
        Err(e) => Err(e@),
    }
}

/// The contents of several replies.
pub open spec fn replies_view(replies: Seq<Result<(), KubeError>>) -> Seq<
    Result<(), KubeError<Seq<char>>>,
> {
    replies.map_values(|reply: Result<(), KubeError>| reply_view(reply))
}

/// What a request to create an object came to: `Ok(true)` where it was created, `Ok(false)` where
/// it was there already, and any other refusal as its words.
pub open spec fn creation<T>(reply: Result<T, KubeError<Seq<char>>>) -> Result<bool, Seq<char>> {
    match reply {
        Ok(_) => Ok(true),
        Err(e) => if e.code == Some(409u16) {
            Ok(false)
        } else {
            Err(e.text)
        },
    }
}

/// Ignore AlreadyExists errors, which makes provisioning idempotent. Returns `Ok(true)` if
/// created, `Ok(false)` if already existed.
pub fn ignore_already_exists<T>(result: Result<T, KubeError>) -> (res: Result<bool, String>)
    ensures
        text::outcome(res) == creation(reply_view(result)),
{
    match result {
        Ok(_) => Ok(true),
        Err(e) => match e.code {
            Some(409) => Ok(false),
            _ => Err(e.text),
        },
    }
}

/// A kind of object as the Kubernetes API addresses it.
#[verifier::ext_equal]
#[derive(Debug)]
pub struct ApiResource<S = String> {
    pub group: S,
    pub version: S,
    pub api_version: S,
    pub kind: S,
    pub plural: S,
}

impl View for ApiResource {
    type V = ApiResource<Seq<char>>;

    open spec fn view(&self) -> ApiResource<Seq<char>> {
        ApiResource {
            group: self.group@,
            version: self.version@,
            api_version: self.api_version@,
            kind: self.kind@,
            plural: self.plural@,
        }
    }
}

/// How the Kubernetes API addresses a route of the Gateway.
pub fn httproute_api_resource() -> (res: ApiResource)
    ensures
        res@ == (ApiResource {
            group: "gateway.networking.k8s.io"@,
            version: "v1"@,
            api_version: "gateway.networking.k8s.io/v1"@,
            kind: "HTTPRoute"@,
            plural: "httproutes"@,
        }),
{
    ApiResource {
        group: "gateway.networking.k8s.io".to_owned(),
        version: "v1".to_owned(),
        api_version: "gateway.networking.k8s.io/v1".to_owned(),
        kind: "HTTPRoute".to_owned(),
        plural: "httproutes".to_owned(),
    }
}

} // verus!
