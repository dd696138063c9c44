//! Control plane REST routes.
//!
//! - `POST /api/session`: authenticate, return engine URL and token (provision if new)
//! - `GET  /api/tenant/status`: check tenant provisioning status
//! - `POST /api/tenant/suspend`: suspend tenant (delete the pod only)
//! - `DELETE /api/tenant`: tear down tenant
//! - `GET  /ext-authz`: Envoy ext-authz for Gateway token injection
use crate::auth;
use crate::auth::{extract_bearer, JwtVerifier};
use crate::effects::{Action, Event};
use crate::header;
use crate::header::header_text;
use crate::json::{Json, JsonView};
use crate::k8s;
use crate::k8s::{tenant_engine_url, tenant_public_url, TenantSpec};
use crate::session::{handle_existing, provision_new, SessionFlow, SessionStep};
use crate::store::TenantStore;
use crate::tenant::{Tenant, TenantStatus};
use crate::text;
use crate::text::{cat, replace};
use vstd::prelude::*;

verus! {

/// How the control plane is set up.
#[verifier::ext_equal]
#[derive(Debug)]
pub struct AppState<S = String> {
    pub tenant_store: TenantStore<S>,
    pub jwt_verifier: JwtVerifier<S>,
    /// The URL of an engine, with `{tenant_id}` for the tenant's ID.
    pub engine_url_template: S,
    /// A token for every engine, for local development only.
    pub dev_engine_token: Option<S>,
    /// The image of the engine. With it, tenants live in Kubernetes.
    pub engine_image: Option<S>,
    /// The domain of the Gateway. With it, tenants are reached through the Gateway only.
    pub gateway_domain: Option<S>,
    pub gateway_scheme: S,
    pub gvisor: bool,
    pub storage_class: S,
}

impl View for AppState {
    type V = AppState<Seq<char>>;

    open spec fn view(&self) -> AppState<Seq<char>> {
        AppState {
            tenant_store: self.tenant_store@,
            jwt_verifier: self.jwt_verifier@,
            engine_url_template: self.engine_url_template@,
            dev_engine_token: text::opt(self.dev_engine_token),
            engine_image: text::opt(self.engine_image),
            gateway_domain: text::opt(self.gateway_domain),
            gateway_scheme: self.gateway_scheme@,
            gvisor: self.gvisor,
            storage_class: self.storage_class@,
        }
    }
}

impl AppState<Seq<char>> {
    /// What a tenant's objects are made from, where tenants live in Kubernetes.
    pub open spec fn spec_of(self, tenant: Tenant<Seq<char>>) -> Option<TenantSpec<Seq<char>>> {
        match self.engine_image {
            Some(engine_image) => Some(
                TenantSpec {
                    tenant_id: tenant.tenant_id,
                    engine_token: tenant.engine_token,
                    engine_image,
                    gateway_domain: self.gateway_domain,
                    gvisor: self.gvisor,
                    storage_class: self.storage_class,
                },
            ),
            None => None,
        }
    }

    /// The engine token that a response shows: none where the Gateway injects it.
    pub open spec fn shown_token(self, tenant_token: Seq<char>) -> Option<Seq<char>> {
        if self.gateway_domain is Some {
            None
        } else {
            Some(self.probe_token(tenant_token))
        }
    }

    /// The token that the engine of a tenant goes by.
    pub open spec fn probe_token(self, tenant_token: Seq<char>) -> Seq<char> {
        match self.dev_engine_token {
            Some(token) => token,
            None => tenant_token,
        }
    }

    /// The URL at which a browser reaches a tenant.
    pub open spec fn tenant_url(self, tenant_id: Seq<char>) -> Seq<char> {
        match self.gateway_domain {
            Some(domain) => k8s::public_url(tenant_id, self.gateway_scheme, domain),
            None => filled(self.engine_url_template, tenant_id),
        }
    }
}

impl AppState {
    /// What a tenant's objects are made from, where tenants live in Kubernetes.
    pub fn k8s_spec(&self, tenant: &Tenant) -> (res: Option<TenantSpec>)
        ensures
            match res {
                Some(spec) => self@.spec_of(tenant@) == Some(spec@),
                None => self@.spec_of(tenant@) is None,
            },
    {
        match &self.engine_image {
            Some(image) => Some(
                TenantSpec {
                    tenant_id: tenant.tenant_id.clone(),
                    engine_token: tenant.engine_token.clone(),
                    engine_image: image.clone(),
                    gateway_domain: self.gateway_domain.clone(),
                    gvisor: self.gvisor,
                    storage_class: self.storage_class.clone(),
                },
            ),
            None => None,
        }
    }
}

/// The engine token that a response shows: none where the Gateway injects it.
pub fn response_token(state: &AppState, tenant_token: &str) -> (res: Option<String>)
    ensures
        text::opt(res) == state@.shown_token(tenant_token@),
{
    if state.gateway_domain.is_some() {
        return None;
    }
    match &state.dev_engine_token {
        Some(dev_token) => Some(dev_token.clone()),
        None => Some(tenant_token.to_owned()),
    }
}

/// The URL at which a browser reaches a tenant.
pub fn resolve_tenant_url(state: &AppState, tenant_id: &str) -> (res: String)
    ensures
        res@ == state@.tenant_url(tenant_id@),
{
    match &state.gateway_domain {
        Some(domain) => tenant_public_url(
            tenant_id,
            state.gateway_scheme.as_str(),
            domain.as_str(),
        ),
        None => engine_url(state.engine_url_template.as_str(), tenant_id),
    }
}

/// A URL template with a tenant's ID filled in.
pub open spec fn filled(template: Seq<char>, tenant_id: Seq<char>) -> Seq<char> {
    text::replaced(template, "{tenant_id}"@, tenant_id)
}

/// A URL template with a tenant's ID filled in.
pub fn engine_url(template: &str, tenant_id: &str) -> (res: String)
    ensures
        res@ == filled(template@, tenant_id@),
{
    proof {
        reveal_strlit("{tenant_id}");
    }
    replace(template, "{tenant_id}", tenant_id)
}

/// The answer to a request for a session.
#[verifier::ext_equal]
#[derive(Debug)]
pub struct SessionResponse<S = String> {
    pub engine_url: S,
    /// Left out of the answer where it is absent.
    pub engine_token: Option<S>,
    pub tenant_id: S,
    pub status: TenantStatus,
}

impl View for SessionResponse {
    type V = SessionResponse<Seq<char>>;

    open spec fn view(&self) -> SessionResponse<Seq<char>> {
        SessionResponse {
            engine_url: self.engine_url@,
            engine_token: text::opt(self.engine_token),
            tenant_id: self.tenant_id@,
            status: self.status,
        }
    }
}

impl SessionResponse<Seq<char>> {
    /// The answer as JSON.
    pub open spec fn json(self) -> JsonView {
        let url = JsonView::object().with("engine_url"@, JsonView::Text(self.engine_url));
        let base = match self.engine_token {
            Some(token) => url.with("engine_token"@, JsonView::Text(token)),
            None => url,
        };
        base
            .with("tenant_id"@, JsonView::Text(self.tenant_id))
            .with("status"@, JsonView::Text(self.status.name()))
    }
}

impl SessionResponse {
    /// The answer as JSON.
    pub fn to_json(&self) -> (res: Json)
        ensures
            res@ == self@.json(),
    {
        let url = Json::object().with_text("engine_url", self.engine_url.as_str());
        let base = match &self.engine_token {
            Some(token) => url.with_text("engine_token", token.as_str()),
            None => url,
        };
        base
            .with_text("tenant_id", self.tenant_id.as_str())
            .with_text("status", self.status.to_string().as_str())
    }
}

/// The answer to a request for a tenant's status.
#[verifier::ext_equal]
#[derive(Debug)]
pub struct StatusResponse<S = String> {
    pub tenant_id: S,
    pub status: TenantStatus,
}

impl View for StatusResponse {
    type V = StatusResponse<Seq<char>>;

    open spec fn view(&self) -> StatusResponse<Seq<char>> {
        StatusResponse { tenant_id: self.tenant_id@, status: self.status }
    }
}

impl StatusResponse<Seq<char>> {
    /// The answer as JSON.
    pub open spec fn json(self) -> JsonView {
        JsonView::object()
            .with("tenant_id"@, JsonView::Text(self.tenant_id))
            .with("status"@, JsonView::Text(self.status.name()))
    }
}

impl StatusResponse {
    /// The answer as JSON.
    pub fn to_json(&self) -> (res: Json)
        ensures
            res@ == self@.json(),
    {
        Json::object()
            .with_text("tenant_id", self.tenant_id.as_str())
            .with_text("status", self.status.to_string().as_str())
    }
}

/// What a refused request is told.
#[verifier::ext_equal]
#[derive(Debug)]
pub struct ErrorResponse<S = String> {
    pub error: S,
}

impl View for ErrorResponse {
    type V = ErrorResponse<Seq<char>>;

    open spec fn view(&self) -> ErrorResponse<Seq<char>> {
        ErrorResponse { error: self.error@ }
    }
}

impl ErrorResponse<Seq<char>> {
    /// The answer as JSON.
    pub open spec fn json(self) -> JsonView {
        JsonView::object().with("error"@, JsonView::Text(self.error))
    }
}

impl ErrorResponse {
    /// The answer as JSON.
    pub fn to_json(&self) -> (res: Json)
        ensures
            res@ == self@.json(),
    {
        Json::object().with_text("error", self.error.as_str())
    }
}

/// A refusal: an HTTP status and what the client is told.
#[verifier::ext_equal]
#[derive(Debug)]
pub struct Refusal<S = String> {
    pub status: u16,
    pub body: ErrorResponse<S>,
}

impl View for Refusal {
    type V = Refusal<Seq<char>>;

    open spec fn view(&self) -> Refusal<Seq<char>> {
        Refusal { status: self.status, body: self.body@ }
    }
}

impl Refusal<Seq<char>> {
    /// A refusal with a status and a message.
    pub open spec fn with(status: u16, message: Seq<char>) -> Self {
        Refusal { status, body: ErrorResponse { error: message } }
    }
}

/// A refusal with a status and a message.
pub fn err(status: u16, msg: &str) -> (res: Refusal)
    ensures
        res@ == Refusal::with(status, msg@),
{
    Refusal { status, body: ErrorResponse { error: msg.to_owned() } }
}

/// The routes.
#[derive(Debug, Clone, Copy, PartialEq, Eq, Structural)]
pub enum Route {
    /// `POST /api/session`
    CreateSession,
    /// `GET /api/tenant/status`
    TenantStatus,
    /// `POST /api/tenant/suspend`
    SuspendTenant,
    /// `DELETE /api/tenant`
    DeleteTenant,
    /// `GET /ext-authz`
    ExtAuthz,
}

/// A header of an answer.
#[verifier::ext_equal]
#[derive(Debug)]
pub struct Header<S = String> {
    pub name: S,
    pub value: S,
}

impl View for Header {
    type V = Header<Seq<char>>;

    open spec fn view(&self) -> Header<Seq<char>> {
        Header { name: self.name@, value: self.value@ }
    }
}

/// What the Gateway is told about a request that it may let through: the headers to put on it. The
/// tenant is to be noted as active, without waiting for it.
#[verifier::ext_equal]
#[derive(Debug)]
pub struct Admission<S = String> {
    pub tenant: Header<S>,
    pub backend: Header<S>,
    pub authorization: Header<S>,
    /// Which tenant to note as active.
    pub touch: S,
}

impl View for Admission {
    type V = Admission<Seq<char>>;

    open spec fn view(&self) -> Admission<Seq<char>> {
        Admission {
            tenant: self.tenant@,
            backend: self.backend@,
            authorization: self.authorization@,
            touch: self.touch@,
        }
    }
}

/// The headers for a request to a tenant: its ID, its engine's address and its engine's token.
pub open spec fn admits(tenant: Tenant<Seq<char>>) -> Admission<Seq<char>> {
    Admission {
        tenant: Header { name: "x-houston-tenant"@, value: tenant.tenant_id },
        backend: Header { name: "x-houston-backend"@, value: k8s::cluster_url(tenant.tenant_id) },
        authorization: Header { name: "authorization"@, value: "Bearer "@ + tenant.engine_token },
        touch: tenant.tenant_id,
    }
}

fn admission(tenant: &Tenant) -> (res: Admission)
    ensures
        res@ == admits(tenant@),
{
    let backend_url = tenant_engine_url(tenant.tenant_id.as_str());
    Admission {
        tenant: Header { name: "x-houston-tenant".to_owned(), value: tenant.tenant_id.clone() },
        backend: Header { name: "x-houston-backend".to_owned(), value: backend_url },
        authorization: Header {
            name: "authorization".to_owned(),
            value: cat("Bearer ", tenant.engine_token.as_str()),
        },
        touch: tenant.tenant_id.clone(),
    }
}

/// The answer to a request that was served.
#[verifier::ext_equal]
#[derive(Debug)]
pub enum Reply<S = String> {
    Session(SessionResponse<S>),
    Status(StatusResponse<S>),
    NoContent,
    Admission(Admission<S>),
}

impl View for Reply {
    type V = Reply<Seq<char>>;

    open spec fn view(&self) -> Reply<Seq<char>> {
        match *self {
            Reply::Session(response) => Reply::Session(response@),
            Reply::Status(response) => Reply::Status(response@),
            Reply::NoContent => Reply::NoContent,
            Reply::Admission(admission) => Reply::Admission(admission@),
        }
    }
}

impl<S> Reply<S> {
    /// The HTTP status of the answer.
    pub fn status(&self) -> (res: u16)
        ensures
            res == if *self is NoContent {
                204u16
            } else {
                200u16
            },
    {
        match self {
            Reply::NoContent => 204,
            _ => 200,
        }
    }
}

/// Where a request stands: which reply it waits for.
#[verifier::ext_equal]
#[derive(Debug)]
pub enum RouteFlow<S = String> {
    /// The JWT is being verified.
    Verifying { route: Route, token: S },
    /// The user's tenant is being looked up.
    Finding { route: Route, user_id: S },
    /// The session is being created.
    Session(SessionFlow<S>),
    /// The tenant's pod is being deleted.
    Suspending { tenant_id: S },
    /// The tenant is being stored as suspended.
    SuspendSaving { tenant_id: S },
    /// All that the tenant has in the cluster is being deleted.
    Deprovisioning { tenant_id: S },
    /// The tenant is being deleted from the store.
    Deleting { tenant_id: S },
}

impl View for RouteFlow {
    type V = RouteFlow<Seq<char>>;

    open spec fn view(&self) -> RouteFlow<Seq<char>> {
        match *self {
            RouteFlow::Verifying { route, token } => RouteFlow::Verifying { route, token: token@ },
            RouteFlow::Finding { route, user_id } => RouteFlow::Finding {
                route,
                user_id: user_id@,
            },
            RouteFlow::Session(flow) => RouteFlow::Session(flow@),
            RouteFlow::Suspending { tenant_id } => RouteFlow::Suspending { tenant_id: tenant_id@ },
            RouteFlow::SuspendSaving { tenant_id } => RouteFlow::SuspendSaving {
                tenant_id: tenant_id@,
            },
            RouteFlow::Deprovisioning { tenant_id } => RouteFlow::Deprovisioning {
                tenant_id: tenant_id@,
            },
            RouteFlow::Deleting { tenant_id } => RouteFlow::Deleting { tenant_id: tenant_id@ },
        }
    }
}

/// A request that waits for a reply, or the end of one.
#[verifier::ext_equal]
#[derive(Debug)]
pub enum RouteStep<S = String> {
    Await(RouteFlow<S>),
    Done(Result<Reply<S>, Refusal<S>>),
}

impl View for RouteStep {
    type V = RouteStep<Seq<char>>;

    open spec fn view(&self) -> RouteStep<Seq<char>> {
        match *self {
            RouteStep::Await(flow) => RouteStep::Await(flow@),
            RouteStep::Done(Ok(reply)) => RouteStep::Done(Ok(reply@)),
            RouteStep::Done(Err(refusal)) => RouteStep::Done(Err(refusal@)),
        }
    }
}

impl RouteStep<Seq<char>> {
    /// The end with a refusal.
    pub open spec fn refuses(status: u16, message: Seq<char>) -> Self {
        RouteStep::Done(Err(Refusal::with(status, message)))
    }
}

/// The token that a request brings, or why it is turned away. The header is what its bytes say, if
/// they are text.
pub open spec fn credentials(header: Option<Seq<u8>>) -> Result<Seq<char>, Refusal<Seq<char>>> {
    let text = match header {
        Some(value) => header::text_of(value),
        None => None,
    };
    match text {
        None => Err(Refusal::with(401, "Missing Authorization header"@)),
        Some(value) => match auth::bearer(value) {
            None => Err(Refusal::with(401, "Invalid Authorization header"@)),
            Some(token) => Ok(token),
        },
    }
}

/// How a request to a route begins: its JWT is to be verified, if it brings one.
pub open spec fn begins(route: Route, header: Option<Seq<u8>>) -> RouteStep<Seq<char>> {
    match credentials(header) {
        Ok(token) => RouteStep::Await(RouteFlow::Verifying { route, token }),
        Err(refusal) => RouteStep::Done(Err(refusal)),
    }
}

/// The raw value of a header that may be absent.
pub open spec fn raw(header: Option<&[u8]>) -> Option<Seq<u8>> {
    match header {
        Some(value) => Some(value@),
        None => None,
    }
}

fn refuse(status: u16, message: &str) -> (res: RouteStep)
    ensures
        res@ == RouteStep::refuses(status, message@),
{
    RouteStep::Done(Err(err(status, message)))
}

/// Begins the authentication of a request from the raw value of its Authorization header.
pub fn authenticate(route: Route, header: Option<&[u8]>) -> (res: RouteStep)
    ensures
        res@ == begins(route, raw(header)),
{
    let text = match header {
        Some(value) => header_text(value),
        None => None,
    };
    match text {
        None => refuse(401, "Missing Authorization header"),
        Some(value) => match extract_bearer(value.as_str()) {
            None => refuse(401, "Invalid Authorization header"),
            Some(token) => RouteStep::Await(
                RouteFlow::Verifying { route, token: token.to_owned() },
            ),
        },
    }
}

/// `POST /api/session`
pub fn create_session(header: Option<&[u8]>) -> (res: RouteStep)
    ensures
        res@ == begins(Route::CreateSession, raw(header)),
{
    authenticate(Route::CreateSession, header)
}

/// `GET /api/tenant/status`
pub fn tenant_status(header: Option<&[u8]>) -> (res: RouteStep)
    ensures
        res@ == begins(Route::TenantStatus, raw(header)),
{
    authenticate(Route::TenantStatus, header)
}

/// `POST /api/tenant/suspend`
pub fn suspend_tenant(header: Option<&[u8]>) -> (res: RouteStep)
    ensures
        res@ == begins(Route::SuspendTenant, raw(header)),
{
    authenticate(Route::SuspendTenant, header)
}

/// `DELETE /api/tenant`
pub fn delete_tenant(header: Option<&[u8]>) -> (res: RouteStep)
    ensures
        res@ == begins(Route::DeleteTenant, raw(header)),
{
    authenticate(Route::DeleteTenant, header)
}

/// `GET /ext-authz`: Envoy ext-authz endpoint for Gateway token injection.
pub fn ext_authz(header: Option<&[u8]>) -> (res: RouteStep)
    ensures
        res@ == begins(Route::ExtAuthz, raw(header)),
{
    authenticate(Route::ExtAuthz, header)
}

impl RouteFlow<Seq<char>> {
    /// What the flow asks for.
    pub open spec fn asks(self) -> Action<Seq<char>> {
        match self {
            RouteFlow::Verifying { route, token } => Action::Verify(token),
            RouteFlow::Finding { route, user_id } => Action::FindTenant(user_id),
            RouteFlow::Session(flow) => flow.asks(),
            RouteFlow::Suspending { tenant_id } => Action::Suspend(tenant_id),
            RouteFlow::SuspendSaving { tenant_id } => Action::UpdateStatus(
                tenant_id,
                TenantStatus::Suspended,
            ),
            RouteFlow::Deprovisioning { tenant_id } => Action::Deprovision(tenant_id),
            RouteFlow::Deleting { tenant_id } => Action::DeleteTenant(tenant_id),
        }
    }
}

/// A step of a session as a step of the request that it is part of.
pub open spec fn within(step: SessionStep<Seq<char>>) -> RouteStep<Seq<char>> {
    match step {
        SessionStep::Await(flow) => RouteStep::Await(RouteFlow::Session(flow)),
        SessionStep::Done(Ok(response)) => RouteStep::Done(Ok(Reply::Session(response))),
        SessionStep::Done(Err(refusal)) => RouteStep::Done(Err(refusal)),
    }
}

fn in_route(step: SessionStep) -> (res: RouteStep)
    ensures
        res@ == within(step@),
{
    match step {
        SessionStep::Await(flow) => RouteStep::Await(RouteFlow::Session(flow)),
        SessionStep::Done(Ok(response)) => RouteStep::Done(Ok(Reply::Session(response))),
        SessionStep::Done(Err(refusal)) => RouteStep::Done(Err(refusal)),
    }
}

/// What a route does for a user who has no tenant.
pub open spec fn unprovisioned(route: Route, user_id: Seq<char>) -> RouteStep<Seq<char>> {
    match route {
        Route::CreateSession => RouteStep::Await(
            RouteFlow::Session(SessionFlow::Creating { user_id }),
        ),
        Route::ExtAuthz => RouteStep::refuses(401, "No tenant provisioned"@),
        _ => RouteStep::refuses(404, "No tenant found"@),
    }
}

impl AppState<Seq<char>> {
    /// What a route does for a user who has a tenant.
    pub open spec fn with_tenant(self, route: Route, tenant: Tenant<Seq<char>>) -> RouteStep<
        Seq<char>,
    > {
        let tenant_id = tenant.tenant_id;
        match route {
            Route::CreateSession => RouteStep::Await(
                RouteFlow::Session(SessionFlow::Touching { tenant }),
            ),
            Route::TenantStatus => RouteStep::Done(
                Ok(Reply::Status(StatusResponse { tenant_id, status: tenant.status })),
            ),
            Route::SuspendTenant => if tenant.status != TenantStatus::Ready {
                RouteStep::refuses(409, "Tenant is not running"@)
            } else if self.engine_image is Some {
                RouteStep::Await(RouteFlow::Suspending { tenant_id })
            } else {
                RouteStep::Await(RouteFlow::SuspendSaving { tenant_id })
            },
            Route::DeleteTenant => if self.engine_image is Some {
                RouteStep::Await(RouteFlow::Deprovisioning { tenant_id })
            } else {
                RouteStep::Await(RouteFlow::Deleting { tenant_id })
            },
            Route::ExtAuthz => if tenant.status != TenantStatus::Ready {
                RouteStep::refuses(503, "Tenant not ready"@)
            } else {
                RouteStep::Done(Ok(Reply::Admission(admits(tenant))))
            },
        }
    }

    /// What follows from an event. One that answers something else leaves the flow where it is.
    pub open spec fn route_after(
        self,
        flow: RouteFlow<Seq<char>>,
        event: Event<Seq<char>>,
    ) -> RouteStep<Seq<char>> {
        match (flow, event) {
            (RouteFlow::Verifying { route, token }, Event::Verified(outcome)) => match outcome {
                Err(_) => RouteStep::refuses(401, "Unauthorized"@),
                Ok(claims) => RouteStep::Await(RouteFlow::Finding { route, user_id: claims.sub }),
            },
            (RouteFlow::Finding { route, user_id }, Event::Found(outcome)) => match outcome {
                Err(e) => RouteStep::refuses(500, e),
                Ok(None) => unprovisioned(route, user_id),
                Ok(Some(tenant)) => self.with_tenant(route, tenant),
            },
            (RouteFlow::Session(session), event) => within(self.session_after(session, event)),
            (RouteFlow::Suspending { tenant_id }, Event::Performed(outcome)) => match outcome {
                Err(e) => RouteStep::refuses(500, e),
                Ok(_) => RouteStep::Await(RouteFlow::SuspendSaving { tenant_id }),
            },
            (RouteFlow::SuspendSaving { tenant_id }, Event::Performed(outcome)) => match outcome {
                Err(e) => RouteStep::refuses(500, e),
                Ok(_) => RouteStep::Done(Ok(Reply::NoContent)),
            },
            (RouteFlow::Deprovisioning { tenant_id }, Event::Performed(outcome)) => match outcome {
                Err(e) => RouteStep::refuses(500, "K8s deprovision failed: "@ + e),
                Ok(_) => RouteStep::Await(RouteFlow::Deleting { tenant_id }),
            },
            (RouteFlow::Deleting { tenant_id }, Event::Performed(outcome)) => match outcome {
                Err(e) => RouteStep::refuses(500, e),
                Ok(_) => RouteStep::Done(Ok(Reply::NoContent)),
            },
            _ => RouteStep::Await(flow),
        }
    }
}

fn without_tenant(route: Route, user_id: &str) -> (res: RouteStep)
    ensures
        res@ == unprovisioned(route, user_id@),
{
    match route {
        Route::CreateSession => RouteStep::Await(RouteFlow::Session(provision_new(user_id))),
        Route::ExtAuthz => refuse(401, "No tenant provisioned"),
        _ => refuse(404, "No tenant found"),
    }
}

fn with_tenant(state: &AppState, route: Route, tenant: Tenant) -> (res: RouteStep)
    ensures
        res@ == state@.with_tenant(route, tenant@),
{
    match route {
        Route::CreateSession => RouteStep::Await(RouteFlow::Session(handle_existing(tenant))),
        Route::TenantStatus => RouteStep::Done(
            Ok(
                Reply::Status(
                    StatusResponse { tenant_id: tenant.tenant_id, status: tenant.status },
                ),
            ),
        ),
        Route::SuspendTenant => if tenant.status != TenantStatus::Ready {
            refuse(409, "Tenant is not running")
        } else if state.engine_image.is_some() {
            RouteStep::Await(RouteFlow::Suspending { tenant_id: tenant.tenant_id })
        } else {
            RouteStep::Await(RouteFlow::SuspendSaving { tenant_id: tenant.tenant_id })
        },
        Route::DeleteTenant => if state.engine_image.is_some() {
            RouteStep::Await(RouteFlow::Deprovisioning { tenant_id: tenant.tenant_id })
        } else {
            RouteStep::Await(RouteFlow::Deleting { tenant_id: tenant.tenant_id })
        },
        Route::ExtAuthz => if tenant.status != TenantStatus::Ready {
            refuse(503, "Tenant not ready")
        } else {
            RouteStep::Done(Ok(Reply::Admission(admission(&tenant))))
        },
    }
}

impl RouteFlow {
    /// What the flow asks for.
    pub fn action(&self) -> (res: Action)
        ensures
            res@ == self@.asks(),
    {
        match self {
            RouteFlow::Verifying { token, .. } => Action::Verify(token.clone()),
            RouteFlow::Finding { user_id, .. } => Action::FindTenant(user_id.clone()),
            RouteFlow::Session(flow) => flow.action(),
            RouteFlow::Suspending { tenant_id } => Action::Suspend(tenant_id.clone()),
            RouteFlow::SuspendSaving { tenant_id } => Action::UpdateStatus(
                tenant_id.clone(),
                TenantStatus::Suspended,
            ),
            RouteFlow::Deprovisioning { tenant_id } => Action::Deprovision(tenant_id.clone()),
            RouteFlow::Deleting { tenant_id } => Action::DeleteTenant(tenant_id.clone()),
        }
    }

    /// What follows from an event. One that answers something else leaves the flow where it is.
    pub fn resume(self, state: &AppState, event: Event) -> (res: RouteStep)
        ensures
            res@ == state@.route_after(self@, event@),
    {
        match (self, event) {
            (RouteFlow::Verifying { route, .. }, Event::Verified(outcome)) => match outcome {
                Err(_) => refuse(401, "Unauthorized"),
                Ok(claims) => RouteStep::Await(RouteFlow::Finding { route, user_id: claims.sub }),
            },
            (RouteFlow::Finding { route, user_id }, Event::Found(outcome)) => match outcome {
                Err(e) => refuse(500, e.as_str()),
                Ok(None) => without_tenant(route, user_id.as_str()),
                Ok(Some(tenant)) => with_tenant(state, route, tenant),
            },
            (RouteFlow::Session(session), event) => in_route(session.resume(state, event)),
            (RouteFlow::Suspending { tenant_id }, Event::Performed(outcome)) => match outcome {
                Err(e) => refuse(500, e.as_str()),
                Ok(_) => RouteStep::Await(RouteFlow::SuspendSaving { tenant_id }),
            },
            (RouteFlow::SuspendSaving { .. }, Event::Performed(outcome)) => match outcome {
                Err(e) => refuse(500, e.as_str()),
                Ok(_) => RouteStep::Done(Ok(Reply::NoContent)),
            },
            (RouteFlow::Deprovisioning { tenant_id }, Event::Performed(outcome)) => match outcome {
                Err(e) => refuse(500, cat("K8s deprovision failed: ", e.as_str()).as_str()),
                Ok(_) => RouteStep::Await(RouteFlow::Deleting { tenant_id }),
            },
            (RouteFlow::Deleting { .. }, Event::Performed(outcome)) => match outcome {
                Err(e) => refuse(500, e.as_str()),
                Ok(_) => RouteStep::Done(Ok(Reply::NoContent)),
            },
            (flow, _) => RouteStep::Await(flow),
        }
    }
}

} // verus!
