//! Session creation: the core of `POST /api/session`.
//!
//! Handles existing tenants (wake, health check, reprovision) and new ones. A session is a flow: it
//! says what to ask for next (`action`) and what follows from the reply (`resume`).
use crate::effects;
use crate::effects::{is_healthy, Action, Event, HealthProbe};
use crate::k8s;
use crate::k8s::{tenant_engine_url, TenantSpec};
use crate::routes;
use crate::routes::{
    engine_url, err, resolve_tenant_url, response_token, AppState, Refusal, SessionResponse,
};
use crate::tenant::{Tenant, TenantStatus};
use crate::text::cat;
use vstd::prelude::*;

verus! {

/// Where a session stands: which reply it waits for.
#[verifier::ext_equal]
#[derive(Debug)]
pub enum SessionFlow<S = String> {
    /// The tenant, which exists, is being noted as active.
    Touching { tenant: Tenant<S> },
    /// The pod of a suspended tenant is being created again.
    Waking { tenant: Tenant<S>, spec: TenantSpec<S> },
    /// A tenant that woke is being stored as provisioning.
    WakeSaving { tenant: Tenant<S> },
    /// The engine of a tenant that is not known to run is being probed.
    Probing { tenant: Tenant<S>, probe: HealthProbe<S> },
    /// A tenant whose engine is healthy is being stored as ready.
    ReadySaving { tenant: Tenant<S> },
    /// The pod of a tenant whose engine did not answer is being looked for.
    PodChecking { tenant: Tenant<S>, spec: TenantSpec<S> },
    /// A tenant without a pod is being provisioned again.
    Reprovisioning { tenant: Tenant<S>, spec: TenantSpec<S> },
    /// A tenant that was provisioned again is being stored as provisioning.
    ReprovisionSaving { tenant: Tenant<S> },
    /// A tenant whose provisioning failed is being stored as such.
    FailureSaving { tenant: Tenant<S>, reason: S },
    /// A tenant is being created for a user who has none.
    Creating { user_id: S },
    /// A new tenant is being provisioned.
    NewProvisioning { tenant: Tenant<S>, spec: TenantSpec<S> },
    /// The engine of a new tenant is being probed.
    NewProbing { tenant: Tenant<S>, probe: HealthProbe<S> },
}

impl View for SessionFlow {
    type V = SessionFlow<Seq<char>>;

    open spec fn view(&self) -> SessionFlow<Seq<char>> {
        match *self {
            SessionFlow::Touching { tenant } => SessionFlow::Touching { tenant: tenant@ },
            SessionFlow::Waking { tenant, spec } => SessionFlow::Waking {
                tenant: tenant@,
                spec: spec@,
            },
            SessionFlow::WakeSaving { tenant } => SessionFlow::WakeSaving { tenant: tenant@ },
            SessionFlow::Probing { tenant, probe } => SessionFlow::Probing {
                tenant: tenant@,
                probe: probe@,
            },
            SessionFlow::ReadySaving { tenant } => SessionFlow::ReadySaving { tenant: tenant@ },
            SessionFlow::PodChecking { tenant, spec } => SessionFlow::PodChecking {
                tenant: tenant@,
                spec: spec@,
            },
            SessionFlow::Reprovisioning { tenant, spec } => SessionFlow::Reprovisioning {
                tenant: tenant@,
                spec: spec@,
            },
            SessionFlow::ReprovisionSaving { tenant } => SessionFlow::ReprovisionSaving {
                tenant: tenant@,
            },
            SessionFlow::FailureSaving { tenant, reason } => SessionFlow::FailureSaving {
                tenant: tenant@,
                reason: reason@,
            },
            SessionFlow::Creating { user_id } => SessionFlow::Creating { user_id: user_id@ },
            SessionFlow::NewProvisioning { tenant, spec } => SessionFlow::NewProvisioning {
                tenant: tenant@,
                spec: spec@,
            },
            SessionFlow::NewProbing { tenant, probe } => SessionFlow::NewProbing {
                tenant: tenant@,
                probe: probe@,
            },
        }
    }
}

/// A session that waits for a reply, or the end of one.
#[verifier::ext_equal]
#[derive(Debug)]
pub enum SessionStep<S = String> {
    Await(SessionFlow<S>),
    Done(Result<SessionResponse<S>, Refusal<S>>),
}

impl View for SessionStep {
    type V = SessionStep<Seq<char>>;

    open spec fn view(&self) -> SessionStep<Seq<char>> {
        match *self {
            SessionStep::Await(flow) => SessionStep::Await(flow@),
            SessionStep::Done(Ok(response)) => SessionStep::Done(Ok(response@)),
            SessionStep::Done(Err(refusal)) => SessionStep::Done(Err(refusal@)),
        }
    }
}

impl SessionStep<Seq<char>> {
    /// The end with an internal error.
    pub open spec fn fails(message: Seq<char>) -> Self {
        SessionStep::Done(Err(Refusal::with(500, message)))
    }
}

impl SessionFlow<Seq<char>> {
    /// What the flow asks for.
    pub open spec fn asks(self) -> Action<Seq<char>> {
        match self {
            SessionFlow::Touching { tenant } => Action::Touch(tenant.tenant_id),
            SessionFlow::Waking { tenant, spec } => Action::Wake(spec),
            SessionFlow::WakeSaving { tenant } => Action::UpdateStatus(
                tenant.tenant_id,
                TenantStatus::Provisioning,
            ),
            SessionFlow::Probing { tenant, probe } => Action::CheckHealth(probe),
            SessionFlow::ReadySaving { tenant } => Action::UpdateStatus(
                tenant.tenant_id,
                TenantStatus::Ready,
            ),
            SessionFlow::PodChecking { tenant, spec } => Action::PodExists(tenant.tenant_id),
            SessionFlow::Reprovisioning { tenant, spec } => Action::Provision(spec),
            SessionFlow::ReprovisionSaving { tenant } => Action::UpdateStatus(
                tenant.tenant_id,
                TenantStatus::Provisioning,
            ),
            SessionFlow::FailureSaving { tenant, reason } => Action::UpdateStatus(
                tenant.tenant_id,
                TenantStatus::Error,
            ),
            SessionFlow::Creating { user_id } => Action::CreateTenant(user_id),
            SessionFlow::NewProvisioning { tenant, spec } => Action::Provision(spec),
            SessionFlow::NewProbing { tenant, probe } => Action::CheckHealth(probe),
        }
    }
}

impl AppState<Seq<char>> {
    /// The answer for a tenant with a status.
    pub open spec fn answer(self, tenant: Tenant<Seq<char>>, status: TenantStatus) -> SessionStep<
        Seq<char>,
    > {
        SessionStep::Done(
            Ok(
                SessionResponse {
                    engine_url: self.tenant_url(tenant.tenant_id),
                    engine_token: self.shown_token(tenant.engine_token),
                    tenant_id: tenant.tenant_id,
                    status,
                },
            ),
        )
    }

    /// Waking a suspended tenant takes Kubernetes.
    pub open spec fn wakes(self, tenant: Tenant<Seq<char>>) -> SessionStep<Seq<char>> {
        match self.spec_of(tenant) {
            Some(spec) => SessionStep::Await(SessionFlow::Waking { tenant, spec }),
            None => SessionStep::fails("K8s not configured"@),
        }
    }

    /// A tenant that is provisioning or failed is probed inside the cluster; of any other, the
    /// stored status holds.
    pub open spec fn resolves(self, tenant: Tenant<Seq<char>>) -> SessionStep<Seq<char>> {
        if tenant.status == TenantStatus::Provisioning || tenant.status == TenantStatus::Error {
            SessionStep::Await(
                SessionFlow::Probing {
                    tenant,
                    probe: HealthProbe::of(
                        k8s::cluster_url(tenant.tenant_id),
                        self.probe_token(tenant.engine_token),
                    ),
                },
            )
        } else {
            self.answer(tenant, tenant.status)
        }
    }

    /// A new tenant is provisioned where tenants live in Kubernetes; otherwise the engine at the
    /// template's URL is probed at once. Either way the tenant's URL is the one that every later
    /// session is given.
    pub open spec fn begins_new(self, tenant: Tenant<Seq<char>>) -> SessionStep<Seq<char>> {
        match self.spec_of(tenant) {
            Some(spec) => SessionStep::Await(SessionFlow::NewProvisioning { tenant, spec }),
            None => SessionStep::Await(
                SessionFlow::NewProbing {
                    tenant,
                    probe: HealthProbe::of(
                        routes::filled(self.engine_url_template, tenant.tenant_id),
                        self.probe_token(tenant.engine_token),
                    ),
                },
            ),
        }
    }

    /// What follows from an event. One that answers something else leaves the flow where it is.
    pub open spec fn session_after(
        self,
        flow: SessionFlow<Seq<char>>,
        event: Event<Seq<char>>,
    ) -> SessionStep<Seq<char>> {
        match (flow, event) {
            (SessionFlow::Touching { tenant }, Event::Performed(outcome)) => match outcome {
                Err(e) => SessionStep::fails(e),
                Ok(_) => if tenant.status == TenantStatus::Suspended {
                    self.wakes(tenant)
                } else {
                    self.resolves(tenant)
                },
            },
            (SessionFlow::Waking { tenant, spec }, Event::Performed(outcome)) => match outcome {
                Err(e) => SessionStep::fails("Wake failed: "@ + e),
                Ok(_) => SessionStep::Await(SessionFlow::WakeSaving { tenant }),
            },
            (SessionFlow::WakeSaving { tenant }, Event::Performed(outcome)) => match outcome {
                Err(e) => SessionStep::fails(e),
                Ok(_) => self.answer(tenant, TenantStatus::Provisioning),
            },
            (SessionFlow::Probing { tenant, probe }, Event::Probed(status)) => if effects::healthy(
                status,
            ) {
                SessionStep::Await(SessionFlow::ReadySaving { tenant })
            } else {
                match self.spec_of(tenant) {
                    Some(spec) => SessionStep::Await(SessionFlow::PodChecking { tenant, spec }),
                    None => self.answer(tenant, TenantStatus::Provisioning),
                }
            },
            (SessionFlow::ReadySaving { tenant }, Event::Performed(outcome)) => match outcome {
                Err(e) => SessionStep::fails(e),
                Ok(_) => self.answer(tenant, TenantStatus::Ready),
            },
            (SessionFlow::PodChecking { tenant, spec }, Event::Exists(outcome)) => match outcome {
                Err(e) => SessionStep::fails("K8s unreachable: "@ + e),
                Ok(true) => self.answer(tenant, TenantStatus::Provisioning),
                Ok(false) => SessionStep::Await(SessionFlow::Reprovisioning { tenant, spec }),
            },
            (SessionFlow::Reprovisioning { tenant, spec }, Event::Performed(outcome)) => match outcome {
                Err(reason) => SessionStep::Await(SessionFlow::FailureSaving { tenant, reason }),
                Ok(_) => SessionStep::Await(SessionFlow::ReprovisionSaving { tenant }),
            },
            (SessionFlow::ReprovisionSaving { tenant }, Event::Performed(outcome)) => match outcome {
                Err(e) => SessionStep::fails(e),
                Ok(_) => self.answer(tenant, TenantStatus::Provisioning),
            },
            (SessionFlow::FailureSaving { tenant, reason }, Event::Performed(outcome)) => match outcome {
                Err(e) => SessionStep::fails(e),
                Ok(_) => SessionStep::fails(reason),
            },
            (SessionFlow::Creating { user_id }, Event::Created(outcome)) => match outcome {
                Err(e) => SessionStep::fails(e),
                Ok(tenant) => self.begins_new(tenant),
            },
            (SessionFlow::NewProvisioning { tenant, spec }, Event::Performed(outcome)) => match outcome {
                Err(reason) => SessionStep::Await(SessionFlow::FailureSaving { tenant, reason }),
                Ok(_) => SessionStep::Await(
                    SessionFlow::NewProbing {
                        tenant,
                        probe: HealthProbe::of(
                            k8s::cluster_url(tenant.tenant_id),
                            tenant.engine_token,
                        ),
                    },
                ),
            },
            (SessionFlow::NewProbing { tenant, probe }, Event::Probed(status)) => if effects::healthy(
                status,
            ) {
                SessionStep::Await(SessionFlow::ReadySaving { tenant })
            } else {
                self.answer(tenant, TenantStatus::Provisioning)
            },
            _ => SessionStep::Await(flow),
        }
    }
}

/// An internal error.
pub fn ise(msg: &str) -> (res: Refusal)
    ensures
        res@ == Refusal::with(500, msg@),
{
    err(500, msg)
}

fn fails(message: &str) -> (res: SessionStep)
    ensures
        res@ == SessionStep::fails(message@),
{
    SessionStep::Done(Err(ise(message)))
}

fn answer(state: &AppState, tenant: Tenant, status: TenantStatus) -> (res: SessionStep)
    ensures
        res@ == state@.answer(tenant@, status),
{
    let engine_url = resolve_tenant_url(state, tenant.tenant_id.as_str());
    let engine_token = response_token(state, tenant.engine_token.as_str());
    SessionStep::Done(
        Ok(SessionResponse { engine_url, engine_token, tenant_id: tenant.tenant_id, status }),
    )
}

/// Handle an existing tenant: wake if suspended, health-check if provisioning, reprovision if its
/// pod is missing.
pub fn handle_existing(tenant: Tenant) -> (res: SessionFlow)
    ensures
        res@ == (SessionFlow::Touching { tenant: tenant@ }),
{
    SessionFlow::Touching { tenant }
}

/// Provision a brand new tenant for a user who has none.
pub fn provision_new(user_id: &str) -> (res: SessionFlow)
    ensures
        res@ == (SessionFlow::Creating { user_id: user_id@ }),
{
    SessionFlow::Creating { user_id: user_id.to_owned() }
}

fn wake_suspended(state: &AppState, tenant: Tenant) -> (res: SessionStep)
    ensures
        res@ == state@.wakes(tenant@),
{
    match state.k8s_spec(&tenant) {
        Some(spec) => SessionStep::Await(SessionFlow::Waking { tenant, spec }),
        None => fails("K8s not configured"),
    }
}

fn probe_token<'a>(state: &'a AppState, tenant: &'a Tenant) -> (res: &'a str)
    ensures
        res@ == state@.probe_token(tenant@.engine_token),
{
    match &state.dev_engine_token {
        Some(token) => token.as_str(),
        None => tenant.engine_token.as_str(),
    }
}

fn resolve_status(state: &AppState, tenant: Tenant) -> (res: SessionStep)
    ensures
        res@ == state@.resolves(tenant@),
{
    if tenant.status != TenantStatus::Provisioning && tenant.status != TenantStatus::Error {
        let status = tenant.status;
        return answer(state, tenant, status);
    }
    let health_url = tenant_engine_url(tenant.tenant_id.as_str());
    let probe = HealthProbe::new(health_url.as_str(), probe_token(state, &tenant));
    SessionStep::Await(SessionFlow::Probing { tenant, probe })
}

fn after_creation(state: &AppState, tenant: Tenant) -> (res: SessionStep)
    ensures
        res@ == state@.begins_new(tenant@),
{
    match state.k8s_spec(&tenant) {
        Some(spec) => SessionStep::Await(SessionFlow::NewProvisioning { tenant, spec }),
        None => {
            let health_url = engine_url(
                state.engine_url_template.as_str(),
                tenant.tenant_id.as_str(),
            );
            let probe = HealthProbe::new(health_url.as_str(), probe_token(state, &tenant));
            SessionStep::Await(SessionFlow::NewProbing { tenant, probe })
        },
    }
}

impl SessionFlow {
    /// What the flow asks for.
    pub fn action(&self) -> (res: Action)
        ensures
            res@ == self@.asks(),
    {
        match self {
            SessionFlow::Touching { tenant } => Action::Touch(tenant.tenant_id.clone()),
            SessionFlow::Waking { spec, .. } => Action::Wake(spec.clone()),
            SessionFlow::WakeSaving { tenant } => Action::UpdateStatus(
                tenant.tenant_id.clone(),
                TenantStatus::Provisioning,
            ),
            SessionFlow::Probing { probe, .. } => Action::CheckHealth(probe.clone()),
            SessionFlow::ReadySaving { tenant } => Action::UpdateStatus(
                tenant.tenant_id.clone(),
                TenantStatus::Ready,
            ),
            SessionFlow::PodChecking { tenant, .. } => Action::PodExists(tenant.tenant_id.clone()),
            SessionFlow::Reprovisioning { spec, .. } => Action::Provision(spec.clone()),
            SessionFlow::ReprovisionSaving { tenant } => Action::UpdateStatus(
                tenant.tenant_id.clone(),
                TenantStatus::Provisioning,
            ),
            SessionFlow::FailureSaving { tenant, .. } => Action::UpdateStatus(
                tenant.tenant_id.clone(),
                TenantStatus::Error,
            ),
            SessionFlow::Creating { user_id } => Action::CreateTenant(user_id.clone()),
            SessionFlow::NewProvisioning { spec, .. } => Action::Provision(spec.clone()),
            SessionFlow::NewProbing { probe, .. } => Action::CheckHealth(probe.clone()),
        }
    }

    /// What follows from an event. One that answers something else leaves the flow where it is.
    pub fn resume(self, state: &AppState, event: Event) -> (res: SessionStep)
        ensures
            res@ == state@.session_after(self@, event@),
    {
        match (self, event) {
            (SessionFlow::Touching { tenant }, Event::Performed(outcome)) => match outcome {
                Err(e) => fails(e.as_str()),
                Ok(_) => if tenant.status == TenantStatus::Suspended {
                    wake_suspended(state, tenant)
                } else {
                    resolve_status(state, tenant)
                },
            },
            (SessionFlow::Waking { tenant, .. }, Event::Performed(outcome)) => match outcome {
                Err(e) => fails(cat("Wake failed: ", e.as_str()).as_str()),
                Ok(_) => SessionStep::Await(SessionFlow::WakeSaving { tenant }),
            },
            (SessionFlow::WakeSaving { tenant }, Event::Performed(outcome)) => match outcome {
                Err(e) => fails(e.as_str()),
                Ok(_) => answer(state, tenant, TenantStatus::Provisioning),
            },
            (SessionFlow::Probing { tenant, .. }, Event::Probed(status)) => {
                if is_healthy(status) {
                    SessionStep::Await(SessionFlow::ReadySaving { tenant })
                } else {
                    match state.k8s_spec(&tenant) {
                        Some(spec) => SessionStep::Await(SessionFlow::PodChecking { tenant, spec }),
                        None => answer(state, tenant, TenantStatus::Provisioning),
                    }
                }
            },
            (SessionFlow::ReadySaving { tenant }, Event::Performed(outcome)) => match outcome {
                Err(e) => fails(e.as_str()),
                Ok(_) => answer(state, tenant, TenantStatus::Ready),
            },
            (SessionFlow::PodChecking { tenant, spec }, Event::Exists(outcome)) => match outcome {
                Err(e) => fails(cat("K8s unreachable: ", e.as_str()).as_str()),
                Ok(exists) => if exists {
                    answer(state, tenant, TenantStatus::Provisioning)
                } else {
                    SessionStep::Await(SessionFlow::Reprovisioning { tenant, spec })
                },
            },
            (SessionFlow::Reprovisioning { tenant, .. }, Event::Performed(outcome)) => match outcome {
                Err(reason) => SessionStep::Await(SessionFlow::FailureSaving { tenant, reason }),
                Ok(_) => SessionStep::Await(SessionFlow::ReprovisionSaving { tenant }),
            },
            (SessionFlow::ReprovisionSaving { tenant }, Event::Performed(outcome)) => match outcome {
                Err(e) => fails(e.as_str()),
                Ok(_) => answer(state, tenant, TenantStatus::Provisioning),
            },
            (SessionFlow::FailureSaving { reason, .. }, Event::Performed(outcome)) => match outcome {
                Err(e) => fails(e.as_str()),
                Ok(_) => fails(reason.as_str()),
            },
            (SessionFlow::Creating { .. }, Event::Created(outcome)) => match outcome {
                Err(e) => fails(e.as_str()),
                Ok(tenant) => after_creation(state, tenant),
            },
            (SessionFlow::NewProvisioning { tenant, .. }, Event::Performed(outcome)) => match outcome {
                Err(reason) => SessionStep::Await(SessionFlow::FailureSaving { tenant, reason }),
                Ok(_) => {
                    let health_url = tenant_engine_url(tenant.tenant_id.as_str());
                    let probe = HealthProbe::new(
                        health_url.as_str(),
                        tenant.engine_token.as_str(),
                    );
                    SessionStep::Await(SessionFlow::NewProbing { tenant, probe })
                },
            },
            (SessionFlow::NewProbing { tenant, .. }, Event::Probed(status)) => {
                if is_healthy(status) {
                    SessionStep::Await(SessionFlow::ReadySaving { tenant })
                } else {
                    answer(state, tenant, TenantStatus::Provisioning)
                }
            },
            (flow, _) => SessionStep::Await(flow),
        }
    }
}

} // verus!
