//! What the route handlers ask of the world around them, and what comes back.
use crate::auth;
use crate::auth::Claims;
use crate::k8s::TenantSpec;
use crate::store;
use crate::store::is_success;
use crate::tenant::{Tenant, TenantStatus};
use crate::text;
use crate::text::{cat, trim_end};
use vstd::prelude::*;

verus! {

/// A request for an engine's health.
#[verifier::ext_equal]
#[derive(Debug)]
pub struct HealthProbe<S = String> {
    pub url: S,
    /// The value of the Authorization header.
    pub authorization: S,
    /// How long to wait.
    pub timeout_secs: u64,
}

impl View for HealthProbe {
    type V = HealthProbe<Seq<char>>;

    open spec fn view(&self) -> HealthProbe<Seq<char>> {
        HealthProbe {
            url: self.url@,
            authorization: self.authorization@,
            timeout_secs: self.timeout_secs,
        }
    }
}

impl HealthProbe<Seq<char>> {
    /// The probe of an engine, with its token.
    pub open spec fn of(engine_url: Seq<char>, engine_token: Seq<char>) -> Self {
        HealthProbe {
            url: text::trimmed_end(engine_url, '/') + "/v1/health"@,
            authorization: "Bearer "@ + engine_token,
            timeout_secs: 3,
        }
    }
}

impl HealthProbe {
    /// The probe of an engine, with its token.
    pub fn new(engine_url: &str, engine_token: &str) -> (res: Self)
        ensures
            res@ == HealthProbe::of(engine_url@, engine_token@),
    {
        HealthProbe {
            url: cat(trim_end(engine_url, '/'), "/v1/health"),
            authorization: cat("Bearer ", engine_token),
            timeout_secs: 3,
        }
    }
}

impl Clone for HealthProbe {
    fn clone(&self) -> (res: Self)
        ensures
            res@ == self@,
    {
        HealthProbe {
            url: self.url.clone(),
            authorization: self.authorization.clone(),
            timeout_secs: self.timeout_secs,
        }
    }
}

/// Whether an engine is healthy: it answered its probe, with a status that says so.
pub open spec fn healthy(status: Option<u16>) -> bool {
    status matches Some(code) && store::succeeded(code)
}

/// Whether an engine is healthy: it answered its probe, with a status that says so.
pub fn is_healthy(status: Option<u16>) -> (res: bool)
    ensures
        res == healthy(status),
{
    match status {
        Some(code) => is_success(code),
        None => false,
    }
}

/// What a handler asks for.
#[verifier::ext_equal]
#[derive(Debug)]
pub enum Action<S = String> {
    /// Verify a JWT.
    Verify(S),
    /// Find the tenant of a user.
    FindTenant(S),
    /// Create a tenant for a user.
    CreateTenant(S),
    /// Note that a tenant is active.
    Touch(S),
    /// Store a tenant's status.
    UpdateStatus(S, TenantStatus),
    /// Delete a tenant from the store.
    DeleteTenant(S),
    /// Ask an engine for its health.
    CheckHealth(HealthProbe<S>),
    /// Check whether a tenant's pod exists.
    PodExists(S),
    /// Create whatever a tenant lacks in the cluster.
    Provision(TenantSpec<S>),
    /// Create a suspended tenant's pod again.
    Wake(TenantSpec<S>),
    /// Delete a tenant's pod.
    Suspend(S),
    /// Delete all that a tenant has in the cluster.
    Deprovision(S),
}

impl View for Action {
    type V = Action<Seq<char>>;

    open spec fn view(&self) -> Action<Seq<char>> {
        match *self {
            Action::Verify(token) => Action::Verify(token@),
            Action::FindTenant(user_id) => Action::FindTenant(user_id@),
            Action::CreateTenant(user_id) => Action::CreateTenant(user_id@),
            Action::Touch(tenant_id) => Action::Touch(tenant_id@),
            Action::UpdateStatus(tenant_id, status) => Action::UpdateStatus(tenant_id@, status),
            Action::DeleteTenant(tenant_id) => Action::DeleteTenant(tenant_id@),
            Action::CheckHealth(probe) => Action::CheckHealth(probe@),
            Action::PodExists(tenant_id) => Action::PodExists(tenant_id@),
            Action::Provision(spec) => Action::Provision(spec@),
            Action::Wake(spec) => Action::Wake(spec@),
            Action::Suspend(tenant_id) => Action::Suspend(tenant_id@),
            Action::Deprovision(tenant_id) => Action::Deprovision(tenant_id@),
        }
    }
}

/// What came back. An error is in words.
#[verifier::ext_equal]
#[derive(Debug)]
pub enum Event<S = String> {
    /// Whose JWT it is.
    Verified(Result<Claims<S>, S>),
    /// The tenant of the user, if any.
    Found(Result<Option<Tenant<S>>, S>),
    /// The tenant as it was created.
    Created(Result<Tenant<S>, S>),
    /// The status with which an engine answered its probe, if it answered.
    Probed(Option<u16>),
    /// Whether the pod exists.
    Exists(Result<bool, S>),
    /// The end of any other action.
    Performed(Result<(), S>),
}

impl View for Event {
    type V = Event<Seq<char>>;

    open spec fn view(&self) -> Event<Seq<char>> {
        match *self {
            Event::Verified(outcome) => Event::Verified(auth::claims_view(outcome)),
            Event::Found(outcome) => Event::Found(store::lookup_view(outcome)),
            Event::Created(outcome) => Event::Created(store::tenant_view(outcome)),
            Event::Probed(status) => Event::Probed(status),
            Event::Exists(outcome) => Event::Exists(text::outcome(outcome)),
            Event::Performed(outcome) => Event::Performed(text::outcome(outcome)),
        }
    }
}

/// Whether an event is of the kind that answers an action.
pub open spec fn answers(action: Action<Seq<char>>, event: Event<Seq<char>>) -> bool {
    match action {
        Action::Verify(_) => event is Verified,
        Action::FindTenant(_) => event is Found,
        Action::CreateTenant(_) => event is Created,
        Action::CheckHealth(_) => event is Probed,
        Action::PodExists(_) => event is Exists,
        _ => event is Performed,
    }
}

} // verus!
