//! What each request does, from beginning to end: what is asked for after which replies, and how the
//! request is answered. The laws here speak of requests as they are seen from outside, by their
//! headers, what they ask for, and their answers.
use crate::auth::Claims;
use crate::effects::{Action, Event, HealthProbe};
use crate::header;
use crate::json::JsonView;
use crate::k8s::TenantSpec;
use crate::routes;
use crate::routes::{AppState, Refusal, Reply, Route, RouteFlow, RouteStep};
use crate::tenant::{Tenant, TenantStatus};
use crate::text;
use vstd::prelude::*;

verus! {

/// What a request asks for after some events, if it is not done.
pub open spec fn asked(
    state: AppState<Seq<char>>,
    route: Route,
    header: Option<Seq<u8>>,
    events: Seq<Event<Seq<char>>>,
) -> Option<Action<Seq<char>>> {
    match state.serve(routes::begins(route, header), events) {
        RouteStep::Await(flow) => Some(flow.asks()),
        RouteStep::Done(_) => None,
    }
}

/// How a request is answered after some events, if it is done.
pub open spec fn answered(
    state: AppState<Seq<char>>,
    route: Route,
    header: Option<Seq<u8>>,
    events: Seq<Event<Seq<char>>>,
) -> Option<Result<Reply<Seq<char>>, Refusal<Seq<char>>>> {
    match state.serve(routes::begins(route, header), events) {
        RouteStep::Await(_) => None,
        RouteStep::Done(outcome) => Some(outcome),
    }
}

/// Whether an answer is a refusal with a status and a message.
pub open spec fn is_refused(
    answer: Option<Result<Reply<Seq<char>>, Refusal<Seq<char>>>>,
    status: int,
    message: Seq<char>,
) -> bool {
    answer matches Some(Err(refusal)) && refusal.status == status && refusal.body.error == message
}

/// Whether an answer is a session on a tenant's engine: behind the Gateway it names the tenant's
/// public host and no token, otherwise the template's URL and the token that the engine goes by.
pub open spec fn is_session_on(
    state: AppState<Seq<char>>,
    answer: Option<Result<Reply<Seq<char>>, Refusal<Seq<char>>>>,
    tenant: Tenant<Seq<char>>,
    status: TenantStatus,
) -> bool {
    &&& answer matches Some(Ok(Reply::Session(response)))
    &&& response.tenant_id == tenant.tenant_id
    &&& response.status == status
    &&& state.gateway_domain matches Some(domain) ==> {
        &&& response.engine_url == state.gateway_scheme + "://"@ + tenant.tenant_id + "."@ + domain
        &&& response.engine_token is None
    }
    &&& state.gateway_domain is None ==> {
        &&& response.engine_url == text::replaced(
            state.engine_url_template,
            "{tenant_id}"@,
            tenant.tenant_id,
        )
        &&& response.engine_token == Some(token_for(state, tenant))
    }
}

/// The token that a tenant's engine goes by: that of development where there is one, else its own.
pub open spec fn token_for(state: AppState<Seq<char>>, tenant: Tenant<Seq<char>>) -> Seq<char> {
    if state.dev_engine_token is Some {
        state.dev_engine_token->0
    } else {
        tenant.engine_token
    }
}

/// Whether a specification is a tenant's, under the settings, field by field.
pub open spec fn is_made_for(
    state: AppState<Seq<char>>,
    tenant: Tenant<Seq<char>>,
    spec: TenantSpec<Seq<char>>,
) -> bool {
    &&& spec.tenant_id == tenant.tenant_id
    &&& spec.engine_token == tenant.engine_token
    &&& Some(spec.engine_image) == state.engine_image
    &&& spec.gateway_domain == state.gateway_domain
    &&& spec.gvisor == state.gvisor
    &&& spec.storage_class == state.storage_class
}

/// Whether a probe asks the engine at a URL for its health, with a token, for three seconds.
pub open spec fn is_probe_of(
    probe: HealthProbe<Seq<char>>,
    url: Seq<char>,
    token: Seq<char>,
) -> bool {
    &&& probe.url == text::trimmed_end(url, '/') + "/v1/health"@
    &&& probe.authorization == "Bearer "@ + token
    &&& probe.timeout_secs == 3
}

/// The address of a tenant's engine inside the cluster.
pub open spec fn address_in_cluster(tenant_id: Seq<char>) -> Seq<char> {
    "http://"@ + ("tenant-"@ + tenant_id) + "."@ + "houston-tenants"@
        + ".svc.cluster.local:7777"@
}

/// Whether the status of a reply to a probe says that the engine is healthy.
pub open spec fn says_healthy(status: Option<u16>) -> bool {
    status matches Some(code) && 200 <= code <= 299
}

/// Whether a status is that of a tenant whose engine is not known to run, or not to.
pub open spec fn is_unsettled(status: TenantStatus) -> bool {
    status == TenantStatus::Provisioning || status == TenantStatus::Error
}

/// The events up to where a user is known, and which tenant they have.
pub open spec fn looked_up(
    claims: Claims<Seq<char>>,
    tenant: Option<Tenant<Seq<char>>>,
) -> Seq<Event<Seq<char>>> {
    Seq::empty().push(Event::Verified(Ok(claims))).push(Event::Found(Ok(tenant)))
}

/// The event that an action succeeded.
pub open spec fn fine() -> Event<Seq<char>> {
    Event::Performed(Ok(()))
}

/// The event that an action failed, for a reason in words.
pub open spec fn failed(reason: Seq<char>) -> Event<Seq<char>> {
    Event::Performed(Err(reason))
}

/// One event more takes a request one step further.
proof fn one_event_more(
    state: AppState<Seq<char>>,
    route: Route,
    header: Option<Seq<u8>>,
    events: Seq<Event<Seq<char>>>,
    event: Event<Seq<char>>,
)
    ensures
        state.serve(routes::begins(route, header), events.push(event)) == match state.serve(
            routes::begins(route, header),
            events,
        ) {
            RouteStep::Await(flow) => state.route_after(flow, event),
            done => done,
        },
{
    assert(events.push(event).drop_last() == events);
}

/// The bytes of a text that is all ASCII.
pub open spec fn ascii_bytes(text: Seq<char>) -> Seq<u8> {
    text.map_values(|c: char| c as u8)
}

/// A request whose Authorization header says `Bearer`, or `bearer`, and a token has that token
/// verified, on every route; nothing else is asked for first.
pub proof fn bearer_tokens_are_verified(
    state: AppState<Seq<char>>,
    route: Route,
    header: Seq<u8>,
    token: Seq<char>,
)
    requires
        header::text_of(header) == Some("Bearer "@ + token) || header::text_of(header) == Some(
            "bearer "@ + token,
        ),
    ensures
        asked(state, route, Some(header), Seq::empty()) == Some(Action::Verify(token)),
{
    crate::auth::laws::bearer_tokens_are_found(token);
}

/// A request without an Authorization header, or with one that is not text, is told that it is
/// missing; one whose header is another text is told that it is invalid.
pub proof fn other_headers_are_refused(
    state: AppState<Seq<char>>,
    route: Route,
    header: Option<Seq<u8>>,
)
    ensures
        header is None || header::text_of(header->0) is None ==> is_refused(
            answered(state, route, header, Seq::empty()),
            401,
            "Missing Authorization header"@,
        ),
        header is Some && (header::text_of(header->0) matches Some(value) && !(exists|token:
            Seq<char>| value == "Bearer "@ + token || value == #[trigger] ("bearer "@ + token)))
            ==> is_refused(
            answered(state, route, header, Seq::empty()),
            401,
            "Invalid Authorization header"@,
        ),
{
    if header is Some && header::text_of(header->0) is Some {
        let value = header::text_of(header->0)->0;
        crate::auth::laws::only_bearer_tokens_are_found(value);
        if let Some(token) = crate::auth::bearer(value) {
            assert(value == "Bearer "@ + token || value == "bearer "@ + token);
        }
    }
}

/// A user whose token does not verify is told no more than that; one whose token verifies has their
/// tenant looked up, by the ID that the token names; where the lookup fails they are told why.
pub proof fn verified_users_are_looked_up(
    state: AppState<Seq<char>>,
    route: Route,
    header: Option<Seq<u8>>,
    claims: Claims<Seq<char>>,
    e: Seq<char>,
)
    requires
        routes::credentials(header) is Ok,
    ensures
        is_refused(
            answered(state, route, header, Seq::empty().push(Event::Verified(Err(e)))),
            401,
            "Unauthorized"@,
        ),
        asked(state, route, header, Seq::empty().push(Event::Verified(Ok(claims)))) == Some(
            Action::FindTenant(claims.sub),
        ),
        is_refused(
            answered(
                state,
                route,
                header,
                Seq::empty().push(Event::Verified(Ok(claims))).push(Event::Found(Err(e))),
            ),
            500,
            e,
        ),
{
    one_event_more(state, route, header, Seq::empty(), Event::Verified(Err(e)));
    one_event_more(state, route, header, Seq::empty(), Event::Verified(Ok(claims)));
    one_event_more(
        state,
        route,
        header,
        Seq::empty().push(Event::Verified(Ok(claims))),
        Event::Found(Err(e)),
    );
}

/// Where a request stands once it is known which tenant the user has.
proof fn lookups_lead_on(
    state: AppState<Seq<char>>,
    route: Route,
    header: Option<Seq<u8>>,
    claims: Claims<Seq<char>>,
    tenant: Option<Tenant<Seq<char>>>,
)
    requires
        routes::credentials(header) is Ok,
    ensures
        state.serve(routes::begins(route, header), looked_up(claims, tenant)) == match tenant {
            Some(tenant) => state.with_tenant(route, tenant),
            None => routes::unprovisioned(route, claims.sub),
        },
{
    one_event_more(state, route, header, Seq::empty(), Event::Verified(Ok(claims)));
    one_event_more(
        state,
        route,
        header,
        Seq::empty().push(Event::Verified(Ok(claims))),
        Event::Found(Ok(tenant)),
    );
}

/// A user without a tenant gets one by asking for a session, and by no other route: the others say
/// that there is none.
pub proof fn users_without_tenant_are_told_or_given_one(
    state: AppState<Seq<char>>,
    route: Route,
    header: Option<Seq<u8>>,
    claims: Claims<Seq<char>>,
)
    requires
        routes::credentials(header) is Ok,
    ensures
        ({
            let events = looked_up(claims, None);
            match route {
                Route::CreateSession => asked(state, route, header, events) == Some(
                    Action::CreateTenant(claims.sub),
                ),
                Route::ExtAuthz => is_refused(
                    answered(state, route, header, events),
                    401,
                    "No tenant provisioned"@,
                ),
                _ => is_refused(
                    answered(state, route, header, events),
                    404,
                    "No tenant found"@,
                ),
            }
        }),
{
    lookups_lead_on(state, route, header, claims, None);
}

/// A request for a tenant's status is answered at once, with the tenant's ID and stored status.
pub proof fn status_requests_are_answered(
    state: AppState<Seq<char>>,
    header: Option<Seq<u8>>,
    claims: Claims<Seq<char>>,
    tenant: Tenant<Seq<char>>,
)
    requires
        routes::credentials(header) is Ok,
    ensures
        answered(state, Route::TenantStatus, header, looked_up(claims, Some(tenant))) matches Some(
            Ok(Reply::Status(response)),
        ) && response.tenant_id == tenant.tenant_id && response.status == tenant.status,
{
    lookups_lead_on(state, Route::TenantStatus, header, claims, Some(tenant));
}

/// The Gateway is told to let a request through if and only if the tenant is ready, and then which
/// headers to put on it: the tenant's ID, the address of its engine, and the engine's token. The
/// tenant is noted as active.
pub proof fn ready_tenants_are_admitted(
    state: AppState<Seq<char>>,
    header: Option<Seq<u8>>,
    claims: Claims<Seq<char>>,
    tenant: Tenant<Seq<char>>,
)
    requires
        routes::credentials(header) is Ok,
    ensures
        ({
            let answer = answered(
                state,
                Route::ExtAuthz,
                header,
                looked_up(claims, Some(tenant)),
            );
            &&& tenant.status == TenantStatus::Ready ==> {
                &&& answer matches Some(Ok(Reply::Admission(admission)))
                &&& admission.tenant.name == "x-houston-tenant"@
                &&& admission.tenant.value == tenant.tenant_id
                &&& admission.backend.name == "x-houston-backend"@
                &&& admission.backend.value == address_in_cluster(tenant.tenant_id)
                &&& admission.authorization.name == "authorization"@
                &&& admission.authorization.value == "Bearer "@ + tenant.engine_token
                &&& admission.touch == tenant.tenant_id
            }
            &&& tenant.status != TenantStatus::Ready ==> is_refused(
                answer,
                503,
                "Tenant not ready"@,
            )
        }),
{
    lookups_lead_on(state, Route::ExtAuthz, header, claims, Some(tenant));
}

/// A tenant is suspended if and only if it is ready: its pod is deleted first, where tenants live in
/// Kubernetes, then it is stored as suspended, and only then is the request answered. What fails on
/// the way is told, and ends it.
pub proof fn ready_tenants_are_suspended(
    state: AppState<Seq<char>>,
    header: Option<Seq<u8>>,
    claims: Claims<Seq<char>>,
    tenant: Tenant<Seq<char>>,
    e: Seq<char>,
)
    requires
        routes::credentials(header) is Ok,
    ensures
        ({
            let route = Route::SuspendTenant;
            let begin = looked_up(claims, Some(tenant));
            let saving = if state.engine_image is Some {
                begin.push(fine())
            } else {
                begin
            };
            &&& tenant.status != TenantStatus::Ready ==> is_refused(
                answered(state, route, header, begin),
                409,
                "Tenant is not running"@,
            )
            &&& tenant.status == TenantStatus::Ready ==> {
                &&& state.engine_image is Some ==> asked(state, route, header, begin) == Some(
                    Action::Suspend(tenant.tenant_id),
                )
                &&& state.engine_image is Some ==> is_refused(
                    answered(state, route, header, begin.push(failed(e))),
                    500,
                    e,
                )
                &&& asked(state, route, header, saving) == Some(
                    Action::UpdateStatus(tenant.tenant_id, TenantStatus::Suspended),
                )
                &&& is_refused(answered(state, route, header, saving.push(failed(e))), 500, e)
                &&& answered(state, route, header, saving.push(fine())) matches Some(
                    Ok(Reply::NoContent),
                )
            }
        }),
{
    let route = Route::SuspendTenant;
    let begin = looked_up(claims, Some(tenant));
    lookups_lead_on(state, route, header, claims, Some(tenant));
    one_event_more(state, route, header, begin, fine());
    one_event_more(state, route, header, begin, failed(e));
    one_event_more(state, route, header, begin.push(fine()), fine());
    one_event_more(state, route, header, begin.push(fine()), failed(e));
}

/// A tenant of any status is deleted: what it has in the cluster first, where tenants live in
/// Kubernetes, then its row, and only then is the request answered. What fails on the way is told,
/// and ends it.
pub proof fn tenants_are_deleted(
    state: AppState<Seq<char>>,
    header: Option<Seq<u8>>,
    claims: Claims<Seq<char>>,
    tenant: Tenant<Seq<char>>,
    e: Seq<char>,
)
    requires
        routes::credentials(header) is Ok,
    ensures
        ({
            let route = Route::DeleteTenant;
            let begin = looked_up(claims, Some(tenant));
            let deleting = if state.engine_image is Some {
                begin.push(fine())
            } else {
                begin
            };
            &&& state.engine_image is Some ==> asked(state, route, header, begin) == Some(
                Action::Deprovision(tenant.tenant_id),
            )
            &&& state.engine_image is Some ==> is_refused(
                answered(state, route, header, begin.push(failed(e))),
                500,
                "K8s deprovision failed: "@ + e,
            )
            &&& asked(state, route, header, deleting) == Some(
                Action::DeleteTenant(tenant.tenant_id),
            )
            &&& is_refused(answered(state, route, header, deleting.push(failed(e))), 500, e)
            &&& answered(state, route, header, deleting.push(fine())) matches Some(
                Ok(Reply::NoContent),
            )
        }),
{
    let route = Route::DeleteTenant;
    let begin = looked_up(claims, Some(tenant));
    lookups_lead_on(state, route, header, claims, Some(tenant));
    one_event_more(state, route, header, begin, fine());
    one_event_more(state, route, header, begin, failed(e));
    one_event_more(state, route, header, begin.push(fine()), fine());
    one_event_more(state, route, header, begin.push(fine()), failed(e));
}

/// A user who has a tenant and asks for a session has the tenant noted as active first.
pub proof fn sessions_note_activity(
    state: AppState<Seq<char>>,
    header: Option<Seq<u8>>,
    claims: Claims<Seq<char>>,
    tenant: Tenant<Seq<char>>,
    e: Seq<char>,
)
    requires
        routes::credentials(header) is Ok,
    ensures
        ({
            let route = Route::CreateSession;
            let begin = looked_up(claims, Some(tenant));
            &&& asked(state, route, header, begin) == Some(Action::Touch(tenant.tenant_id))
            &&& is_refused(answered(state, route, header, begin.push(failed(e))), 500, e)
        }),
{
    let route = Route::CreateSession;
    let begin = looked_up(claims, Some(tenant));
    lookups_lead_on(state, route, header, claims, Some(tenant));
    one_event_more(state, route, header, begin, failed(e));
}

/// The events up to where a tenant that the user has was noted as active.
pub open spec fn touched(claims: Claims<Seq<char>>, tenant: Tenant<Seq<char>>) -> Seq<
    Event<Seq<char>>,
> {
    looked_up(claims, Some(tenant)).push(fine())
}

/// Where a session stands once its tenant was noted as active.
proof fn touches_lead_on(
    state: AppState<Seq<char>>,
    header: Option<Seq<u8>>,
    claims: Claims<Seq<char>>,
    tenant: Tenant<Seq<char>>,
)
    requires
        routes::credentials(header) is Ok,
    ensures
        state.serve(
            routes::begins(Route::CreateSession, header),
            touched(claims, tenant),
        ) == routes::within(
            state.session_after(
                (crate::session::SessionFlow::Touching { tenant }),
                fine(),
            ),
        ),
{
    lookups_lead_on(state, Route::CreateSession, header, claims, Some(tenant));
    one_event_more(state, Route::CreateSession, header, looked_up(claims, Some(tenant)), fine());
}

/// A tenant that is stored as neither suspended, provisioning nor failed is answered as it is stored.
pub proof fn settled_tenants_are_answered_as_stored(
    state: AppState<Seq<char>>,
    header: Option<Seq<u8>>,
    claims: Claims<Seq<char>>,
    tenant: Tenant<Seq<char>>,
)
    requires
        routes::credentials(header) is Ok,
        tenant.status != TenantStatus::Suspended,
        !is_unsettled(tenant.status),
    ensures
        is_session_on(
            state,
            answered(state, Route::CreateSession, header, touched(claims, tenant)),
            tenant,
            tenant.status,
        ),
{
    touches_lead_on(state, header, claims, tenant);
}

/// A suspended tenant is woken, where tenants live in Kubernetes: the pod is created again from the
/// tenant and the settings, the tenant is stored as provisioning, and it is answered as that. What
/// fails on the way is told, and ends it. Elsewhere it cannot be woken.
pub proof fn suspended_tenants_are_woken(
    state: AppState<Seq<char>>,
    header: Option<Seq<u8>>,
    claims: Claims<Seq<char>>,
    tenant: Tenant<Seq<char>>,
    e: Seq<char>,
)
    requires
        routes::credentials(header) is Ok,
        tenant.status == TenantStatus::Suspended,
    ensures
        ({
            let route = Route::CreateSession;
            let begin = touched(claims, tenant);
            let saving = begin.push(fine());
            &&& state.engine_image is None ==> is_refused(
                answered(state, route, header, begin),
                500,
                "K8s not configured"@,
            )
            &&& state.engine_image is Some ==> {
                &&& asked(state, route, header, begin) matches Some(Action::Wake(spec))
                &&& is_made_for(state, tenant, spec)
                &&& is_refused(
                    answered(state, route, header, begin.push(failed(e))),
                    500,
                    "Wake failed: "@ + e,
                )
                &&& asked(state, route, header, saving) == Some(
                    Action::UpdateStatus(tenant.tenant_id, TenantStatus::Provisioning),
                )
                &&& is_refused(answered(state, route, header, saving.push(failed(e))), 500, e)
                &&& is_session_on(
                    state,
                    answered(state, route, header, saving.push(fine())),
                    tenant,
                    TenantStatus::Provisioning,
                )
            }
        }),
{
    let route = Route::CreateSession;
    let begin = touched(claims, tenant);
    touches_lead_on(state, header, claims, tenant);
    one_event_more(state, route, header, begin, fine());
    one_event_more(state, route, header, begin, failed(e));
    one_event_more(state, route, header, begin.push(fine()), fine());
    one_event_more(state, route, header, begin.push(fine()), failed(e));
}

/// The engine of a tenant that is stored as provisioning or failed is probed, inside the cluster and
/// with the token that it goes by. Where it is healthy the tenant is stored as ready and answered as
/// that.
pub proof fn unsettled_tenants_are_probed(
    state: AppState<Seq<char>>,
    header: Option<Seq<u8>>,
    claims: Claims<Seq<char>>,
    tenant: Tenant<Seq<char>>,
    health: Option<u16>,
    e: Seq<char>,
)
    requires
        routes::credentials(header) is Ok,
        is_unsettled(tenant.status),
    ensures
        ({
            let route = Route::CreateSession;
            let begin = touched(claims, tenant);
            let probed = begin.push(Event::Probed(health));
            &&& asked(state, route, header, begin) matches Some(Action::CheckHealth(probe))
            &&& is_probe_of(
                probe,
                address_in_cluster(tenant.tenant_id),
                token_for(state, tenant),
            )
            &&& says_healthy(health) ==> {
                &&& asked(state, route, header, probed) == Some(
                    Action::UpdateStatus(tenant.tenant_id, TenantStatus::Ready),
                )
                &&& is_refused(answered(state, route, header, probed.push(failed(e))), 500, e)
                &&& is_session_on(
                    state,
                    answered(state, route, header, probed.push(fine())),
                    tenant,
                    TenantStatus::Ready,
                )
            }
        }),
{
    let route = Route::CreateSession;
    let begin = touched(claims, tenant);
    let probed = begin.push(Event::Probed(health));
    touches_lead_on(state, header, claims, tenant);
    one_event_more(state, route, header, begin, Event::Probed(health));
    one_event_more(state, route, header, probed, fine());
    one_event_more(state, route, header, probed, failed(e));
}

/// Where the engine of a tenant that is stored as provisioning or failed is not healthy, the tenant
/// is answered as provisioning where tenants do not live in Kubernetes. Where they do, its pod is
/// looked for first: only where it is there is the tenant answered so at once.
pub proof fn pods_of_unhealthy_tenants_are_looked_for(
    state: AppState<Seq<char>>,
    header: Option<Seq<u8>>,
    claims: Claims<Seq<char>>,
    tenant: Tenant<Seq<char>>,
    health: Option<u16>,
    e: Seq<char>,
)
    requires
        routes::credentials(header) is Ok,
        is_unsettled(tenant.status),
        !says_healthy(health),
    ensures
        ({
            let route = Route::CreateSession;
            let probed = touched(claims, tenant).push(Event::Probed(health));
            &&& state.engine_image is None ==> is_session_on(
                state,
                answered(state, route, header, probed),
                tenant,
                TenantStatus::Provisioning,
            )
            &&& state.engine_image is Some ==> {
                &&& asked(state, route, header, probed) == Some(
                    Action::PodExists(tenant.tenant_id),
                )
                &&& is_refused(
                    answered(state, route, header, probed.push(Event::Exists(Err(e)))),
                    500,
                    "K8s unreachable: "@ + e,
                )
                &&& is_session_on(
                    state,
                    answered(state, route, header, probed.push(Event::Exists(Ok(true)))),
                    tenant,
                    TenantStatus::Provisioning,
                )
            }
        }),
{
    let route = Route::CreateSession;
    let begin = touched(claims, tenant);
    let probed = begin.push(Event::Probed(health));
    touches_lead_on(state, header, claims, tenant);
    one_event_more(state, route, header, begin, Event::Probed(health));
    one_event_more(state, route, header, probed, Event::Exists(Err(e)));
    one_event_more(state, route, header, probed, Event::Exists(Ok(true)));
}

/// Where the pod of such a tenant is missing, the tenant is provisioned again, from the tenant and
/// the settings, stored as provisioning, and answered as that. Where provisioning fails the tenant is
/// stored as failed, and the reason is told.
pub proof fn tenants_without_pod_are_provisioned_again(
    state: AppState<Seq<char>>,
    header: Option<Seq<u8>>,
    claims: Claims<Seq<char>>,
    tenant: Tenant<Seq<char>>,
    health: Option<u16>,
    reason: Seq<char>,
    e: Seq<char>,
)
    requires
        routes::credentials(header) is Ok,
        is_unsettled(tenant.status),
        !says_healthy(health),
        state.engine_image is Some,
    ensures
        ({
            let route = Route::CreateSession;
            let missing = touched(claims, tenant).push(Event::Probed(health)).push(
                Event::Exists(Ok(false)),
            );
            let saving = missing.push(fine());
            let broken = missing.push(failed(reason));
            &&& asked(state, route, header, missing) matches Some(Action::Provision(spec))
            &&& is_made_for(state, tenant, spec)
            &&& asked(state, route, header, saving) == Some(
                Action::UpdateStatus(tenant.tenant_id, TenantStatus::Provisioning),
            )
            &&& is_refused(answered(state, route, header, saving.push(failed(e))), 500, e)
            &&& is_session_on(
                state,
                answered(state, route, header, saving.push(fine())),
                tenant,
                TenantStatus::Provisioning,
            )
            &&& asked(state, route, header, broken) == Some(
                Action::UpdateStatus(tenant.tenant_id, TenantStatus::Error),
            )
            &&& is_refused(answered(state, route, header, broken.push(failed(e))), 500, e)
            &&& is_refused(answered(state, route, header, broken.push(fine())), 500, reason)
        }),
{
    let route = Route::CreateSession;
    let begin = touched(claims, tenant);
    let probed = begin.push(Event::Probed(health));
    let missing = probed.push(Event::Exists(Ok(false)));
    touches_lead_on(state, header, claims, tenant);
    one_event_more(state, route, header, begin, Event::Probed(health));
    one_event_more(state, route, header, probed, Event::Exists(Ok(false)));
    one_event_more(state, route, header, missing, fine());
    one_event_more(state, route, header, missing, failed(reason));
    one_event_more(state, route, header, missing.push(fine()), fine());
    one_event_more(state, route, header, missing.push(fine()), failed(e));
    one_event_more(state, route, header, missing.push(failed(reason)), fine());
    one_event_more(state, route, header, missing.push(failed(reason)), failed(e));
}

/// The events up to where a tenant was created for a user who had none.
pub open spec fn created(claims: Claims<Seq<char>>, tenant: Tenant<Seq<char>>) -> Seq<
    Event<Seq<char>>,
> {
    looked_up(claims, None).push(Event::Created(Ok(tenant)))
}

/// A new tenant is provisioned, where tenants live in Kubernetes, from the tenant and the settings.
/// Where that fails the tenant is stored as failed, and the reason is told. Where no tenant could be
/// created that is told.
pub proof fn new_tenants_are_provisioned(
    state: AppState<Seq<char>>,
    header: Option<Seq<u8>>,
    claims: Claims<Seq<char>>,
    tenant: Tenant<Seq<char>>,
    reason: Seq<char>,
    e: Seq<char>,
)
    requires
        routes::credentials(header) is Ok,
    ensures
        ({
            let route = Route::CreateSession;
            let begin = created(claims, tenant);
            let broken = begin.push(failed(reason));
            &&& is_refused(
                answered(
                    state,
                    route,
                    header,
                    looked_up(claims, None).push(Event::Created(Err(e))),
                ),
                500,
                e,
            )
            &&& state.engine_image is Some ==> {
                &&& asked(state, route, header, begin) matches Some(Action::Provision(spec))
                &&& is_made_for(state, tenant, spec)
                &&& asked(state, route, header, broken) == Some(
                    Action::UpdateStatus(tenant.tenant_id, TenantStatus::Error),
                )
                &&& is_refused(answered(state, route, header, broken.push(failed(e))), 500, e)
                &&& is_refused(answered(state, route, header, broken.push(fine())), 500, reason)
            }
        }),
{
    let route = Route::CreateSession;
    let begin = created(claims, tenant);
    lookups_lead_on(state, route, header, claims, None);
    one_event_more(state, route, header, looked_up(claims, None), Event::Created(Err(e)));
    one_event_more(state, route, header, looked_up(claims, None), Event::Created(Ok(tenant)));
    one_event_more(state, route, header, begin, failed(reason));
    one_event_more(state, route, header, begin.push(failed(reason)), fine());
    one_event_more(state, route, header, begin.push(failed(reason)), failed(e));
}

/// The engine of a new tenant is probed: inside the cluster and with its own token, once it is
/// provisioned, or else at the template's URL and with the token that it goes by. Where it is healthy
/// the tenant is stored as ready and answered as that; else it is answered as provisioning.
pub proof fn new_tenants_are_probed(
    state: AppState<Seq<char>>,
    header: Option<Seq<u8>>,
    claims: Claims<Seq<char>>,
    tenant: Tenant<Seq<char>>,
    health: Option<u16>,
    e: Seq<char>,
)
    requires
        routes::credentials(header) is Ok,
    ensures
        ({
            let route = Route::CreateSession;
            let begin = if state.engine_image is Some {
                created(claims, tenant).push(fine())
            } else {
                created(claims, tenant)
            };
            let probed = begin.push(Event::Probed(health));
            &&& asked(state, route, header, begin) matches Some(Action::CheckHealth(probe))
            &&& state.engine_image is Some ==> is_probe_of(
                probe,
                address_in_cluster(tenant.tenant_id),
                tenant.engine_token,
            )
            &&& state.engine_image is None ==> is_probe_of(
                probe,
                text::replaced(state.engine_url_template, "{tenant_id}"@, tenant.tenant_id),
                token_for(state, tenant),
            )
            &&& !says_healthy(health) ==> is_session_on(
                state,
                answered(state, route, header, probed),
                tenant,
                TenantStatus::Provisioning,
            )
            &&& says_healthy(health) ==> {
                &&& asked(state, route, header, probed) == Some(
                    Action::UpdateStatus(tenant.tenant_id, TenantStatus::Ready),
                )
                &&& is_refused(answered(state, route, header, probed.push(failed(e))), 500, e)
                &&& is_session_on(
                    state,
                    answered(state, route, header, probed.push(fine())),
                    tenant,
                    TenantStatus::Ready,
                )
            }
        }),
{
    let route = Route::CreateSession;
    let made = created(claims, tenant);
    let begin = if state.engine_image is Some {
        made.push(fine())
    } else {
        made
    };
    let probed = begin.push(Event::Probed(health));
    lookups_lead_on(state, route, header, claims, None);
    one_event_more(state, route, header, looked_up(claims, None), Event::Created(Ok(tenant)));
    one_event_more(state, route, header, made, fine());
    one_event_more(state, route, header, begin, Event::Probed(health));
    one_event_more(state, route, header, probed, fine());
    one_event_more(state, route, header, probed, failed(e));
}

/// What a session brings to Kubernetes reflects the settings: it is asked for only where an image is
/// set, and its pod names the sandboxed runtime if and only if sandboxing is on.
pub proof fn pods_are_sandboxed_as_configured(
    state: AppState<Seq<char>>,
    tenant: Tenant<Seq<char>>,
)
    ensures
        state.spec_of(tenant) is Some <==> state.engine_image is Some,
        state.spec_of(tenant) matches Some(spec) ==> {
            let run = crate::k8s::manifests::pod_json(spec).at("spec"@);
            &&& is_made_for(state, tenant, spec)
            &&& run.has("runtimeClassName"@) <==> state.gvisor
            &&& state.gvisor ==> run.at("runtimeClassName"@) == JsonView::Text("gvisor"@)
        },
{
    if let Some(spec) = state.spec_of(tenant) {
        crate::k8s::laws::sandboxing_is_as_configured(spec);
    }
}

/// Whether an action was asked for at some point, and then performed.
pub open spec fn performed(
    state: AppState<Seq<char>>,
    route: Route,
    header: Option<Seq<u8>>,
    events: Seq<Event<Seq<char>>>,
    action: Action<Seq<char>>,
) -> bool {
    exists|i: int|
        0 <= i < events.len() && (#[trigger] events[i] matches Event::Performed(Ok(_))) && asked(
            state,
            route,
            header,
            events.take(i),
        ) == Some(action)
}

/// Whether the user's tenant was looked up and found.
pub open spec fn was_found(
    state: AppState<Seq<char>>,
    route: Route,
    header: Option<Seq<u8>>,
    events: Seq<Event<Seq<char>>>,
    tenant: Tenant<Seq<char>>,
) -> bool {
    exists|i: int|
        0 <= i < events.len() && #[trigger] events[i] == Event::Found(Ok(Some(tenant))) && asked(
            state,
            route,
            header,
            events.take(i),
        ) is Some
}

/// What was performed and found stays so.
proof fn more_events_keep_what_was_done(
    state: AppState<Seq<char>>,
    route: Route,
    header: Option<Seq<u8>>,
    events: Seq<Event<Seq<char>>>,
)
    requires
        events.len() > 0,
    ensures
        forall|action: Action<Seq<char>>| #[trigger]
            performed(state, route, header, events.drop_last(), action) ==> performed(
                state,
                route,
                header,
                events,
                action,
            ),
        forall|tenant: Tenant<Seq<char>>| #[trigger]
            was_found(state, route, header, events.drop_last(), tenant) ==> was_found(
                state,
                route,
                header,
                events,
                tenant,
            ),
{
    let before = events.drop_last();
    assert forall|action: Action<Seq<char>>| #[trigger]
        performed(state, route, header, before, action) implies performed(
        state,
        route,
        header,
        events,
        action,
    ) by {
        let i = choose|i: int|
            0 <= i < before.len() && (#[trigger] before[i] matches Event::Performed(Ok(_)))
                && asked(state, route, header, before.take(i)) == Some(action);
        assert(events.take(i) == before.take(i));
        assert(events[i] is Performed);
    }
    assert forall|tenant: Tenant<Seq<char>>| #[trigger]
        was_found(state, route, header, before, tenant) implies was_found(
        state,
        route,
        header,
        events,
        tenant,
    ) by {
        let i = choose|i: int|
            0 <= i < before.len() && #[trigger] before[i] == Event::Found(Ok(Some(tenant)))
                && asked(state, route, header, before.take(i)) is Some;
        assert(events.take(i) == before.take(i));
        assert(events[i] is Found);
    }
}

/// What was done on the way to where a request to suspend or to delete stands.
pub open spec fn way_there(
    state: AppState<Seq<char>>,
    route: Route,
    header: Option<Seq<u8>>,
    events: Seq<Event<Seq<char>>>,
) -> bool {
    match state.serve(routes::begins(route, header), events) {
        RouteStep::Await(RouteFlow::Suspending { tenant_id }) => exists|tenant: Tenant<Seq<char>>|
            #[trigger] was_found(state, route, header, events, tenant) && tenant.tenant_id
                == tenant_id,
        RouteStep::Await(RouteFlow::Deprovisioning { tenant_id }) => exists|
            tenant: Tenant<Seq<char>>,
        | #[trigger]
            was_found(state, route, header, events, tenant) && tenant.tenant_id == tenant_id,
        RouteStep::Await(RouteFlow::SuspendSaving { tenant_id }) => exists|
            tenant: Tenant<Seq<char>>,
        | #[trigger]
            was_found(state, route, header, events, tenant) && tenant.tenant_id == tenant_id && (
            state.engine_image is Some ==> performed(
                state,
                route,
                header,
                events,
                Action::Suspend(tenant_id),
            )),
        RouteStep::Await(RouteFlow::Deleting { tenant_id }) => exists|tenant: Tenant<Seq<char>>|
            #[trigger] was_found(state, route, header, events, tenant) && tenant.tenant_id
                == tenant_id && (state.engine_image is Some ==> performed(
                state,
                route,
                header,
                events,
                Action::Deprovision(tenant_id),
            )),
        RouteStep::Done(Ok(Reply::NoContent)) => exists|tenant: Tenant<Seq<char>>| #[trigger]
            was_found(state, route, header, events, tenant) && is_done_for(
                state,
                route,
                header,
                events,
                tenant.tenant_id,
            ),
        _ => true,
    }
}

/// Whether all was performed for a tenant that a request to suspend or to delete it is for.
pub open spec fn is_done_for(
    state: AppState<Seq<char>>,
    route: Route,
    header: Option<Seq<u8>>,
    events: Seq<Event<Seq<char>>>,
    tenant_id: Seq<char>,
) -> bool {
    if route == Route::DeleteTenant {
        &&& performed(state, route, header, events, Action::DeleteTenant(tenant_id))
        &&& state.engine_image is Some ==> performed(
            state,
            route,
            header,
            events,
            Action::Deprovision(tenant_id),
        )
    } else {
        &&& route == Route::SuspendTenant
        &&& performed(
            state,
            route,
            header,
            events,
            Action::UpdateStatus(tenant_id, TenantStatus::Suspended),
        )
        &&& state.engine_image is Some ==> performed(
            state,
            route,
            header,
            events,
            Action::Suspend(tenant_id),
        )
    }
}

/// A request is answered without content only where it is one to suspend or to delete, the user's
/// tenant was found, and all was performed for that tenant: it was deleted from the store, or stored
/// as suspended, and before that, where tenants live in Kubernetes, what it has in the cluster, or
/// its pod, was deleted.
pub proof fn no_content_means_done(
    state: AppState<Seq<char>>,
    route: Route,
    header: Option<Seq<u8>>,
    events: Seq<Event<Seq<char>>>,
)
    ensures
        answered(state, route, header, events) matches Some(Ok(Reply::NoContent)) ==> exists|
            tenant: Tenant<Seq<char>>,
        | #[trigger]
            was_found(state, route, header, events, tenant) && is_done_for(
                state,
                route,
                header,
                events,
                tenant.tenant_id,
            ),
{
    requests_take_the_way(state, route, header, events);
}

/// Every request takes the way to where it stands.
proof fn requests_take_the_way(
    state: AppState<Seq<char>>,
    route: Route,
    header: Option<Seq<u8>>,
    events: Seq<Event<Seq<char>>>,
)
    ensures
        way_there(state, route, header, events),
    decreases events.len(),
{
    if events.len() > 0 {
        let before = events.drop_last();
        let n = events.len() - 1;
        requests_take_the_way(state, route, header, before);
        more_events_keep_what_was_done(state, route, header, events);
        crate::laws::requests_stay_on_their_route(state, route, header, before);
        assert(events.take(n) == before);
        assert(events[n] == events.last());
        match state.serve(routes::begins(route, header), before) {
            RouteStep::Await(flow) => {
                assert(asked(state, route, header, events.take(n)) == Some(flow.asks()));
                match (flow, events.last()) {
                    (RouteFlow::Finding { .. }, Event::Found(Ok(Some(tenant)))) => {
                        assert(was_found(state, route, header, events, tenant));
                    },
                    (RouteFlow::Suspending { tenant_id }, _) => {
                        let tenant = choose|tenant: Tenant<Seq<char>>| #[trigger]
                            was_found(state, route, header, before, tenant) && tenant.tenant_id
                                == tenant_id;
                        assert(was_found(state, route, header, events, tenant));
                        if events.last() matches Event::Performed(Ok(_)) {
                            assert(performed(
                                state,
                                route,
                                header,
                                events,
                                Action::Suspend(tenant_id),
                            ));
                        }
                    },
                    (RouteFlow::Deprovisioning { tenant_id }, _) => {
                        let tenant = choose|tenant: Tenant<Seq<char>>| #[trigger]
                            was_found(state, route, header, before, tenant) && tenant.tenant_id
                                == tenant_id;
                        assert(was_found(state, route, header, events, tenant));
                        if events.last() matches Event::Performed(Ok(_)) {
                            assert(performed(
                                state,
                                route,
                                header,
                                events,
                                Action::Deprovision(tenant_id),
                            ));
                        }
                    },
                    (RouteFlow::SuspendSaving { tenant_id }, _) => {
                        let tenant = choose|tenant: Tenant<Seq<char>>| #[trigger]
                            was_found(state, route, header, before, tenant) && tenant.tenant_id
                                == tenant_id && (state.engine_image is Some ==> performed(
                                state,
                                route,
                                header,
                                before,
                                Action::Suspend(tenant_id),
                            ));
                        assert(was_found(state, route, header, events, tenant));
                        if events.last() matches Event::Performed(Ok(_)) {
                            assert(performed(
                                state,
                                route,
                                header,
                                events,
                                Action::UpdateStatus(tenant_id, TenantStatus::Suspended),
                            ));
                        }
                    },
                    (RouteFlow::Deleting { tenant_id }, _) => {
                        let tenant = choose|tenant: Tenant<Seq<char>>| #[trigger]
                            was_found(state, route, header, before, tenant) && tenant.tenant_id
                                == tenant_id && (state.engine_image is Some ==> performed(
                                state,
                                route,
                                header,
                                before,
                                Action::Deprovision(tenant_id),
                            ));
                        assert(was_found(state, route, header, events, tenant));
                        if events.last() matches Event::Performed(Ok(_)) {
                            assert(performed(
                                state,
                                route,
                                header,
                                events,
                                Action::DeleteTenant(tenant_id),
                            ));
                        }
                    },
                    _ => {},
                }
            },
            RouteStep::Done(Ok(Reply::NoContent)) => {
                let tenant = choose|tenant: Tenant<Seq<char>>| #[trigger]
                    was_found(state, route, header, before, tenant) && is_done_for(
                        state,
                        route,
                        header,
                        before,
                        tenant.tenant_id,
                    );
                assert(was_found(state, route, header, events, tenant));
            },
            _ => {},
        }
    }
}

/// A session's response as JSON has the engine's URL, the tenant's ID and its status, the token where
/// there is one, and nothing else.
pub proof fn session_responses_as_json(response: routes::SessionResponse<Seq<char>>)
    ensures
        ({
            let json = response.json();
            &&& json is Object
            &&& forall|key: Seq<char>| #[trigger]
                json.has(key) <==> key == "engine_url"@ || key == "tenant_id"@ || key == "status"@
                    || (key == "engine_token"@ && response.engine_token is Some)
            &&& json.at("engine_url"@) == JsonView::Text(response.engine_url)
            &&& json.at("tenant_id"@) == JsonView::Text(response.tenant_id)
            &&& json.at("status"@) == JsonView::Text(response.status.name())
            &&& response.engine_token matches Some(token) ==> json.at("engine_token"@)
                == JsonView::Text(token)
        }),
{
    response_keys_differ();
}

/// The other responses as JSON: a status has the tenant's ID and status, an error its message, and
/// neither has anything else.
pub proof fn other_responses_as_json(
    status: routes::StatusResponse<Seq<char>>,
    error: routes::ErrorResponse<Seq<char>>,
)
    ensures
        status.json() is Object,
        forall|key: Seq<char>| #[trigger]
            status.json().has(key) <==> key == "tenant_id"@ || key == "status"@,
        status.json().at("tenant_id"@) == JsonView::Text(status.tenant_id),
        status.json().at("status"@) == JsonView::Text(status.status.name()),
        error.json() is Object,
        forall|key: Seq<char>| #[trigger] error.json().has(key) <==> key == "error"@,
        error.json().at("error"@) == JsonView::Text(error.error),
{
    response_keys_differ();
}

/// The keys of the responses differ in length.
proof fn response_keys_differ()
    ensures
        "engine_token"@.len() == 12,
        "engine_url"@.len() == 10,
        "tenant_id"@.len() == 9,
        "status"@.len() == 6,
{
    reveal_strlit("engine_token");
    reveal_strlit("engine_url");
    reveal_strlit("tenant_id");
    reveal_strlit("status");
}

/// What a session provisions or wakes is made from the settings and the tenant, field by field, and
/// there is such a specification if and only if an image is set.
pub proof fn specifications_reflect_the_settings(
    state: AppState,
    tenant: Tenant,
    made: Option<TenantSpec>,
)
    requires
        call_ensures(AppState::k8s_spec, (&state, &tenant), made),
    ensures
        made is Some <==> state.engine_image is Some,
        made matches Some(spec) ==> {
            &&& spec.tenant_id@ == tenant.tenant_id@
            &&& spec.engine_token@ == tenant.engine_token@
            &&& spec.engine_image@ == state.engine_image->0@
            &&& text::opt(spec.gateway_domain) == text::opt(state.gateway_domain)
            &&& spec.gvisor == state.gvisor
            &&& spec.storage_class@ == state.storage_class@
        },
{
}

/// Claims that name a user and the role of signed-in users are handed back as they are, and no others
/// are.
pub proof fn claims_of_signed_in_users_are_handed_back(
    claims: Claims,
    outcome: Result<Claims, String>,
)
    requires
        call_ensures(crate::auth::validate_authenticated_claims, (claims,), outcome),
    ensures
        outcome is Ok <==> claims.sub@.len() > 0 && claims.role@ == "authenticated"@,
        outcome matches Ok(same) ==> same@ == claims@,
        claims.sub@.len() == 0 ==> (outcome matches Err(e) && e@ == "JWT missing sub claim"@),
        claims.sub@.len() > 0 && claims.role@ != "authenticated"@ ==> (outcome matches Err(e) && e@
            == "JWT role is not authenticated"@),
{
}

/// Each route begins with the verification of the token that its Authorization header brings.
pub proof fn routes_begin_with_the_token(header: &[u8], token: Seq<char>, step: RouteStep)
    requires
        header::text_of(header@) == Some("Bearer "@ + token) || header::text_of(header@) == Some(
            "bearer "@ + token,
        ),
        call_ensures(routes::create_session, (Some(header),), step) || call_ensures(
            routes::tenant_status,
            (Some(header),),
            step,
        ) || call_ensures(routes::suspend_tenant, (Some(header),), step) || call_ensures(
            routes::delete_tenant,
            (Some(header),),
            step,
        ) || call_ensures(routes::ext_authz, (Some(header),), step),
    ensures
        step@ matches RouteStep::Await(flow) && flow.asks() == Action::Verify(token),
{
    crate::auth::laws::bearer_tokens_are_found(token);
}

/// Each route is served as itself.
pub proof fn routes_are_served_as_themselves(header: Option<&[u8]>, step: RouteStep)
    ensures
        call_ensures(routes::create_session, (header,), step) ==> step@ == routes::begins(
            Route::CreateSession,
            routes::raw(header),
        ),
        call_ensures(routes::tenant_status, (header,), step) ==> step@ == routes::begins(
            Route::TenantStatus,
            routes::raw(header),
        ),
        call_ensures(routes::suspend_tenant, (header,), step) ==> step@ == routes::begins(
            Route::SuspendTenant,
            routes::raw(header),
        ),
        call_ensures(routes::delete_tenant, (header,), step) ==> step@ == routes::begins(
            Route::DeleteTenant,
            routes::raw(header),
        ),
        call_ensures(routes::ext_authz, (header,), step) ==> step@ == routes::begins(
            Route::ExtAuthz,
            routes::raw(header),
        ),
{
}

/// An answer has the status 204 where it has no content, and 200 otherwise.
pub proof fn answers_have_their_status(reply: Reply, status: u16)
    requires
        call_ensures(Reply::<String>::status, (&reply,), status),
    ensures
        reply is NoContent ==> status == 204,
        !(reply is NoContent) ==> status == 200,
{
}

} // verus!
