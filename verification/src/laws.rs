//! What holds of every request, whatever the world around it replies.
use crate::effects;
use crate::effects::{Action, Event, HealthProbe};
use crate::json::JsonView;
use crate::k8s;
use crate::routes;
use crate::routes::{
    Admission, AppState, Refusal, Reply, Route, RouteFlow, RouteStep,
};
use crate::session::{SessionFlow, SessionStep};
use crate::tenant::{Tenant, TenantStatus};
use vstd::prelude::*;

verus! {

impl AppState<Seq<char>> {
    /// Where a request has got to after some events. It stays where it is done.
    pub open spec fn serve(
        self,
        begin: RouteStep<Seq<char>>,
        events: Seq<Event<Seq<char>>>,
    ) -> RouteStep<Seq<char>>
        decreases events.len(),
    {
        if events.len() == 0 {
            begin
        } else {
            match self.serve(begin, events.drop_last()) {
                RouteStep::Await(flow) => self.route_after(flow, events.last()),
                done => done,
            }
        }
    }
}

/// Whether the JWT of a user was verified.
pub open spec fn verified(events: Seq<Event<Seq<char>>>, user_id: Seq<char>) -> bool {
    exists|i: int|
        0 <= i < events.len() && (#[trigger] events[i] matches Event::Verified(Ok(claims))
            && claims.sub == user_id)
}

/// Whether the JWT of some user was verified.
pub open spec fn authenticated(events: Seq<Event<Seq<char>>>) -> bool {
    exists|i: int|
        0 <= i < events.len() && (#[trigger] events[i] matches Event::Verified(Ok(_)))
}

/// Whether a tenant was found.
pub open spec fn found(events: Seq<Event<Seq<char>>>, tenant: Tenant<Seq<char>>) -> bool {
    exists|i: int| 0 <= i < events.len() && #[trigger] events[i] == Event::Found(Ok(Some(tenant)))
}

/// Whether the user turned out to have no tenant.
pub open spec fn none_found(events: Seq<Event<Seq<char>>>) -> bool {
    exists|i: int|
        0 <= i < events.len() && #[trigger] events[i] == Event::<Seq<char>>::Found(Ok(None))
}

/// Whether an engine answered that it is healthy.
pub open spec fn seen_healthy(events: Seq<Event<Seq<char>>>) -> bool {
    exists|i: int|
        0 <= i < events.len() && (#[trigger] events[i] matches Event::Probed(status)
            && effects::healthy(status))
}

/// The error that an event brings, in words, if it brings one.
pub open spec fn words_of(event: Event<Seq<char>>) -> Option<Seq<char>> {
    match event {
        Event::Verified(Err(e)) => Some(e),
        Event::Found(Err(e)) => Some(e),
        Event::Created(Err(e)) => Some(e),
        Event::Exists(Err(e)) => Some(e),
        Event::Performed(Err(e)) => Some(e),
        _ => None,
    }
}

/// Whether an error was heard of, in these words.
pub open spec fn heard(events: Seq<Event<Seq<char>>>, words: Seq<char>) -> bool {
    exists|i: int| 0 <= i < events.len() && words_of(#[trigger] events[i]) == Some(words)
}

/// Whether a message is one of the fixed ones.
pub open spec fn is_fixed(message: Seq<char>) -> bool {
    ||| message == "Missing Authorization header"@
    ||| message == "Invalid Authorization header"@
    ||| message == "Unauthorized"@
    ||| message == "No tenant found"@
    ||| message == "No tenant provisioned"@
    ||| message == "Tenant is not running"@
    ||| message == "Tenant not ready"@
    ||| message == "K8s not configured"@
}

/// Whether a message is made of the words of an error, behind a fixed text or none.
pub open spec fn tells(words: Seq<char>, message: Seq<char>) -> bool {
    ||| message == words
    ||| message == "Wake failed: "@ + words
    ||| message == "K8s unreachable: "@ + words
    ||| message == "K8s deprovision failed: "@ + words
}

/// Whether a message is a fixed one, or tells of an error that was heard of.
pub open spec fn is_explained(events: Seq<Event<Seq<char>>>, message: Seq<char>) -> bool {
    ||| is_fixed(message)
    ||| exists|words: Seq<char>| #[trigger] heard(events, words) && tells(words, message)
}

/// Whether a tenant with an ID and a status was found.
pub open spec fn found_as(
    events: Seq<Event<Seq<char>>>,
    tenant_id: Seq<char>,
    status: TenantStatus,
) -> bool {
    exists|tenant: Tenant<Seq<char>>| #[trigger]
        found(events, tenant) && tenant.tenant_id == tenant_id && tenant.status == status
}

/// What the events say about how a session got where it is.
pub open spec fn session_history(
    events: Seq<Event<Seq<char>>>,
    flow: SessionFlow<Seq<char>>,
) -> bool {
    match flow {
        SessionFlow::Creating { user_id } => verified(events, user_id) && none_found(events),
        SessionFlow::Touching { tenant } => found(events, tenant),
        SessionFlow::ReadySaving { .. } => seen_healthy(events),
        SessionFlow::FailureSaving { reason, .. } => heard(events, reason),
        _ => true,
    }
}

/// What the events say about how a request got where it is.
pub open spec fn history(events: Seq<Event<Seq<char>>>, step: RouteStep<Seq<char>>) -> bool {
    match step {
        RouteStep::Await(RouteFlow::Verifying { .. }) => true,
        RouteStep::Await(RouteFlow::Finding { user_id, .. }) => {
            &&& authenticated(events)
            &&& verified(events, user_id)
        },
        RouteStep::Await(RouteFlow::Session(flow)) => {
            &&& authenticated(events)
            &&& session_history(events, flow)
        },
        RouteStep::Await(RouteFlow::Suspending { tenant_id }) => {
            &&& authenticated(events)
            &&& found_as(events, tenant_id, TenantStatus::Ready)
        },
        RouteStep::Await(RouteFlow::SuspendSaving { tenant_id }) => {
            &&& authenticated(events)
            &&& found_as(events, tenant_id, TenantStatus::Ready)
        },
        RouteStep::Await(_) => authenticated(events),
        RouteStep::Done(Ok(reply)) => {
            &&& authenticated(events)
            &&& reply_history(events, reply)
        },
        RouteStep::Done(Err(refusal)) => is_explained(events, refusal.body.error),
    }
}

/// What the events say about how a request came to its reply.
pub open spec fn reply_history(events: Seq<Event<Seq<char>>>, reply: Reply<Seq<char>>) -> bool {
    match reply {
        Reply::Session(response) => response.status == TenantStatus::Ready ==> seen_healthy(events)
            || found_as(events, response.tenant_id, TenantStatus::Ready),
        Reply::Status(response) => found_as(events, response.tenant_id, response.status),
        Reply::Admission(admission) => exists|tenant: Tenant<Seq<char>>| #[trigger]
            found(events, tenant) && tenant.status == TenantStatus::Ready && admission
                == routes::admits(tenant),
        Reply::NoContent => true,
    }
}

/// What was heard stays heard.
proof fn more_events_keep_history(events: Seq<Event<Seq<char>>>)
    requires
        events.len() > 0,
    ensures
        ({
            let before = events.drop_last();
            &&& authenticated(before) ==> authenticated(events)
            &&& seen_healthy(before) ==> seen_healthy(events)
            &&& none_found(before) ==> none_found(events)
            &&& forall|user_id: Seq<char>| #[trigger]
                verified(before, user_id) ==> verified(events, user_id)
            &&& forall|words: Seq<char>| #[trigger] heard(before, words) ==> heard(events, words)
            &&& forall|message: Seq<char>| #[trigger]
                is_explained(before, message) ==> is_explained(events, message)
            &&& forall|tenant: Tenant<Seq<char>>| #[trigger]
                found(before, tenant) ==> found(events, tenant)
            &&& forall|tenant_id: Seq<char>, status: TenantStatus| #[trigger]
                found_as(before, tenant_id, status) ==> found_as(events, tenant_id, status)
        }),
{
    let before = events.drop_last();
    assert forall|i: int| 0 <= i < before.len() implies #[trigger] before[i] == events[i] by {}
    if authenticated(before) {
        let i = choose|i: int|
            0 <= i < before.len() && (#[trigger] before[i] matches Event::Verified(Ok(_)));
        assert(events[i] is Verified);
    }
    if seen_healthy(before) {
        let i = choose|i: int|
            0 <= i < before.len() && (#[trigger] before[i] matches Event::Probed(status)
                && effects::healthy(status));
        assert(events[i] is Probed);
    }
    if none_found(before) {
        let i = choose|i: int|
            0 <= i < before.len() && #[trigger] before[i] == Event::<Seq<char>>::Found(Ok(None));
        assert(events[i] is Found);
    }
    assert forall|user_id: Seq<char>| #[trigger] verified(before, user_id) implies verified(
        events,
        user_id,
    ) by {
        let i = choose|i: int|
            0 <= i < before.len() && (#[trigger] before[i] matches Event::Verified(Ok(claims))
                && claims.sub == user_id);
        assert(events[i] is Verified);
    }
    assert forall|words: Seq<char>| #[trigger] heard(before, words) implies heard(
        events,
        words,
    ) by {
        let i = choose|i: int|
            0 <= i < before.len() && words_of(#[trigger] before[i]) == Some(words);
        assert(words_of(events[i]) == Some(words));
    }
    assert forall|message: Seq<char>| #[trigger] is_explained(before, message) implies is_explained(
        events,
        message,
    ) by {
        if !is_fixed(message) {
            let words = choose|words: Seq<char>| #[trigger]
                heard(before, words) && tells(words, message);
            assert(heard(events, words));
        }
    }
    assert forall|tenant: Tenant<Seq<char>>| #[trigger] found(before, tenant) implies found(
        events,
        tenant,
    ) by {
        let i = choose|i: int|
            0 <= i < before.len() && #[trigger] before[i] == Event::Found(Ok(Some(tenant)));
        assert(events[i] is Found);
    }
    assert forall|tenant_id: Seq<char>, status: TenantStatus| #[trigger]
        found_as(before, tenant_id, status) implies found_as(events, tenant_id, status) by {
        let tenant = choose|tenant: Tenant<Seq<char>>| #[trigger]
            found(before, tenant) && tenant.tenant_id == tenant_id && tenant.status == status;
        assert(found(events, tenant));
    }
}

/// The words of the last event are heard, and explain the messages that tell them.
proof fn last_words_are_heard(events: Seq<Event<Seq<char>>>)
    requires
        events.len() > 0,
    ensures
        words_of(events.last()) matches Some(words) ==> {
            &&& heard(events, words)
            &&& is_explained(events, words)
            &&& is_explained(events, "Wake failed: "@ + words)
            &&& is_explained(events, "K8s unreachable: "@ + words)
            &&& is_explained(events, "K8s deprovision failed: "@ + words)
        },
{
    if let Some(words) = words_of(events.last()) {
        assert(words_of(events[events.len() - 1]) == Some(words));
        assert(heard(events, words));
        assert(tells(words, words));
        assert(tells(words, "Wake failed: "@ + words));
        assert(tells(words, "K8s unreachable: "@ + words));
        assert(tells(words, "K8s deprovision failed: "@ + words));
    }
}

/// Every request has the history that its place tells of.
proof fn requests_have_history(
    state: AppState<Seq<char>>,
    route: Route,
    header: Option<Seq<u8>>,
    events: Seq<Event<Seq<char>>>,
)
    ensures
        history(events, state.serve(routes::begins(route, header), events)),
    decreases events.len(),
{
    let begin = routes::begins(route, header);
    if events.len() > 0 {
        let before = events.drop_last();
        let last = events.len() - 1;
        let step = state.serve(begin, before);
        requests_have_history(state, route, header, before);
        more_events_keep_history(events);
        match step {
            RouteStep::Await(flow) => {
                assert(events[last] == events.last());
                last_words_are_heard(events);
                match (flow, events.last()) {
                    (RouteFlow::Verifying { .. }, Event::Verified(Ok(claims))) => {
                        assert(verified(events, claims.sub));
                        assert(authenticated(events));
                    },
                    (RouteFlow::Finding { .. }, Event::Found(Ok(Some(tenant)))) => {
                        assert(found(events, tenant));
                        assert(found_as(events, tenant.tenant_id, tenant.status));
                    },
                    (RouteFlow::Finding { .. }, Event::Found(Ok(None))) => {
                        assert(none_found(events));
                    },
                    (RouteFlow::Session(session), event) => {
                        session_keeps_history(state, session, events);
                    },
                    _ => {},
                }
            },
            RouteStep::Done(Ok(Reply::Admission(admission))) => {
                let tenant = choose|tenant: Tenant<Seq<char>>| #[trigger]
                    found(before, tenant) && tenant.status == TenantStatus::Ready && admission
                        == routes::admits(tenant);
                assert(found(events, tenant));
            },
            _ => {},
        }
    }
}

/// A session that has its history keeps it.
proof fn session_keeps_history(
    state: AppState<Seq<char>>,
    flow: SessionFlow<Seq<char>>,
    events: Seq<Event<Seq<char>>>,
)
    requires
        events.len() > 0,
        session_history(events.drop_last(), flow),
    ensures
        match state.session_after(flow, events.last()) {
            SessionStep::Await(next) => session_history(events, next),
            SessionStep::Done(Ok(response)) => reply_history(events, Reply::Session(response)),
            SessionStep::Done(Err(refusal)) => is_explained(events, refusal.body.error),
        },
{
    more_events_keep_history(events);
    let last = events.len() - 1;
    assert(events[last] == events.last());
    last_words_are_heard(events);
    match (flow, events.last()) {
        (SessionFlow::Probing { .. }, Event::Probed(status)) => {
            if effects::healthy(status) {
                assert(seen_healthy(events));
            }
        },
        (SessionFlow::NewProbing { .. }, Event::Probed(status)) => {
            if effects::healthy(status) {
                assert(seen_healthy(events));
            }
        },
        (SessionFlow::FailureSaving { reason, .. }, _) => {
            assert(heard(events, reason));
            assert(tells(reason, reason));
            assert(is_explained(events, reason));
        },
        (SessionFlow::Touching { tenant }, _) => {
            assert(found(events, tenant));
            assert(found_as(events, tenant.tenant_id, tenant.status));
        },
        _ => {},
    }
}

/// Until a JWT is verified a request asks for nothing but its verification, and it is not served.
/// The tenant that is then looked up is that of the JWT's user.
pub proof fn only_verified_users_are_served(
    state: AppState<Seq<char>>,
    route: Route,
    header: Option<Seq<u8>>,
    events: Seq<Event<Seq<char>>>,
)
    ensures
        match state.serve(routes::begins(route, header), events) {
            RouteStep::Await(flow) => match flow.asks() {
                Action::Verify(token) => routes::credentials(header) == Ok::<
                    Seq<char>,
                    Refusal<Seq<char>>,
                >(token),
                Action::FindTenant(user_id) => verified(events, user_id),
                _ => authenticated(events),
            },
            RouteStep::Done(Ok(_)) => authenticated(events),
            RouteStep::Done(Err(_)) => true,
        },
{
    requests_have_history(state, route, header, events);
    requests_stay_on_their_route(state, route, header, events);
}

/// A request without a bearer token is turned away at once, and stays so.
pub proof fn requests_without_token_are_refused(
    state: AppState<Seq<char>>,
    route: Route,
    header: Option<Seq<u8>>,
    events: Seq<Event<Seq<char>>>,
)
    requires
        routes::credentials(header) is Err,
    ensures
        state.serve(routes::begins(route, header), events) matches RouteStep::Done(Err(refusal))
            && refusal.status == 401,
    decreases events.len(),
{
    if events.len() > 0 {
        requests_without_token_are_refused(state, route, header, events.drop_last());
    }
}

/// A tenant is created only for a verified user who was found to have none.
pub proof fn tenants_are_created_only_where_none_is_found(
    state: AppState<Seq<char>>,
    route: Route,
    header: Option<Seq<u8>>,
    events: Seq<Event<Seq<char>>>,
)
    ensures
        state.serve(routes::begins(route, header), events) matches RouteStep::Await(flow) ==> (
        flow.asks() matches Action::CreateTenant(user_id) ==> {
            &&& route == Route::CreateSession
            &&& verified(events, user_id)
            &&& none_found(events)
        }),
{
    requests_have_history(state, route, header, events);
    requests_stay_on_their_route(state, route, header, events);
}

/// A session is answered as ready only where the tenant was stored as ready, or its engine answered
/// that it is healthy.
pub proof fn ready_means_ready(
    state: AppState<Seq<char>>,
    route: Route,
    header: Option<Seq<u8>>,
    events: Seq<Event<Seq<char>>>,
)
    ensures
        state.serve(routes::begins(route, header), events) matches RouteStep::Done(
            Ok(Reply::Session(response)),
        ) ==> response.status == TenantStatus::Ready ==> seen_healthy(events) || found_as(
            events,
            response.tenant_id,
            TenantStatus::Ready,
        ),
{
    requests_have_history(state, route, header, events);
}

/// The Gateway is told a tenant's token only for a verified user, of a tenant that was found ready.
pub proof fn only_ready_tenants_are_admitted(
    state: AppState<Seq<char>>,
    route: Route,
    header: Option<Seq<u8>>,
    events: Seq<Event<Seq<char>>>,
)
    ensures
        state.serve(routes::begins(route, header), events) matches RouteStep::Done(
            Ok(Reply::Admission(admission)),
        ) ==> {
            &&& route == Route::ExtAuthz
            &&& authenticated(events)
            &&& exists|tenant: Tenant<Seq<char>>| #[trigger]
                found(events, tenant) && tenant.status == TenantStatus::Ready && admission
                    == routes::admits(tenant)
        },
{
    requests_have_history(state, route, header, events);
    requests_stay_on_their_route(state, route, header, events);
}

/// Whether a step belongs to a route, and shows no more than it may.
pub open spec fn fits(
    state: AppState<Seq<char>>,
    route: Route,
    header: Option<Seq<u8>>,
    step: RouteStep<Seq<char>>,
) -> bool {
    match step {
        RouteStep::Await(RouteFlow::Verifying { route: r, token }) => {
            &&& r == route
            &&& routes::credentials(header) == Ok::<Seq<char>, Refusal<Seq<char>>>(token)
        },
        RouteStep::Await(RouteFlow::Finding { route: r, .. }) => r == route,
        RouteStep::Await(RouteFlow::Session(_)) => route == Route::CreateSession,
        RouteStep::Await(RouteFlow::Suspending { .. }) => route == Route::SuspendTenant,
        RouteStep::Await(RouteFlow::SuspendSaving { .. }) => route == Route::SuspendTenant,
        RouteStep::Await(RouteFlow::Deprovisioning { .. }) => route == Route::DeleteTenant,
        RouteStep::Await(RouteFlow::Deleting { .. }) => route == Route::DeleteTenant,
        RouteStep::Done(Ok(Reply::Session(response))) => {
            &&& route == Route::CreateSession
            &&& response.engine_url == state.tenant_url(response.tenant_id)
            &&& state.gateway_domain is Some ==> response.engine_token is None
        },
        RouteStep::Done(Ok(Reply::Status(_))) => route == Route::TenantStatus,
        RouteStep::Done(Ok(Reply::NoContent)) => route == Route::SuspendTenant || route
            == Route::DeleteTenant,
        RouteStep::Done(Ok(Reply::Admission(_))) => route == Route::ExtAuthz,
        RouteStep::Done(Err(_)) => true,
    }
}

/// Each route gives its own kind of reply, and takes only its own steps.
pub proof fn requests_stay_on_their_route(
    state: AppState<Seq<char>>,
    route: Route,
    header: Option<Seq<u8>>,
    events: Seq<Event<Seq<char>>>,
)
    ensures
        fits(state, route, header, state.serve(routes::begins(route, header), events)),
    decreases events.len(),
{
    if events.len() > 0 {
        requests_stay_on_their_route(state, route, header, events.drop_last());
    }
}

/// With the Gateway on, no API response shows an engine token. A session's response has no such
/// entry: its entries are the tenant's ID, its status and the tenant's public URL, which is made from
/// the ID and the settings. A refusal's message is a fixed one, or the words of an error that was
/// heard of, behind a fixed text or none: no tenant goes into it. Only the Gateway's own route hands
/// out a token.
pub proof fn gateway_hides_engine_tokens(
    state: AppState<Seq<char>>,
    route: Route,
    header: Option<Seq<u8>>,
    events: Seq<Event<Seq<char>>>,
)
    requires
        state.gateway_domain is Some,
        route != Route::ExtAuthz,
    ensures
        match state.serve(routes::begins(route, header), events) {
            RouteStep::Done(Ok(reply)) => match reply {
                Reply::Session(response) => {
                    &&& response.engine_token is None
                    &&& !response.json().has("engine_token"@)
                    &&& response.json().at("engine_url"@) == JsonView::Text(response.engine_url)
                    &&& response.engine_url == k8s::public_url(
                        response.tenant_id,
                        state.gateway_scheme,
                        state.gateway_domain->0,
                    )
                },
                Reply::Status(response) => !response.json().has("engine_token"@),
                Reply::NoContent => true,
                Reply::Admission(_) => false,
            },
            RouteStep::Done(Err(refusal)) => is_explained(events, refusal.body.error),
            RouteStep::Await(_) => true,
        },
{
    requests_have_history(state, route, header, events);
    requests_stay_on_their_route(state, route, header, events);
    reveal_strlit("engine_token");
    reveal_strlit("engine_url");
    reveal_strlit("tenant_id");
    reveal_strlit("status");
    assert("engine_token"@.len() == 12);
    assert("engine_url"@.len() == 10);
    assert("tenant_id"@.len() == 9);
    assert("status"@.len() == 6);
}

/// With the Gateway on or off, a tenant's first session is given the same URL as every later one.
pub proof fn tenants_keep_their_url(
    state: AppState<Seq<char>>,
    flow: SessionFlow<Seq<char>>,
    event: Event<Seq<char>>,
)
    ensures
        state.session_after(flow, event) matches SessionStep::Done(Ok(response))
            ==> response.engine_url == state.tenant_url(response.tenant_id),
{
}

/// Without the Gateway a session's response shows the token that the tenant's engine goes by.
pub proof fn sessions_show_the_token_without_gateway(
    state: AppState<Seq<char>>,
    tenant: Tenant<Seq<char>>,
    status: TenantStatus,
)
    requires
        state.gateway_domain is None,
    ensures
        state.answer(tenant, status) matches SessionStep::Done(Ok(response))
            && response.engine_token == Some(state.probe_token(tenant.engine_token))
            && response.json().at("engine_token"@) == JsonView::Text(
            state.probe_token(tenant.engine_token),
        ),
{
    reveal_strlit("engine_token");
    reveal_strlit("tenant_id");
    reveal_strlit("status");
    assert("engine_token"@.len() == 12);
    assert("tenant_id"@.len() == 9);
    assert("status"@.len() == 6);
}

/// The tenant that a session is about, once there is one.
pub open spec fn tenant_of(flow: SessionFlow<Seq<char>>) -> Option<Tenant<Seq<char>>> {
    match flow {
        SessionFlow::Touching { tenant } => Some(tenant),
        SessionFlow::Waking { tenant, .. } => Some(tenant),
        SessionFlow::WakeSaving { tenant } => Some(tenant),
        SessionFlow::Probing { tenant, .. } => Some(tenant),
        SessionFlow::ReadySaving { tenant } => Some(tenant),
        SessionFlow::PodChecking { tenant, .. } => Some(tenant),
        SessionFlow::Reprovisioning { tenant, .. } => Some(tenant),
        SessionFlow::ReprovisionSaving { tenant } => Some(tenant),
        SessionFlow::FailureSaving { tenant, .. } => Some(tenant),
        SessionFlow::Creating { .. } => None,
        SessionFlow::NewProvisioning { tenant, .. } => Some(tenant),
        SessionFlow::NewProbing { tenant, .. } => Some(tenant),
    }
}

/// The specification that a session brings to Kubernetes, where it does.
pub open spec fn spec_in(flow: SessionFlow<Seq<char>>) -> Option<k8s::TenantSpec<Seq<char>>> {
    match flow {
        SessionFlow::Waking { spec, .. } => Some(spec),
        SessionFlow::PodChecking { spec, .. } => Some(spec),
        SessionFlow::Reprovisioning { spec, .. } => Some(spec),
        SessionFlow::NewProvisioning { spec, .. } => Some(spec),
        _ => None,
    }
}

/// Whether a probe is one of a tenant's engine, with a token that the engine goes by.
pub open spec fn probes(
    state: AppState<Seq<char>>,
    tenant: Tenant<Seq<char>>,
    probe: HealthProbe<Seq<char>>,
) -> bool {
    ||| probe == HealthProbe::of(
        k8s::cluster_url(tenant.tenant_id),
        state.probe_token(tenant.engine_token),
    )
    ||| state.engine_image is Some && probe == HealthProbe::of(
        k8s::cluster_url(tenant.tenant_id),
        tenant.engine_token,
    )
    ||| state.engine_image is None && probe == HealthProbe::of(
        routes::filled(state.engine_url_template, tenant.tenant_id),
        state.probe_token(tenant.engine_token),
    )
}

/// Whether a session acts for its tenant: what it brings to Kubernetes is made from that tenant,
/// and the engine that it probes is that tenant's.
pub open spec fn acts_for_its_tenant(
    state: AppState<Seq<char>>,
    flow: SessionFlow<Seq<char>>,
) -> bool {
    &&& spec_in(flow) is Some ==> tenant_of(flow) is Some && spec_in(flow) == state.spec_of(
        tenant_of(flow)->0,
    )
    &&& flow matches SessionFlow::Probing { tenant, probe } ==> probes(state, tenant, probe)
    &&& flow matches SessionFlow::NewProbing { tenant, probe } ==> probes(state, tenant, probe)
}

/// A session is about one tenant from beginning to end: what it asks of the store, of Kubernetes and
/// of an engine is about that tenant, and so is its answer.
pub proof fn sessions_keep_to_their_tenant(
    state: AppState<Seq<char>>,
    flow: SessionFlow<Seq<char>>,
    event: Event<Seq<char>>,
)
    requires
        acts_for_its_tenant(state, flow),
    ensures
        match state.session_after(flow, event) {
            SessionStep::Await(next) => {
                &&& acts_for_its_tenant(state, next)
                &&& tenant_of(flow) is Some ==> tenant_of(next) == tenant_of(flow)
                &&& tenant_of(flow) is None && next != flow ==> event == Event::Created(
                    Ok(tenant_of(next)->0),
                )
            },
            SessionStep::Done(Ok(response)) => tenant_of(flow) matches Some(tenant)
                && response.tenant_id == tenant.tenant_id,
            SessionStep::Done(Err(_)) => true,
        },
        tenant_of(flow) matches Some(tenant) ==> match flow.asks() {
            Action::Touch(id) => id == tenant.tenant_id,
            Action::UpdateStatus(id, _) => id == tenant.tenant_id,
            Action::PodExists(id) => id == tenant.tenant_id,
            Action::Provision(spec) => state.spec_of(tenant) == Some(spec),
            Action::Wake(spec) => state.spec_of(tenant) == Some(spec),
            Action::CheckHealth(probe) => probes(state, tenant, probe),
            _ => false,
        },
{
}

/// The status that a session stores agrees with the one it answers: whoever is told a new status
/// reads the same from the store.
pub proof fn stored_status_is_the_answered_one(
    state: AppState<Seq<char>>,
    flow: SessionFlow<Seq<char>>,
    event: Event<Seq<char>>,
)
    ensures
        flow.asks() matches Action::UpdateStatus(_, status) ==> (state.session_after(
            flow,
            event,
        ) matches SessionStep::Done(Ok(response)) ==> response.status == status),
{
}

/// Where provisioning fails the tenant is stored as failed before the request is answered, and the
/// answer is the reason.
pub proof fn failures_are_stored(
    state: AppState<Seq<char>>,
    flow: SessionFlow<Seq<char>>,
    reason: Seq<char>,
)
    requires
        flow.asks() is Provision,
    ensures
        state.session_after(flow, Event::Performed(Err(reason))) matches SessionStep::Await(next)
            && next.asks() == Action::UpdateStatus(tenant_of(flow)->0.tenant_id, TenantStatus::Error)
            && state.session_after(next, Event::Performed(Ok(()))) == SessionStep::fails(reason),
{
}

/// A suspended tenant is woken, and never probed or provisioned, before it is answered.
pub proof fn suspended_tenants_are_woken(state: AppState<Seq<char>>, tenant: Tenant<Seq<char>>)
    requires
        tenant.status == TenantStatus::Suspended,
    ensures
        state.session_after((SessionFlow::Touching { tenant }), Event::Performed(Ok(())))
            == match state.spec_of(tenant) {
            Some(spec) => SessionStep::Await((SessionFlow::Waking { tenant, spec })),
            None => SessionStep::fails("K8s not configured"@),
        },
        forall|spec: k8s::TenantSpec<Seq<char>>, event: Event<Seq<char>>|
            match #[trigger] state.session_after((SessionFlow::Waking { tenant, spec }), event) {
                SessionStep::Await(next) => next.asks() is Wake || next.asks()
                    == Action::UpdateStatus(tenant.tenant_id, TenantStatus::Provisioning),
                SessionStep::Done(outcome) => outcome is Err,
            },
{
}

/// Where tenants live in Kubernetes, a tenant leaves the store only after what it has in the
/// cluster was deleted.
pub proof fn teardown_comes_before_deletion(
    state: AppState<Seq<char>>,
    flow: RouteFlow<Seq<char>>,
    event: Event<Seq<char>>,
    tenant_id: Seq<char>,
)
    requires
        state.engine_image is Some,
        !(flow.asks() is DeleteTenant),
        state.route_after(flow, event) matches RouteStep::Await(next) && next.asks()
            == Action::DeleteTenant(tenant_id),
    ensures
        flow.asks() == Action::Deprovision(tenant_id),
        event matches Event::Performed(Ok(_)),
{
}

/// Where tenants live in Kubernetes, a tenant is stored as suspended only after its pod was deleted.
pub proof fn pods_go_before_tenants_are_suspended(
    state: AppState<Seq<char>>,
    flow: RouteFlow<Seq<char>>,
    event: Event<Seq<char>>,
    tenant_id: Seq<char>,
)
    requires
        state.engine_image is Some,
        flow.asks() != Action::UpdateStatus(tenant_id, TenantStatus::Suspended),
        state.route_after(flow, event) matches RouteStep::Await(next) && next.asks()
            == Action::UpdateStatus(tenant_id, TenantStatus::Suspended),
    ensures
        flow.asks() == Action::Suspend(tenant_id),
        event matches Event::Performed(Ok(_)),
{
}

/// How many replies a session still waits for, at most.
pub open spec fn session_replies_left(step: SessionStep<Seq<char>>) -> nat {
    match step {
        SessionStep::Done(_) => 0,
        SessionStep::Await(flow) => match flow {
            SessionFlow::Touching { .. } => 5,
            SessionFlow::Probing { .. } => 4,
            SessionFlow::PodChecking { .. } => 3,
            SessionFlow::Reprovisioning { .. } => 2,
            SessionFlow::Waking { .. } => 2,
            SessionFlow::Creating { .. } => 4,
            SessionFlow::NewProvisioning { .. } => 3,
            SessionFlow::NewProbing { .. } => 2,
            _ => 1,
        },
    }
}

/// How many replies a request still waits for, at most.
pub open spec fn replies_left(step: RouteStep<Seq<char>>) -> nat {
    match step {
        RouteStep::Done(_) => 0,
        RouteStep::Await(RouteFlow::Verifying { .. }) => 7,
        RouteStep::Await(RouteFlow::Finding { .. }) => 6,
        RouteStep::Await(RouteFlow::Session(flow)) => session_replies_left(
            SessionStep::Await(flow),
        ),
        RouteStep::Await(RouteFlow::Suspending { .. }) => 2,
        RouteStep::Await(RouteFlow::Deprovisioning { .. }) => 2,
        RouteStep::Await(_) => 1,
    }
}

/// Every request comes to an end: each reply to what it asks for brings the end nearer, and
/// anything else changes nothing.
pub proof fn requests_end(
    state: AppState<Seq<char>>,
    flow: RouteFlow<Seq<char>>,
    event: Event<Seq<char>>,
)
    ensures
        effects::answers(flow.asks(), event) ==> replies_left(state.route_after(flow, event))
            < replies_left(RouteStep::Await(flow)),
        !effects::answers(flow.asks(), event) ==> state.route_after(flow, event)
            == RouteStep::Await(flow),
{
}

} // verus!
