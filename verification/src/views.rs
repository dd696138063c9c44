//! What the views of the library's types hold: each holds what the value itself holds, part by part.
//! Contracts speak of views, so these laws say what a contract means for the values that go in and
//! come out.
use crate::auth::{
    Claims, JwksReply, Jwk, JwtVerifier, TokenFault, TokenHeader, TokenKey, ValidationRules,
    VerifyAction, VerifyActionView, VerifyEvent, VerifyEventView,
};
use crate::effects::{Action, Event, HealthProbe};
use crate::idle_sweeper::{
    SweepAction, SweepActionView, SweepEvent, SweepEventView, SweepReport,
};
use crate::json;
use crate::json::{Json, JsonView};
use crate::k8s::operations::{
    KubeAction, KubeActionView, KubeEvent, KubeEventView, Manifest, ObjectRef,
};
use crate::k8s::{KubeError, TenantSpec};
use crate::routes;
use crate::routes::{
    Admission, AppState, ErrorResponse, Header, Refusal, Reply, SessionResponse, StatusResponse,
};
use crate::settings::{CorsPolicy, Environment, Origins, Settings};
use crate::store;
use crate::store::{HttpReply, StoreRequest, TenantStore};
use crate::tenant::Tenant;
use crate::text;
use vstd::prelude::*;

verus! {

/// A text that may be absent, several texts, and outcomes whose error is a text.
pub proof fn texts(
    some: String,
    list: Seq<String>,
    i: int,
    borrowed: &str,
    bytes: &[u8],
    done: bool,
)
    requires
        0 <= i < list.len(),
    ensures
        text::opt(Some(some)) == Some(some@),
        text::opt(None) is None,
        text::opt_str(Some(borrowed)) == Some(borrowed@),
        text::opt_str(None) is None,
        text::all(list).len() == list.len(),
        text::all(list)[i] == list[i]@,
        text::outcome(Ok::<bool, String>(done)) == Ok::<bool, Seq<char>>(done),
        text::outcome(Err::<bool, String>(some)) == Err::<bool, Seq<char>>(some@),
        text::outcome(Ok::<(), String>(())) is Ok,
        text::outcome(Err::<(), String>(some)) == Err::<(), Seq<char>>(some@),
        routes::raw(Some(bytes)) == Some(bytes@),
        routes::raw(None) is None,
{
}

/// A tenant.
pub proof fn tenants(tenant: Tenant)
    ensures
        tenant@.id == tenant.id@,
        tenant@.user_id == tenant.user_id@,
        tenant@.tenant_id == tenant.tenant_id@,
        tenant@.engine_token == tenant.engine_token@,
        tenant@.status == tenant.status,
{
}

/// The rows of a reply of the store, and what they come to.
pub proof fn rows(list: Vec<Tenant>, i: int, tenant: Tenant, e: String)
    requires
        0 <= i < list@.len(),
    ensures
        store::rows_view(list@).len() == list@.len(),
        store::rows_view(list@)[i] == list@[i]@,
        store::read_view(Ok(list)) == Ok::<Seq<Tenant<Seq<char>>>, Seq<char>>(
            store::rows_view(list@),
        ),
        store::read_view(Err(e)) == Err::<Seq<Tenant<Seq<char>>>, Seq<char>>(e@),
        store::lookup_view(Ok(Some(tenant))) == Ok::<Option<Tenant<Seq<char>>>, Seq<char>>(
            Some(tenant@),
        ),
        store::lookup_view(Ok(None)) == Ok::<Option<Tenant<Seq<char>>>, Seq<char>>(None),
        store::lookup_view(Err(e)) == Err::<Option<Tenant<Seq<char>>>, Seq<char>>(e@),
        store::tenant_view(Ok(tenant)) == Ok::<Tenant<Seq<char>>, Seq<char>>(tenant@),
        store::tenant_view(Err(e)) == Err::<Tenant<Seq<char>>, Seq<char>>(e@),
{
}

/// The store, a request to it, and its reply.
pub proof fn store_requests(
    tenants: TenantStore,
    request: StoreRequest,
    i: int,
    reply: HttpReply,
)
    ensures
        tenants@.base_url == tenants.base_url@,
        tenants@.service_key == tenants.service_key@,
        request@.context == request.context@,
        request@.method == request.method,
        request@.url == request.url@,
        request@.query.len() == request.query@.len(),
        0 <= i < request.query@.len() ==> request@.query[i] == (
            request.query@[i].0@,
            request.query@[i].1@,
        ),
        request@.headers.len() == request.headers@.len(),
        0 <= i < request.headers@.len() ==> request@.headers[i] == (
            request.headers@[i].0@,
            request.headers@[i].1@,
        ),
        request.body is None <==> request@.body is None,
        request.body matches Some(body) ==> request@.body == Some(body@),
        reply matches HttpReply::Unsent(reason) ==> reply@ == HttpReply::Unsent(reason@),
        reply matches HttpReply::Answered { status, body } ==> reply@ == (HttpReply::Answered {
            status,
            body: body@,
        }),
{
}

/// A document: numbers, truth values and texts are as they are, a list has its items in their order,
/// and an object has under each key what was set last.
pub proof fn documents(
    items: Vec<Json>,
    fields: Vec<(String, Json)>,
    truth: bool,
    number: i64,
    text: String,
)
    ensures
        Json::Bool(truth)@ == JsonView::Bool(truth),
        Json::Int(number)@ == JsonView::Int(number as int),
        Json::Text(text)@ == JsonView::Text(text@),
        Json::List(items)@ == JsonView::List(json::items_view(items@)),
        Json::Object(fields)@ == JsonView::Object(json::fields_view(fields@)),
        items@.len() == 0 ==> json::items_view(items@).len() == 0,
        items@.len() > 0 ==> json::items_view(items@) == json::items_view(items@.drop_last()).push(
            items@.last()@,
        ),
        fields@.len() == 0 ==> json::fields_view(fields@) == Map::<Seq<char>, JsonView>::empty(),
        fields@.len() > 0 ==> json::fields_view(fields@) == json::fields_view(
            fields@.drop_last(),
        ).insert(fields@.last().0@, fields@.last().1@),
{
}

/// Claims, and what a verification comes to.
pub proof fn claims(claims: Claims, e: String)
    ensures
        claims@.sub == claims.sub@,
        claims@.aud == text::opt(claims.aud),
        claims@.iss == text::opt(claims.iss),
        claims@.exp == claims.exp,
        claims@.iat == claims.iat,
        claims@.role == claims.role@,
        claims@.email == text::opt(claims.email),
        crate::auth::claims_view(Ok(claims)) == Ok::<Claims<Seq<char>>, Seq<char>>(claims@),
        crate::auth::claims_view(Err(e)) == Err::<Claims<Seq<char>>, Seq<char>>(e@),
{
}

/// What tokens are checked with.
pub proof fn keys_and_rules(
    verifier: JwtVerifier,
    rules: ValidationRules,
    header: TokenHeader,
    key: Jwk,
    secret: String,
    fault: TokenFault,
    keys: Seq<Jwk>,
    i: int,
)
    requires
        0 <= i < keys.len(),
    ensures
        verifier@.jwks_url == verifier.jwks_url@,
        verifier@.issuer == verifier.issuer@,
        verifier@.hs256_secret == verifier.hs256_secret@,
        rules@.algorithm == rules.algorithm,
        rules@.audience == rules.audience@,
        rules@.issuer == text::opt(rules.issuer),
        header@.alg == header.alg@,
        header@.kid == text::opt(header.kid),
        key@.key_id == text::opt(key.key_id),
        key@.json == key.json@,
        TokenKey::Secret(secret)@ == TokenKey::Secret(secret@),
        TokenKey::Jwk(secret)@ == TokenKey::Jwk(secret@),
        fault@.kind == fault.kind@,
        fault@.text == fault.text@,
        crate::auth::keys_view(keys).len() == keys.len(),
        crate::auth::keys_view(keys)[i] == keys[i]@,
{
}

/// What a verification asks for, and what comes back.
pub proof fn verifications(action: VerifyAction, event: VerifyEvent, reply: JwksReply)
    ensures
        action is ReadCache ==> action@ is ReadCache,
        action matches VerifyAction::Fetch(url) ==> action@ == VerifyActionView::Fetch(url@),
        action matches VerifyAction::WriteCache(keys) ==> action@ == VerifyActionView::WriteCache(
            crate::auth::keys_view(keys@),
        ),
        action matches VerifyAction::ParseClaims(token) ==> action@
            == VerifyActionView::ParseClaims(token@),
        event matches VerifyEvent::Cached(Some(keys)) ==> event@ == VerifyEventView::Cached(
            Some(crate::auth::keys_view(keys@)),
        ),
        event matches VerifyEvent::Cached(None) ==> event@ == VerifyEventView::Cached(None),
        event matches VerifyEvent::Fetched(fetched) ==> event@ == VerifyEventView::Fetched(
            fetched@,
        ),
        event is Written ==> event@ is Written,
        event matches VerifyEvent::Parsed(outcome) ==> event@ == VerifyEventView::Parsed(
            crate::auth::claims_view(outcome),
        ),
        reply matches JwksReply::Unsent(reason) ==> reply@ == JwksReply::<
            Seq<char>,
            Seq<u8>,
        >::Unsent(reason@),
        reply matches JwksReply::Answered { status, line, body: Ok(body) } ==> reply@
            == (JwksReply::Answered { status, line: line@, body: Ok(body@) }),
        reply matches JwksReply::Answered { status, line, body: Err(e) } ==> reply@
            == (JwksReply::<Seq<char>, Seq<u8>>::Answered { status, line: line@, body: Err(e@) }),
{
}

/// The settings, and the environment that they follow.
pub proof fn settings(state: AppState, settings: Settings, env: Environment)
    ensures
        state@.tenant_store == state.tenant_store@,
        state@.jwt_verifier == state.jwt_verifier@,
        state@.engine_url_template == state.engine_url_template@,
        state@.dev_engine_token == text::opt(state.dev_engine_token),
        state@.engine_image == text::opt(state.engine_image),
        state@.gateway_domain == text::opt(state.gateway_domain),
        state@.gateway_scheme == state.gateway_scheme@,
        state@.gvisor == state.gvisor,
        state@.storage_class == state.storage_class@,
        settings@.state == settings.state@,
        settings@.bind == settings.bind@,
        env@.supabase_url == env.supabase_url@,
        env@.supabase_service_role_key == env.supabase_service_role_key@,
        env@.supabase_jwt_secret == env.supabase_jwt_secret@,
        env@.engine_url_template == text::opt(env.engine_url_template),
        env@.dev_engine_token == text::opt(env.dev_engine_token),
        env@.engine_image == text::opt(env.engine_image),
        env@.gateway_domain == text::opt(env.gateway_domain),
        env@.gateway_scheme == text::opt(env.gateway_scheme),
        env@.gvisor == text::opt(env.gvisor),
        env@.storage_class == text::opt(env.storage_class),
        env@.bind == text::opt(env.bind),
{
}

/// A CORS policy.
pub proof fn policies(policy: CorsPolicy, origins: Origins)
    ensures
        policy@.origins == policy.origins@,
        policy@.methods == text::all(policy.methods@),
        policy@.headers == text::all(policy.headers@),
        origins@.allowed == text::all(origins.allowed@),
        origins@.ignored == text::all(origins.ignored@),
{
}

/// What a tenant's objects are made from, and the probe of an engine.
pub proof fn specifications(spec: TenantSpec, probe: HealthProbe)
    ensures
        spec@.tenant_id == spec.tenant_id@,
        spec@.engine_token == spec.engine_token@,
        spec@.engine_image == spec.engine_image@,
        spec@.gateway_domain == text::opt(spec.gateway_domain),
        spec@.gvisor == spec.gvisor,
        spec@.storage_class == spec.storage_class@,
        probe@.url == probe.url@,
        probe@.authorization == probe.authorization@,
        probe@.timeout_secs == probe.timeout_secs,
{
}

/// What a request asks for.
pub proof fn actions(action: Action)
    ensures
        action@ == match action {
            Action::Verify(token) => Action::Verify(token@),
            Action::FindTenant(user_id) => Action::FindTenant(user_id@),
            Action::CreateTenant(user_id) => Action::CreateTenant(user_id@),
            Action::Touch(tenant_id) => Action::Touch(tenant_id@),
            Action::UpdateStatus(tenant_id, status) => Action::UpdateStatus(tenant_id@, status),
            Action::DeleteTenant(tenant_id) => Action::DeleteTenant(tenant_id@),
            Action::CheckHealth(probe) => Action::CheckHealth(probe@),
            Action::PodExists(tenant_id) => Action::PodExists(tenant_id@),
            Action::Provision(spec) => Action::Provision(spec@),
            Action::Wake(spec) => Action::Wake(spec@),
            Action::Suspend(tenant_id) => Action::Suspend(tenant_id@),
            Action::Deprovision(tenant_id) => Action::Deprovision(tenant_id@),
        },
{
}

/// What comes back to a request.
pub proof fn events(event: Event)
    ensures
        event matches Event::Verified(outcome) ==> event@ == Event::Verified(
            crate::auth::claims_view(outcome),
        ),
        event matches Event::Found(outcome) ==> event@ == Event::Found(store::lookup_view(outcome)),
        event matches Event::Created(outcome) ==> event@ == Event::Created(
            store::tenant_view(outcome),
        ),
        event matches Event::Probed(status) ==> event@ == Event::<Seq<char>>::Probed(status),
        event matches Event::Exists(Ok(exists)) ==> event@ == Event::<Seq<char>>::Exists(
            Ok(exists),
        ),
        event matches Event::Exists(Err(e)) ==> event@ == Event::Exists(Err(e@)),
        event matches Event::Performed(Ok(_)) ==> (event@ matches Event::Performed(Ok(_))),
        event matches Event::Performed(Err(e)) ==> event@ == Event::Performed(Err(e@)),
{
}

/// How a request is answered.
pub proof fn answers(reply: Reply, refusal: Refusal)
    ensures
        reply matches Reply::Session(response) ==> reply@ == Reply::Session(response@),
        reply matches Reply::Status(response) ==> reply@ == Reply::Status(response@),
        reply is NoContent ==> reply@ is NoContent,
        reply matches Reply::Admission(admission) ==> reply@ == Reply::Admission(admission@),
        refusal@.status == refusal.status,
        refusal@.body == refusal.body@,
        refusal@.body.error == refusal.body.error@,
{
}

/// What an answer holds.
pub proof fn responses(
    session: SessionResponse,
    status: StatusResponse,
    error: ErrorResponse,
    admission: Admission,
    header: Header,
)
    ensures
        session@.engine_url == session.engine_url@,
        session@.engine_token == text::opt(session.engine_token),
        session@.tenant_id == session.tenant_id@,
        session@.status == session.status,
        status@.tenant_id == status.tenant_id@,
        status@.status == status.status,
        error@.error == error.error@,
        admission@.tenant == admission.tenant@,
        admission@.backend == admission.backend@,
        admission@.authorization == admission.authorization@,
        admission@.touch == admission.touch@,
        header@.name == header.name@,
        header@.value == header.value@,
{
}

/// What is asked of the Kubernetes API.
pub proof fn cluster_requests(
    action: KubeAction,
    manifest: Manifest,
    object: ObjectRef,
    i: int,
)
    ensures
        manifest@.kind == manifest.kind,
        manifest@.namespace == manifest.namespace@,
        manifest@.document == manifest.document@,
        object@.kind == object.kind,
        object@.namespace == object.namespace@,
        object@.name == object.name@,
        action is Connect ==> action@ is Connect,
        action matches KubeAction::Create(objects) ==> {
            &&& action@ matches KubeActionView::Create(seen)
            &&& seen.len() == objects@.len()
            &&& 0 <= i < seen.len() ==> seen[i] == objects@[i]@
        },
        action matches KubeAction::Find(found) ==> action@ == KubeActionView::Find(found@),
        action matches KubeAction::Delete(objects) ==> {
            &&& action@ matches KubeActionView::Delete(seen)
            &&& seen.len() == objects@.len()
            &&& 0 <= i < seen.len() ==> seen[i] == objects@[i]@
        },
{
}

/// What comes back from the Kubernetes API.
pub proof fn cluster_replies(event: KubeEvent, error: KubeError, i: int)
    ensures
        error@.code == error.code,
        error@.text == error.text@,
        event matches KubeEvent::Connected(outcome) ==> event@ == KubeEventView::Connected(
            text::outcome(outcome),
        ),
        event matches KubeEvent::Found(Ok(_)) ==> (event@ matches KubeEventView::Found(Ok(_))),
        event matches KubeEvent::Found(Err(e)) ==> event@ == KubeEventView::Found(Err(e@)),
        event matches KubeEvent::Created(replies) ==> {
            &&& event@ matches KubeEventView::Created(seen)
            &&& seen.len() == replies@.len()
            &&& 0 <= i < seen.len() && replies@[i] is Ok ==> seen[i] is Ok
            &&& 0 <= i < seen.len() && replies@[i] is Err ==> seen[i] == Err::<
                (),
                KubeError<Seq<char>>,
            >(replies@[i]->Err_0@)
        },
        event matches KubeEvent::Deleted(replies) ==> {
            &&& event@ matches KubeEventView::Deleted(seen)
            &&& seen.len() == replies@.len()
            &&& 0 <= i < seen.len() && replies@[i] is Ok ==> seen[i] is Ok
            &&& 0 <= i < seen.len() && replies@[i] is Err ==> seen[i] == Err::<
                (),
                KubeError<Seq<char>>,
            >(replies@[i]->Err_0@)
        },
{
}

/// What a sweep asks for, what comes back, and its report.
pub proof fn sweeps(action: SweepAction, event: SweepEvent, report: SweepReport, i: int)
    ensures
        action matches SweepAction::FindIdle(seconds) ==> action@ == SweepActionView::FindIdle(
            seconds,
        ),
        action matches SweepAction::Suspend(ids) ==> action@ == SweepActionView::Suspend(
            text::all(ids@),
        ),
        event matches SweepEvent::Found(Err(e)) ==> event@ == SweepEventView::Found(Err(e@)),
        event matches SweepEvent::Found(Ok(tenants)) ==> {
            &&& event@ matches SweepEventView::Found(Ok(seen))
            &&& seen.len() == tenants@.len()
            &&& 0 <= i < seen.len() ==> seen[i] == tenants@[i]@
        },
        event matches SweepEvent::Finished(outcomes) ==> {
            &&& event@ matches SweepEventView::Finished(seen)
            &&& seen.len() == outcomes@.len()
            &&& 0 <= i < seen.len() ==> seen[i] == text::outcome(outcomes@[i])
        },
        report@.total == report.total,
        report@.suspended == report.suspended,
        report@.failed == report.failed,
{
}

} // verus!
