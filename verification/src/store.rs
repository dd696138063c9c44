//! The tenant store: requests to the PostgREST API in front of the `tenants` table, and what its
//! replies mean.
use crate::clock;
use crate::clock::{utc_now, Timestamp};
use crate::json::{Json, JsonView};
use crate::tenant;
use crate::tenant::{generate_engine_token, generate_tenant_id, Tenant, TenantStatus};
use crate::text;
use crate::text::{cat, cat3, trim_end};
use vstd::prelude::*;

verus! {

/// An HTTP method.
#[derive(Debug, Clone, Copy, PartialEq, Eq, Structural)]
pub enum Method {
    Get,
    Post,
    Patch,
    Delete,
}

/// A request to the store.
#[derive(Debug)]
pub struct StoreRequest {
    /// What the request is for, in messages.
    pub context: String,
    pub method: Method,
    pub url: String,
    /// The parameters of the query, not yet encoded.
    pub query: Vec<(String, String)>,
    pub headers: Vec<(String, String)>,
    pub body: Option<Json>,
}

/// The content of a request to the store.
#[verifier::ext_equal]
pub struct StoreRequestView {
    pub context: Seq<char>,
    pub method: Method,
    pub url: Seq<char>,
    pub query: Seq<(Seq<char>, Seq<char>)>,
    pub headers: Seq<(Seq<char>, Seq<char>)>,
    pub body: Option<JsonView>,
}

/// The contents of pairs of texts.
pub open spec fn pairs_view(pairs: Seq<(String, String)>) -> Seq<(Seq<char>, Seq<char>)> {
    pairs.map_values(|p: (String, String)| (p.0@, p.1@))
}

impl View for StoreRequest {
    type V = StoreRequestView;

    open spec fn view(&self) -> StoreRequestView {
        StoreRequestView {
            context: self.context@,
            method: self.method,
            url: self.url@,
            query: pairs_view(self.query@),
            headers: pairs_view(self.headers@),
            body: match self.body {
                Some(body) => Some(body@),
                None => None,
            },
        }
    }
}

fn pair(name: &str, value: &str) -> (res: (String, String))
    ensures
        res.0@ == name@,
        res.1@ == value@,
{
    (name.to_owned(), value.to_owned())
}

/// What came back for a request: nothing, with the reason in words, or a status and, where the status
/// does not say that the request succeeded, the body as text.
#[verifier::ext_equal]
#[derive(Debug)]
pub enum HttpReply<S = String> {
    Unsent(S),
    Answered { status: u16, body: S },
}

impl View for HttpReply {
    type V = HttpReply<Seq<char>>;

    open spec fn view(&self) -> HttpReply<Seq<char>> {
        match *self {
            HttpReply::Unsent(reason) => HttpReply::Unsent(reason@),
            HttpReply::Answered { status, body } => HttpReply::Answered { status, body: body@ },
        }
    }
}

/// Whether an HTTP status says that the request succeeded.
pub open spec fn succeeded(status: u16) -> bool {
    200 <= status < 300
}

/// Whether an HTTP status says that the request succeeded.
pub fn is_success(status: u16) -> (res: bool)
    ensures
        res == succeeded(status),
{
    200 <= status && status < 300
}

/// Whether a request succeeded, or else why not.
pub open spec fn accepted(context: Seq<char>, reply: HttpReply<Seq<char>>) -> Result<(), Seq<char>> {
    match reply {
        HttpReply::Unsent(reason) => Err("Supabase "@ + context + " failed: "@ + reason),
        HttpReply::Answered { status, body } => if succeeded(status) {
            Ok(())
        } else {
            Err("Supabase "@ + context + " error: "@ + body)
        },
    }
}

/// Check what came back for a request: that it succeeded, or the error in words.
pub fn send_ok(context: &str, reply: HttpReply) -> (res: Result<(), String>)
    ensures
        text::outcome(res) == accepted(context@, reply@),
{
    match reply {
        HttpReply::Unsent(reason) => {
            let what = cat3("Supabase ", context, " failed: ");
            Err(cat(what.as_str(), reason.as_str()))
        },
        HttpReply::Answered { status, body } => {
            if is_success(status) {
                Ok(())
            } else {
                let what = cat3("Supabase ", context, " error: ");
                Err(cat(what.as_str(), body.as_str()))
            }
        },
    }
}

/// The contents of rows.
pub open spec fn rows_view(rows: Seq<Tenant>) -> Seq<Tenant<Seq<char>>> {
    rows.map_values(|t: Tenant| t@)
}

/// The contents of rows, or the words in which reading them failed.
pub open spec fn read_view(rows: Result<Vec<Tenant>, String>) -> Result<
    Seq<Tenant<Seq<char>>>,
    Seq<char>,
> {
    match rows {
        Ok(rows) => Ok(rows_view(rows@)),
        Err(e) => Err(e@),
    }
}

/// The content of an outcome that may hold a tenant.
pub open spec fn lookup_view(found: Result<Option<Tenant>, String>) -> Result<
    Option<Tenant<Seq<char>>>,
    Seq<char>,
> {
    match found {
        Ok(Some(t)) => Ok(Some(t@)),
        Ok(None) => Ok(None),
        Err(e) => Err(e@),
    }
}

/// The content of an outcome that holds a tenant.
pub open spec fn tenant_view(created: Result<Tenant, String>) -> Result<
    Tenant<Seq<char>>,
    Seq<char>,
> {
    match created {
        Ok(t) => Ok(t@),
        Err(e) => Err(e@),
    }
}

/// The tenant that a lookup found: the first row, if any.
pub open spec fn found_in(rows: Result<Seq<Tenant<Seq<char>>>, Seq<char>>) -> Result<
    Option<Tenant<Seq<char>>>,
    Seq<char>,
> {
    match rows {
        Ok(rows) => if rows.len() > 0 {
            Ok(Some(rows[0]))
        } else {
            Ok(None)
        },
        Err(e) => Err("Failed to parse tenant response: "@ + e),
    }
}

/// The tenant that an insertion made: the first row, which must be there.
pub open spec fn created_in(rows: Result<Seq<Tenant<Seq<char>>>, Seq<char>>) -> Result<
    Tenant<Seq<char>>,
    Seq<char>,
> {
    match rows {
        Ok(rows) => if rows.len() > 0 {
            Ok(rows[0])
        } else {
            Err("No tenant returned after insert"@)
        },
        Err(e) => Err("Failed to parse created tenant: "@ + e),
    }
}

/// The idle tenants that were found.
pub open spec fn idle_in(rows: Result<Seq<Tenant<Seq<char>>>, Seq<char>>) -> Result<
    Seq<Tenant<Seq<char>>>,
    Seq<char>,
> {
    match rows {
        Ok(rows) => Ok(rows),
        Err(e) => Err("Failed to parse idle tenants: "@ + e),
    }
}

/// The tenant that a lookup found, from the rows of its reply.
pub fn found(rows: Result<Vec<Tenant>, String>) -> (res: Result<Option<Tenant>, String>)
    ensures
        lookup_view(res) == found_in(read_view(rows)),
{
    match rows {
        Ok(tenants) => {
            if tenants.len() > 0 {
                Ok(Some(tenants[0].clone()))
            } else {
                Ok(None)
            }
        },
        Err(e) => Err(cat("Failed to parse tenant response: ", e.as_str())),
    }
}

/// The tenant that an insertion made, from the rows of its reply.
pub fn created(rows: Result<Vec<Tenant>, String>) -> (res: Result<Tenant, String>)
    ensures
        tenant_view(res) == created_in(read_view(rows)),
{
    match rows {
        Ok(tenants) => {
            if tenants.len() > 0 {
                Ok(tenants[0].clone())
            } else {
                Err("No tenant returned after insert".to_owned())
            }
        },
        Err(e) => Err(cat("Failed to parse created tenant: ", e.as_str())),
    }
}

/// The idle tenants, from the rows of the reply.
pub fn idle(rows: Result<Vec<Tenant>, String>) -> (res: Result<Vec<Tenant>, String>)
    ensures
        read_view(res) == idle_in(read_view(rows)),
{
    match rows {
        Ok(tenants) => Ok(tenants),
        Err(e) => Err(cat("Failed to parse idle tenants: ", e.as_str())),
    }
}

/// What the lookup of a user's tenant comes to, from the reply and the rows that were read from it.
/// The rows count only where the request succeeded.
pub fn find_outcome(reply: HttpReply, rows: Result<Vec<Tenant>, String>) -> (res: Result<
    Option<Tenant>,
    String,
>)
    ensures
        lookup_view(res) == match accepted("find_by_user"@, reply@) {
            Ok(_) => found_in(read_view(rows)),
            Err(e) => Err(e),
        },
{
    match send_ok("find_by_user", reply) {
        Ok(_) => found(rows),
        Err(e) => Err(e),
    }
}

/// What the insertion of a tenant comes to, from the reply and the rows that were read from it. The
/// rows count only where the request succeeded.
pub fn create_outcome(reply: HttpReply, rows: Result<Vec<Tenant>, String>) -> (res: Result<
    Tenant,
    String,
>)
    ensures
        tenant_view(res) == match accepted("insert"@, reply@) {
            Ok(_) => created_in(read_view(rows)),
            Err(e) => Err(e),
        },
{
    match send_ok("insert", reply) {
        Ok(_) => created(rows),
        Err(e) => Err(e),
    }
}

/// What the search for idle tenants comes to, from the reply and the rows that were read from it. The
/// rows count only where the request succeeded.
pub fn idle_outcome(reply: HttpReply, rows: Result<Vec<Tenant>, String>) -> (res: Result<
    Vec<Tenant>,
    String,
>)
    ensures
        read_view(res) == match accepted("find_idle"@, reply@) {
            Ok(_) => idle_in(read_view(rows)),
            Err(e) => Err(e),
        },
{
    match send_ok("find_idle", reply) {
        Ok(_) => idle(rows),
        Err(e) => Err(e),
    }
}

/// Where the tenant store is, and the key to it.
#[verifier::ext_equal]
#[derive(Debug)]
pub struct TenantStore<S = String> {
    pub base_url: S,
    pub service_key: S,
}

impl View for TenantStore {
    type V = TenantStore<Seq<char>>;

    open spec fn view(&self) -> TenantStore<Seq<char>> {
        TenantStore { base_url: self.base_url@, service_key: self.service_key@ }
    }
}

impl TenantStore<Seq<char>> {
    /// The store of a project.
    pub open spec fn of(supabase_url: Seq<char>, service_role_key: Seq<char>) -> Self {
        TenantStore {
            base_url: text::trimmed_end(supabase_url, '/') + "/rest/v1"@,
            service_key: service_role_key,
        }
    }

    /// The headers that authorise a request.
    pub open spec fn auth_headers(self) -> Seq<(Seq<char>, Seq<char>)> {
        seq![("apikey"@, self.service_key), ("Authorization"@, "Bearer "@ + self.service_key)]
    }

    /// A request for rows of the table, with its authorisation.
    pub open spec fn request(
        self,
        context: Seq<char>,
        method: Method,
        query: Seq<(Seq<char>, Seq<char>)>,
        headers: Seq<(Seq<char>, Seq<char>)>,
        body: Option<JsonView>,
    ) -> StoreRequestView {
        StoreRequestView {
            context,
            method,
            url: self.base_url + "/tenants"@,
            query,
            headers: headers + self.auth_headers(),
            body,
        }
    }

    /// The lookup of a user's tenant.
    pub open spec fn finds(self, user_id: Seq<char>) -> StoreRequestView {
        self.request(
            "find_by_user"@,
            Method::Get,
            seq![("user_id"@, "eq."@ + user_id), ("select"@, "*"@)],
            seq![],
            None,
        )
    }

    /// The insertion of a tenant for a user.
    pub open spec fn inserts(
        self,
        user_id: Seq<char>,
        tenant_id: Seq<char>,
        engine_token: Seq<char>,
    ) -> StoreRequestView {
        self.request(
            "insert"@,
            Method::Post,
            seq![],
            seq![("Prefer"@, "return=representation"@)],
            Some(JsonView::object()
                .with("user_id"@, JsonView::Text(user_id))
                .with("tenant_id"@, JsonView::Text(tenant_id))
                .with("engine_token"@, JsonView::Text(engine_token))
                .with("status"@, JsonView::Text("provisioning"@))),
        )
    }

    /// The change of one column of one tenant.
    pub open spec fn patches(
        self,
        context: Seq<char>,
        tenant_id: Seq<char>,
        column: Seq<char>,
        value: Seq<char>,
    ) -> StoreRequestView {
        self.request(
            context,
            Method::Patch,
            seq![("tenant_id"@, "eq."@ + tenant_id)],
            seq![],
            Some(JsonView::object().with(column, JsonView::Text(value))),
        )
    }

    /// The search for tenants that are ready and were last active before an instant.
    pub open spec fn searches(self, cutoff: Timestamp) -> StoreRequestView {
        self.request(
            "find_idle"@,
            Method::Get,
            seq![
                ("status"@, "eq.ready"@),
                ("last_active_at"@, "lt."@ + clock::rfc3339_text(cutoff.secs, cutoff.nanos)),
                ("select"@, "*"@),
            ],
            seq![],
            None,
        )
    }

    /// The deletion of one tenant.
    pub open spec fn deletes(self, tenant_id: Seq<char>) -> StoreRequestView {
        self.request(
            "delete"@,
            Method::Delete,
            seq![("tenant_id"@, "eq."@ + tenant_id)],
            seq![],
            None,
        )
    }
}

impl TenantStore {
    /// The store of a project.
    pub fn new(supabase_url: &str, service_role_key: &str) -> (res: Self)
        ensures
            res@ == TenantStore::of(supabase_url@, service_role_key@),
    {
        TenantStore {
            base_url: cat(trim_end(supabase_url, '/'), "/rest/v1"),
            service_key: service_role_key.to_owned(),
        }
    }

    /// Attach the service-role auth headers to a request.
    fn auth(&self, req: StoreRequest) -> (res: StoreRequest)
        ensures
            res@ == (StoreRequestView { headers: req@.headers + self@.auth_headers(), ..req@ }),
    {
        let mut headers = req.headers;
        headers.push(pair("apikey", self.service_key.as_str()));
        let bearer = cat("Bearer ", self.service_key.as_str());
        headers.push(pair("Authorization", bearer.as_str()));
        StoreRequest { headers, ..req }
    }

    fn table(&self) -> (res: String)
        ensures
            res@ == self@.base_url + "/tenants"@,
    {
        cat(self.base_url.as_str(), "/tenants")
    }

    /// Find a tenant by its user.
    pub fn find_by_user(&self, user_id: &str) -> (res: StoreRequest)
        ensures
            res@ == self@.finds(user_id@),
    {
        let mut query: Vec<(String, String)> = Vec::new();
        let of_user = cat("eq.", user_id);
        query.push(pair("user_id", of_user.as_str()));
        query.push(pair("select", "*"));
        self.auth(
            StoreRequest {
                context: "find_by_user".to_owned(),
                method: Method::Get,
                url: self.table(),
                query,
                headers: Vec::new(),
                body: None,
            },
        )
    }

    /// Create a tenant row with an ID and a token that were chosen before.
    pub fn create_with(&self, user_id: &str, tenant_id: &str, engine_token: &str) -> (res: StoreRequest)
        ensures
            res@ == self@.inserts(user_id@, tenant_id@, engine_token@),
    {
        let mut headers: Vec<(String, String)> = Vec::new();
        headers.push(pair("Prefer", "return=representation"));
        let body = Json::object()
            .with_text("user_id", user_id)
            .with_text("tenant_id", tenant_id)
            .with_text("engine_token", engine_token)
            .with_text("status", "provisioning");
        self.auth(
            StoreRequest {
                context: "insert".to_owned(),
                method: Method::Post,
                url: self.table(),
                query: Vec::new(),
                headers,
                body: Some(body),
            },
        )
    }

    /// Create a new tenant row, with an ID and a token drawn by chance.
    pub fn create(&self, user_id: &str) -> (res: StoreRequest)
        ensures
            exists|tenant_id: Seq<char>, engine_token: Seq<char>|
                {
                    &&& tenant::is_drawn_id(tenant_id)
                    &&& tenant::is_drawn_token(engine_token)
                    &&& tenant::is_tenant_id(tenant_id)
                    &&& tenant::is_engine_token(engine_token)
                    &&& res@ == #[trigger] self@.inserts(user_id@, tenant_id, engine_token)
                },
    {
        let tenant_id = generate_tenant_id();
        let engine_token = generate_engine_token();
        self.create_with(user_id, tenant_id.as_str(), engine_token.as_str())
    }

    fn patch(&self, context: &str, tenant_id: &str, column: &str, value: &str) -> (res: StoreRequest)
        ensures
            res@ == self@.patches(context@, tenant_id@, column@, value@),
    {
        let mut query: Vec<(String, String)> = Vec::new();
        let of_tenant = cat("eq.", tenant_id);
        query.push(pair("tenant_id", of_tenant.as_str()));
        self.auth(
            StoreRequest {
                context: context.to_owned(),
                method: Method::Patch,
                url: self.table(),
                query,
                headers: Vec::new(),
                body: Some(Json::object().with_text(column, value)),
            },
        )
    }

    /// Update a tenant's status.
    pub fn update_status(&self, tenant_id: &str, status: TenantStatus) -> (res: StoreRequest)
        ensures
            res@ == self@.patches("update_status"@, tenant_id@, "status"@, status.name()),
    {
        self.patch("update_status", tenant_id, "status", status.to_string().as_str())
    }

    /// Set the instant at which a tenant was last active.
    pub fn touch_last_active_at(&self, tenant_id: &str, now: Timestamp) -> (res: StoreRequest)
        requires
            now.dated(),
        ensures
            res@ == self@.patches(
                "touch_last_active"@,
                tenant_id@,
                "last_active_at"@,
                clock::rfc3339_text(now.secs, now.nanos),
            ),
    {
        self.patch("touch_last_active", tenant_id, "last_active_at", now.to_rfc3339().as_str())
    }

    /// Set the instant at which a tenant was last active to now.
    pub fn touch_last_active(&self, tenant_id: &str) -> (res: StoreRequest)
        ensures
            exists|now: Timestamp|
                clock::is_reading(now) && now.secs >= 0 && now.dated() && res@ == self@.patches(
                    "touch_last_active"@,
                    tenant_id@,
                    "last_active_at"@,
                    #[trigger] clock::rfc3339_text(now.secs, now.nanos),
                ),
    {
        let now = utc_now();
        proof {
            clock::results_are_readings(now);
        }
        self.touch_last_active_at(tenant_id, now)
    }

    /// Find all tenants that are ready and have been idle for longer than the timeout, as of an
    /// instant. There is no such request where the instant so many seconds earlier has no date.
    pub fn find_idle_tenants_at(&self, now: Timestamp, idle_seconds: u64) -> (res: Option<
        StoreRequest,
    >)
        requires
            now.dated(),
        ensures
            res is Some <==> clock::FIRST_SECOND <= now.secs - (idle_seconds as i64)
                <= clock::LAST_SECOND,
            res matches Some(req) ==> req@ == self@.searches(
                Timestamp { secs: (now.secs - (idle_seconds as i64)) as i64, nanos: now.nanos },
            ),
    {
        match now.earlier(idle_seconds as i64) {
            Some(cutoff) => {
                let mut query: Vec<(String, String)> = Vec::new();
                let before = cat("lt.", cutoff.to_rfc3339().as_str());
                query.push(pair("status", "eq.ready"));
                query.push(pair("last_active_at", before.as_str()));
                query.push(pair("select", "*"));
                Some(
                    self.auth(
                        StoreRequest {
                            context: "find_idle".to_owned(),
                            method: Method::Get,
                            url: self.table(),
                            query,
                            headers: Vec::new(),
                            body: None,
                        },
                    ),
                )
            },
            None => None,
        }
    }

    /// Find all tenants that are ready and have been idle for longer than the timeout.
    pub fn find_idle_tenants(&self, idle_seconds: u64) -> (res: Option<StoreRequest>)
        ensures
            exists|now: Timestamp|
                {
                    &&& clock::is_reading(now)
                    &&& now.secs >= 0
                    &&& #[trigger] now.dated()
                    &&& res is Some <==> clock::FIRST_SECOND <= now.secs - (idle_seconds as i64)
                        <= clock::LAST_SECOND
                    &&& res matches Some(req) ==> req@ == self@.searches(
                        Timestamp {
                            secs: (now.secs - (idle_seconds as i64)) as i64,
                            nanos: now.nanos,
                        },
                    )
                },
            idle_seconds <= -clock::FIRST_SECOND ==> res is Some,
    {
        let now = utc_now();
        proof {
            clock::results_are_readings(now);
        }
        self.find_idle_tenants_at(now, idle_seconds)
    }

    /// Delete a tenant row (for account teardown).
    pub fn delete(&self, tenant_id: &str) -> (res: StoreRequest)
        ensures
            res@ == self@.deletes(tenant_id@),
    {
        let mut query: Vec<(String, String)> = Vec::new();
        let of_tenant = cat("eq.", tenant_id);
        query.push(pair("tenant_id", of_tenant.as_str()));
        self.auth(
            StoreRequest {
                context: "delete".to_owned(),
                method: Method::Delete,
                url: self.table(),
                query,
                headers: Vec::new(),
                body: None,
            },
        )
    }
}

/// A slash at the end of the project's URL makes no difference.
pub proof fn trailing_slashes_make_no_difference(
    supabase_url: Seq<char>,
    service_role_key: Seq<char>,
)
    ensures
        TenantStore::of(supabase_url.push('/'), service_role_key) == TenantStore::of(
            supabase_url,
            service_role_key,
        ),
{
    assert(supabase_url.push('/').drop_last() == supabase_url);
}

/// Every request goes to the one table, and its last headers carry the service-role key.
pub proof fn requests_are_authorised(
    store: TenantStore<Seq<char>>,
    context: Seq<char>,
    method: Method,
    query: Seq<(Seq<char>, Seq<char>)>,
    headers: Seq<(Seq<char>, Seq<char>)>,
    body: Option<JsonView>,
)
    ensures
        ({
            let request = store.request(context, method, query, headers, body);
            let n = request.headers.len() as int;
            &&& request.url == store.base_url + "/tenants"@
            &&& n == headers.len() + 2
            &&& request.headers[n - 2] == ("apikey"@, store.service_key)
            &&& request.headers[n - 1] == ("Authorization"@, "Bearer "@ + store.service_key)
        }),
{
}

/// A request succeeded if and only if it was answered with a status of the two hundreds; otherwise
/// it is told what was asked for, and why it failed: the reason, or the body of the answer.
pub proof fn only_two_hundreds_succeed(context: Seq<char>, reply: HttpReply<Seq<char>>)
    ensures
        accepted(context, reply) is Ok <==> (reply matches HttpReply::Answered { status, body }
            && status / 100 == 2),
        reply matches HttpReply::Unsent(reason) ==> accepted(context, reply) == Err::<
            (),
            Seq<char>,
        >("Supabase "@ + context + " failed: "@ + reason),
        reply matches HttpReply::Answered { status, body } ==> status / 100 != 2 ==> accepted(
            context,
            reply,
        ) == Err::<(), Seq<char>>("Supabase "@ + context + " error: "@ + body),
{
}

/// The first row of a lookup or an insertion is the tenant; without rows a lookup finds none, and an
/// insertion failed. All rows of a search are idle tenants. Rows that cannot be read are told as such.
pub proof fn first_rows_count(rows: Seq<Tenant<Seq<char>>>, e: Seq<char>)
    ensures
        rows.len() > 0 ==> found_in(Ok(rows)) == Ok::<Option<Tenant<Seq<char>>>, Seq<char>>(
            Some(rows.first()),
        ),
        rows.len() > 0 ==> created_in(Ok(rows)) == Ok::<Tenant<Seq<char>>, Seq<char>>(
            rows.first(),
        ),
        rows.len() == 0 ==> found_in(Ok(rows)) == Ok::<Option<Tenant<Seq<char>>>, Seq<char>>(None),
        rows.len() == 0 ==> created_in(Ok(rows)) == Err::<Tenant<Seq<char>>, Seq<char>>(
            "No tenant returned after insert"@,
        ),
        idle_in(Ok(rows)) == Ok::<Seq<Tenant<Seq<char>>>, Seq<char>>(rows),
        found_in(Err(e)) == Err::<Option<Tenant<Seq<char>>>, Seq<char>>(
            "Failed to parse tenant response: "@ + e,
        ),
        created_in(Err(e)) == Err::<Tenant<Seq<char>>, Seq<char>>(
            "Failed to parse created tenant: "@ + e,
        ),
        idle_in(Err(e)) == Err::<Seq<Tenant<Seq<char>>>, Seq<char>>(
            "Failed to parse idle tenants: "@ + e,
        ),
{
}

/// Whether a request goes to the project's table of tenants, with its key.
pub open spec fn is_for_tenants(
    request: StoreRequestView,
    store: TenantStore<Seq<char>>,
    own_headers: int,
) -> bool {
    &&& request.url == store.base_url + "/tenants"@
    &&& request.headers.len() == own_headers + 2
    &&& request.headers[own_headers] == ("apikey"@, store.service_key)
    &&& request.headers[own_headers + 1] == ("Authorization"@, "Bearer "@ + store.service_key)
}

/// The store is the REST endpoint of the project, and the key is as it was given.
pub proof fn stores_are_at_the_projects_endpoint(
    supabase_url: Seq<char>,
    service_role_key: Seq<char>,
)
    ensures
        TenantStore::of(supabase_url, service_role_key).base_url == text::trimmed_end(
            supabase_url,
            '/',
        ) + "/rest/v1"@,
        TenantStore::of(supabase_url, service_role_key).service_key == service_role_key,
{
}

/// A lookup reads the rows of one user: all of their columns, and of no other user.
pub proof fn lookups_read_the_users_rows(store: TenantStore<Seq<char>>, user_id: Seq<char>)
    ensures
        ({
            let request = store.finds(user_id);
            &&& is_for_tenants(request, store, 0)
            &&& request.context == "find_by_user"@
            &&& request.method == Method::Get
            &&& request.body is None
            &&& request.query.len() == 2
            &&& request.query[0] == ("user_id"@, "eq."@ + user_id)
            &&& request.query[1] == ("select"@, "*"@)
        }),
{
}

/// An insertion writes a row for the user with the ID and the token, as provisioning, and nothing
/// else, and asks for the row back.
pub proof fn insertions_write_one_row(
    store: TenantStore<Seq<char>>,
    user_id: Seq<char>,
    tenant_id: Seq<char>,
    engine_token: Seq<char>,
)
    ensures
        ({
            let request = store.inserts(user_id, tenant_id, engine_token);
            let row = request.body->0;
            &&& is_for_tenants(request, store, 1)
            &&& request.headers[0] == ("Prefer"@, "return=representation"@)
            &&& request.context == "insert"@
            &&& request.method == Method::Post
            &&& request.query.len() == 0
            &&& request.body is Some
            &&& row is Object
            &&& row->Object_0.dom() == set!["user_id"@, "tenant_id"@, "engine_token"@, "status"@]
            &&& row.at("user_id"@) == JsonView::Text(user_id)
            &&& row.at("tenant_id"@) == JsonView::Text(tenant_id)
            &&& row.at("engine_token"@) == JsonView::Text(engine_token)
            &&& row.at("status"@) == JsonView::Text("provisioning"@)
        }),
{
    reveal_strlit("user_id");
    reveal_strlit("tenant_id");
    reveal_strlit("engine_token");
    reveal_strlit("status");
    assert("user_id"@.len() == 7);
    assert("tenant_id"@.len() == 9);
    assert("engine_token"@.len() == 12);
    assert("status"@.len() == 6);
    let row = store.inserts(user_id, tenant_id, engine_token).body->0;
    assert(row->Object_0.dom() =~= set!["user_id"@, "tenant_id"@, "engine_token"@, "status"@]);
}

/// A change sets one column of one tenant, and no other column, and of no other tenant.
pub proof fn changes_set_one_column_of_one_tenant(
    store: TenantStore<Seq<char>>,
    context: Seq<char>,
    tenant_id: Seq<char>,
    column: Seq<char>,
    value: Seq<char>,
)
    ensures
        ({
            let request = store.patches(context, tenant_id, column, value);
            let row = request.body->0;
            &&& is_for_tenants(request, store, 0)
            &&& request.context == context
            &&& request.method == Method::Patch
            &&& request.query.len() == 1
            &&& request.query[0] == ("tenant_id"@, "eq."@ + tenant_id)
            &&& request.body is Some
            &&& row is Object
            &&& row->Object_0.dom() == set![column]
            &&& row.at(column) == JsonView::Text(value)
        }),
{
    let row = store.patches(context, tenant_id, column, value).body->0;
    assert(row->Object_0.dom() =~= set![column]);
}

/// A search reads the tenants that are ready and were last active before an instant.
pub proof fn searches_read_ready_tenants(store: TenantStore<Seq<char>>, cutoff: Timestamp)
    ensures
        ({
            let request = store.searches(cutoff);
            &&& is_for_tenants(request, store, 0)
            &&& request.context == "find_idle"@
            &&& request.method == Method::Get
            &&& request.body is None
            &&& request.query.len() == 3
            &&& request.query[0] == ("status"@, "eq.ready"@)
            &&& request.query[1] == (
                "last_active_at"@,
                "lt."@ + clock::rfc3339_text(cutoff.secs, cutoff.nanos),
            )
            &&& request.query[2] == ("select"@, "*"@)
        }),
{
}

/// A deletion deletes the row of one tenant, and of no other.
pub proof fn deletions_delete_one_tenant(store: TenantStore<Seq<char>>, tenant_id: Seq<char>)
    ensures
        ({
            let request = store.deletes(tenant_id);
            &&& is_for_tenants(request, store, 0)
            &&& request.context == "delete"@
            &&& request.method == Method::Delete
            &&& request.body is None
            &&& request.query.len() == 1
            &&& request.query[0] == ("tenant_id"@, "eq."@ + tenant_id)
        }),
{
}

/// The search for idle tenants goes by the clock: it reads the tenants that are ready and were last
/// active before an instant that lies as many seconds before a reading of the clock as a tenant may be
/// idle.
pub proof fn idle_searches_go_by_the_clock(
    store: TenantStore,
    idle_seconds: u64,
    request: StoreRequest,
)
    requires
        call_ensures(
            TenantStore::find_idle_tenants,
            (&store, idle_seconds),
            Some(request),
        ),
        idle_seconds <= i64::MAX,
    ensures
        request@.method == Method::Get,
        request@.query[0] == ("status"@, "eq.ready"@),
        exists|now: Timestamp, secs: i64| #[trigger]
            clock::is_reading(now) && secs == now.secs - idle_seconds && request@.query[1] == (
                "last_active_at"@,
                "lt."@ + #[trigger] clock::rfc3339_text(secs, now.nanos),
            ),
{
    let now = choose|now: Timestamp|
        {
            &&& clock::is_reading(now)
            &&& now.secs >= 0
            &&& #[trigger] now.dated()
            &&& clock::FIRST_SECOND <= now.secs - (idle_seconds as i64) <= clock::LAST_SECOND
            &&& request@ == store@.searches(
                Timestamp { secs: (now.secs - (idle_seconds as i64)) as i64, nanos: now.nanos },
            )
        };
    let secs = (now.secs - idle_seconds) as i64;
    assert(clock::is_reading(now) && request@.query[1] == (
        "last_active_at"@,
        "lt."@ + clock::rfc3339_text(secs, now.nanos),
    ));
}

/// Noting a tenant as active sets its last activity, and nothing else, to a reading of the clock.
pub proof fn activity_goes_by_the_clock(
    store: TenantStore,
    tenant_id: &str,
    request: StoreRequest,
)
    requires
        call_ensures(TenantStore::touch_last_active, (&store, tenant_id), request),
    ensures
        request@.method == Method::Patch,
        request@.query.len() == 1,
        request@.query[0] == ("tenant_id"@, "eq."@ + tenant_id@),
        request@.body matches Some(row) && keys_of(row) == set!["last_active_at"@] && exists|
            now: Timestamp,
        | #[trigger]
            clock::is_reading(now) && row.at("last_active_at"@) == JsonView::Text(
                clock::rfc3339_text(now.secs, now.nanos),
            ),
{
    let now = choose|now: Timestamp|
        clock::is_reading(now) && now.secs >= 0 && now.dated() && request@ == store@.patches(
            "touch_last_active"@,
            tenant_id@,
            "last_active_at"@,
            #[trigger] clock::rfc3339_text(now.secs, now.nanos),
        );
    assert(clock::is_reading(now));
    assert(keys_of(request@.body->0) =~= set!["last_active_at"@]);
}

/// The keys of a row.
pub open spec fn keys_of(row: JsonView) -> Set<Seq<char>> {
    row->Object_0.dom()
}

/// Storing a tenant's status sets that column of that tenant, and nothing else, to the status as it is
/// written.
pub proof fn statuses_are_stored(
    store: TenantStore,
    tenant_id: &str,
    status: TenantStatus,
    request: StoreRequest,
)
    requires
        call_ensures(TenantStore::update_status, (&store, tenant_id, status), request),
    ensures
        request@.method == Method::Patch,
        request@.query.len() == 1,
        request@.query[0] == ("tenant_id"@, "eq."@ + tenant_id@),
        request@.body matches Some(row) && keys_of(row) == set!["status"@] && row.at("status"@)
            == JsonView::Text(status.name()),
{
    assert(keys_of(request@.body->0) =~= set!["status"@]);
}

/// A new tenant is for the user, provisioning, and has an ID and a token that were drawn by chance.
pub proof fn new_tenants_are_drawn(store: TenantStore, user_id: &str, request: StoreRequest)
    requires
        call_ensures(TenantStore::create, (&store, user_id), request),
    ensures
        request@.method == Method::Post,
        request@.query.len() == 0,
        request@.body matches Some(row) && {
            &&& row.at("user_id"@) == JsonView::Text(user_id@)
            &&& row.at("status"@) == JsonView::Text("provisioning"@)
            &&& row.at("tenant_id"@) matches JsonView::Text(id)
            &&& tenant::is_drawn_id(id) && tenant::is_tenant_id(id)
            &&& row.at("engine_token"@) matches JsonView::Text(token)
            &&& tenant::is_drawn_token(token) && tenant::is_engine_token(token)
        },
{
    let (tenant_id, engine_token) = choose|tenant_id: Seq<char>, engine_token: Seq<char>|
        {
            &&& tenant::is_drawn_id(tenant_id)
            &&& tenant::is_drawn_token(engine_token)
            &&& tenant::is_tenant_id(tenant_id)
            &&& tenant::is_engine_token(engine_token)
            &&& request@ == #[trigger] store@.inserts(user_id@, tenant_id, engine_token)
        };
    insertions_write_one_row(store@, user_id@, tenant_id, engine_token);
}

/// The other requests: a lookup reads a user's rows, and a deletion deletes a tenant's row.
pub proof fn lookups_and_deletions(
    store: TenantStore,
    user_id: &str,
    tenant_id: &str,
    lookup: StoreRequest,
    deletion: StoreRequest,
)
    requires
        call_ensures(TenantStore::find_by_user, (&store, user_id), lookup),
        call_ensures(TenantStore::delete, (&store, tenant_id), deletion),
    ensures
        lookup@.method == Method::Get,
        lookup@.query[0] == ("user_id"@, "eq."@ + user_id@),
        deletion@.method == Method::Delete,
        deletion@.query.len() == 1,
        deletion@.query[0] == ("tenant_id"@, "eq."@ + tenant_id@),
{
}

} // verus!
