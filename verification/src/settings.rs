//! What the environment says about how to run.
use crate::auth::JwtVerifier;
use crate::header;
use crate::header::is_header_value;
use crate::routes::AppState;
use crate::store::TenantStore;
use crate::text;
use crate::text::{same, split, trim};
use vstd::prelude::*;

verus! {

/// The variables of the environment. Those that have to be set are plain.
#[verifier::ext_equal]
#[derive(Debug)]
pub struct Environment<S = String> {
    pub supabase_url: S,
    pub supabase_service_role_key: S,
    pub supabase_jwt_secret: S,
    /// Defaults to `http://localhost:7777`.
    pub engine_url_template: Option<S>,
    /// For local development only.
    pub dev_engine_token: Option<S>,
    /// Enables Kubernetes.
    pub engine_image: Option<S>,
    /// Enables the Gateway, which hides engine tokens from API responses.
    pub gateway_domain: Option<S>,
    /// Defaults to `https`.
    pub gateway_scheme: Option<S>,
    /// `1` or `true` for gVisor.
    pub gvisor: Option<S>,
    /// Defaults to `standard`.
    pub storage_class: Option<S>,
    /// Defaults to `0.0.0.0:3001`.
    pub bind: Option<S>,
}

impl View for Environment {
    type V = Environment<Seq<char>>;

    open spec fn view(&self) -> Environment<Seq<char>> {
        Environment {
            supabase_url: self.supabase_url@,
            supabase_service_role_key: self.supabase_service_role_key@,
            supabase_jwt_secret: self.supabase_jwt_secret@,
            engine_url_template: text::opt(self.engine_url_template),
            dev_engine_token: text::opt(self.dev_engine_token),
            engine_image: text::opt(self.engine_image),
            gateway_domain: text::opt(self.gateway_domain),
            gateway_scheme: text::opt(self.gateway_scheme),
            gvisor: text::opt(self.gvisor),
            storage_class: text::opt(self.storage_class),
            bind: text::opt(self.bind),
        }
    }
}

/// What follows from the environment.
#[verifier::ext_equal]
#[derive(Debug)]
pub struct Settings<S = String> {
    pub state: AppState<S>,
    /// The address to listen on.
    pub bind: S,
}

impl View for Settings {
    type V = Settings<Seq<char>>;

    open spec fn view(&self) -> Settings<Seq<char>> {
        Settings { state: self.state@, bind: self.bind@ }
    }
}

/// A value, or what holds where there is none.
pub open spec fn or_default(value: Option<Seq<char>>, default: Seq<char>) -> Seq<char> {
    match value {
        Some(text) => text,
        None => default,
    }
}

fn unwrap_or(value: Option<String>, default: &str) -> (res: String)
    ensures
        res@ == or_default(text::opt(value), default@),
{
    match value {
        Some(text) => text,
        None => default.to_owned(),
    }
}

/// The scheme of public URLs: `http` where the environment says so, and `https` in any other case.
pub open spec fn scheme_for(value: Option<Seq<char>>) -> Seq<char> {
    if value == Some("http"@) {
        "http"@
    } else {
        "https"@
    }
}

/// The scheme of public URLs: `http` where the environment says so, and `https` in any other case.
pub fn gateway_scheme(value: Option<&str>) -> (res: String)
    ensures
        res@ == scheme_for(text::opt_str(value)),
{
    match value {
        Some(text) => if same(text, "http") {
            "http".to_owned()
        } else {
            "https".to_owned()
        },
        None => "https".to_owned(),
    }
}

/// Whether a flag is set: it is `1` or `true`.
pub open spec fn is_set(value: Option<Seq<char>>) -> bool {
    value == Some("1"@) || value == Some("true"@)
}

fn flag(value: Option<String>) -> (res: bool)
    ensures
        res == is_set(text::opt(value)),
{
    match value {
        Some(text) => same(text.as_str(), "1") || same(text.as_str(), "true"),
        None => false,
    }
}

impl Settings<Seq<char>> {
    /// What follows from an environment.
    pub open spec fn of(env: Environment<Seq<char>>) -> Self {
        Settings {
            state: AppState {
                tenant_store: TenantStore::of(env.supabase_url, env.supabase_service_role_key),
                jwt_verifier: JwtVerifier::of(env.supabase_url, env.supabase_jwt_secret),
                engine_url_template: or_default(
                    env.engine_url_template,
                    "http://localhost:7777"@,
                ),
                dev_engine_token: env.dev_engine_token,
                engine_image: env.engine_image,
                gateway_domain: env.gateway_domain,
                gateway_scheme: scheme_for(env.gateway_scheme),
                gvisor: is_set(env.gvisor),
                storage_class: or_default(env.storage_class, "standard"@),
            },
            bind: or_default(env.bind, "0.0.0.0:3001"@),
        }
    }
}

impl Settings {
    /// What follows from an environment.
    pub fn new(env: Environment) -> (res: Self)
        ensures
            res@ == Settings::of(env@),
    {
        let tenant_store = TenantStore::new(
            env.supabase_url.as_str(),
            env.supabase_service_role_key.as_str(),
        );
        let jwt_verifier = JwtVerifier::new(
            env.supabase_url.as_str(),
            env.supabase_jwt_secret.as_str(),
        );
        let scheme = match &env.gateway_scheme {
            Some(text) => gateway_scheme(Some(text.as_str())),
            None => gateway_scheme(None),
        };
        Settings {
            state: AppState {
                tenant_store,
                jwt_verifier,
                engine_url_template: unwrap_or(env.engine_url_template, "http://localhost:7777"),
                dev_engine_token: env.dev_engine_token,
                engine_image: env.engine_image,
                gateway_domain: env.gateway_domain,
                gateway_scheme: scheme,
                gvisor: flag(env.gvisor),
                storage_class: unwrap_or(env.storage_class, "standard"),
            },
            bind: unwrap_or(env.bind, "0.0.0.0:3001"),
        }
    }
}

/// Whether a text can be an allowed origin: it is not empty, and it can be a header value.
pub open spec fn is_origin(text: Seq<char>) -> bool {
    text.len() > 0 && header::is_value(text)
}

/// Whether a text is given as an origin but cannot be one.
pub open spec fn is_invalid_origin(text: Seq<char>) -> bool {
    text.len() > 0 && !header::is_value(text)
}

/// The browser origins that a list names: those to allow, and those that are ignored because they
/// cannot be one.
#[derive(Debug)]
pub struct Origins {
    pub allowed: Vec<String>,
    pub ignored: Vec<String>,
}

/// The origins among some texts, in their order.
#[verifier::ext_equal]
pub struct OriginsView {
    pub allowed: Seq<Seq<char>>,
    pub ignored: Seq<Seq<char>>,
}

impl View for Origins {
    type V = OriginsView;

    open spec fn view(&self) -> OriginsView {
        OriginsView { allowed: text::all(self.allowed@), ignored: text::all(self.ignored@) }
    }
}

/// The origins among some texts, in their order.
pub open spec fn origins_among(texts: Seq<Seq<char>>) -> OriginsView {
    OriginsView {
        allowed: texts.filter(|text: Seq<char>| is_origin(text)),
        ignored: texts.filter(|text: Seq<char>| is_invalid_origin(text)),
    }
}

/// The origins among some texts, in their order.
pub fn usable_origins(texts: &Vec<String>) -> (res: Origins)
    ensures
        res@ == origins_among(text::all(texts@)),
{
    let mut allowed: Vec<String> = Vec::new();
    let mut ignored: Vec<String> = Vec::new();
    let n: usize = texts.len();
    let mut i: usize = 0;
    let ghost all = text::all(texts@);
    proof {
        reveal(Seq::filter);
    }
    assert(origins_among(all.take(0)).allowed == text::all(allowed@));
    assert(origins_among(all.take(0)).ignored == text::all(ignored@));
    while i < n
        invariant
            n == texts@.len(),
            i <= n,
            all == text::all(texts@),
            text::all(allowed@) == origins_among(all.take(i as int)).allowed,
            text::all(ignored@) == origins_among(all.take(i as int)).ignored,
        decreases n - i,
    {
        proof {
            reveal(Seq::filter);
            assert(all.take(i + 1).drop_last() == all.take(i as int));
        }
        let ghost allowed_before = allowed@;
        let ghost ignored_before = ignored@;
        let text = texts[i].as_str();
        if text.unicode_len() > 0 {
            if is_header_value(text) {
                allowed.push(texts[i].clone());
                assert(text::all(allowed@) == text::all(allowed_before).push(all[i as int]));
            } else {
                ignored.push(texts[i].clone());
                assert(text::all(ignored@) == text::all(ignored_before).push(all[i as int]));
            }
        }
        i = i + 1;
    }
    assert(all.take(n as int) == all);
    Origins { allowed, ignored }
}

/// The origins in a comma-separated list: its pieces without the white space around them.
pub open spec fn origins_in(list: Seq<char>) -> OriginsView {
    origins_among(text::pieces(list, ',').map_values(|piece: Seq<char>| text::trimmed(piece)))
}

/// The browser origins to allow. Without a list there are none: CORS is then disabled.
pub fn cors_origins(list: Option<&str>) -> (res: Origins)
    ensures
        res@ == match list {
            Some(list) => origins_in(list@),
            None => (OriginsView { allowed: Seq::empty(), ignored: Seq::empty() }),
        },
{
    let list = match list {
        Some(list) => list,
        None => {
            return Origins { allowed: Vec::new(), ignored: Vec::new() };
        },
    };
    let parts = split(list, ',');
    let mut texts: Vec<String> = Vec::new();
    let n: usize = parts.len();
    let mut i: usize = 0;
    let ghost wanted = text::pieces(list@, ',').map_values(
        |piece: Seq<char>| text::trimmed(piece),
    );
    while i < n
        invariant
            n == parts@.len(),
            i <= n,
            wanted.len() == n,
            forall|j: int|
                0 <= j < n ==> #[trigger] wanted[j] == text::trimmed(text::all(parts@)[j]),
            text::all(texts@) == wanted.take(i as int),
        decreases n - i,
    {
        let ghost before = texts@;
        let piece = trim(parts[i].as_str()).to_owned();
        assert(piece@ == wanted[i as int]);
        texts.push(piece);
        assert(text::all(texts@) == text::all(before).push(wanted[i as int]));
        i = i + 1;
        assert(wanted.take(i as int) == wanted.take(i - 1).push(wanted[i - 1]));
    }
    assert(wanted.take(n as int) == wanted);
    usable_origins(&texts)
}

/// Which requests of browsers from other origins are answered. Where no origin is allowed, none is.
#[derive(Debug)]
pub struct CorsPolicy {
    pub origins: Origins,
    pub methods: Vec<String>,
    pub headers: Vec<String>,
}

/// The content of a CORS policy.
#[verifier::ext_equal]
pub struct CorsPolicyView {
    pub origins: OriginsView,
    pub methods: Seq<Seq<char>>,
    pub headers: Seq<Seq<char>>,
}

impl View for CorsPolicy {
    type V = CorsPolicyView;

    open spec fn view(&self) -> CorsPolicyView {
        CorsPolicyView {
            origins: self.origins@,
            methods: text::all(self.methods@),
            headers: text::all(self.headers@),
        }
    }
}

impl CorsPolicyView {
    /// The policy for some origins.
    pub open spec fn of(origins: OriginsView) -> Self {
        CorsPolicyView {
            origins,
            methods: seq!["GET"@, "POST"@, "DELETE"@, "OPTIONS"@],
            headers: seq!["authorization"@, "content-type"@],
        }
    }
}

/// The CORS policy for a list of origins, or without one.
pub fn cors_policy(list: Option<&str>) -> (res: CorsPolicy)
    ensures
        res@ == CorsPolicyView::of(
            match list {
                Some(list) => origins_in(list@),
                None => (OriginsView { allowed: Seq::empty(), ignored: Seq::empty() }),
            },
        ),
{
    let mut methods: Vec<String> = Vec::new();
    methods.push("GET".to_owned());
    methods.push("POST".to_owned());
    methods.push("DELETE".to_owned());
    methods.push("OPTIONS".to_owned());
    let mut headers: Vec<String> = Vec::new();
    headers.push("authorization".to_owned());
    headers.push("content-type".to_owned());
    CorsPolicy { origins: cors_origins(list), methods, headers }
}

/// Public URLs are `http` or `https`, whatever the environment says.
pub proof fn schemes_are_http_or_https(env: Environment<Seq<char>>)
    ensures
        Settings::of(env).state.gateway_scheme == "http"@ || Settings::of(env).state.gateway_scheme
            == "https"@,
{
}

/// Every allowed origin is one that a browser's header can name.
pub proof fn allowed_origins_are_header_values(list: Seq<char>, i: int)
    requires
        0 <= i < origins_in(list).allowed.len(),
    ensures
        is_origin(origins_in(list).allowed[i]),
{
    let texts = text::pieces(list, ',').map_values(|piece: Seq<char>| text::trimmed(piece));
    texts.lemma_filter_pred(|text: Seq<char>| is_origin(text), i);
}

/// The settings follow the environment, variable by variable: what is set is taken as it is, what is
/// not set has its default, and a flag is on where it says `1` or `true`.
pub proof fn settings_follow_the_environment(env: Environment<Seq<char>>)
    ensures
        ({
            let settings = Settings::of(env);
            let state = settings.state;
            let base = text::trimmed_end(env.supabase_url, '/');
            &&& state.tenant_store.base_url == base + "/rest/v1"@
            &&& state.tenant_store.service_key == env.supabase_service_role_key
            &&& state.jwt_verifier.jwks_url == base + "/auth/v1/.well-known/jwks.json"@
            &&& state.jwt_verifier.issuer == base + "/auth/v1"@
            &&& state.jwt_verifier.hs256_secret == env.supabase_jwt_secret
            &&& env.engine_url_template matches Some(template) ==> state.engine_url_template
                == template
            &&& env.engine_url_template is None ==> state.engine_url_template
                == "http://localhost:7777"@
            &&& state.dev_engine_token == env.dev_engine_token
            &&& state.engine_image == env.engine_image
            &&& state.gateway_domain == env.gateway_domain
            &&& env.gateway_scheme == Some("http"@) ==> state.gateway_scheme == "http"@
            &&& env.gateway_scheme != Some("http"@) ==> state.gateway_scheme == "https"@
            &&& state.gvisor <==> env.gvisor == Some("1"@) || env.gvisor == Some("true"@)
            &&& env.storage_class matches Some(class) ==> state.storage_class == class
            &&& env.storage_class is None ==> state.storage_class == "standard"@
            &&& env.bind matches Some(address) ==> settings.bind == address
            &&& env.bind is None ==> settings.bind == "0.0.0.0:3001"@
        }),
{
}

/// Every piece of a list counts, without the white space around it: one that is empty is left out,
/// one that can be a header value is allowed, and any other is ignored. Nothing else is either.
pub proof fn listed_origins_are_allowed(list: Seq<char>, i: int, origin: Seq<char>)
    ensures
        ({
            let parts = text::pieces(list, ',');
            let named = text::trimmed(parts[i]);
            let origins = origins_in(list);
            &&& 0 <= i < parts.len() && named.len() > 0 && header::is_value(named)
                ==> origins.allowed.contains(named) && !origins.ignored.contains(named)
            &&& 0 <= i < parts.len() && named.len() > 0 && !header::is_value(named)
                ==> origins.ignored.contains(named) && !origins.allowed.contains(named)
            &&& origins.allowed.contains(origin) || origins.ignored.contains(origin) ==> origin.len()
                > 0 && exists|k: int|
                0 <= k < parts.len() && origin == text::trimmed(#[trigger] parts[k])
        }),
{
    let parts = text::pieces(list, ',');
    let texts = parts.map_values(|piece: Seq<char>| text::trimmed(piece));
    let good = |text: Seq<char>| is_origin(text);
    let bad = |text: Seq<char>| is_invalid_origin(text);
    let named = text::trimmed(parts[i]);
    let allowed = texts.filter(good);
    let ignored = texts.filter(bad);
    assert(allowed == origins_in(list).allowed && ignored == origins_in(list).ignored);
    assert forall|k: int| 0 <= k < allowed.len() implies is_origin(#[trigger] allowed[k]) by {
        texts.lemma_filter_pred(good, k);
    }
    assert forall|k: int| 0 <= k < ignored.len() implies is_invalid_origin(
        #[trigger] ignored[k],
    ) by {
        texts.lemma_filter_pred(bad, k);
    }
    if 0 <= i < parts.len() {
        assert(texts[i] == named);
        if is_origin(named) {
            texts.lemma_filter_contains(good, i);
        }
        if is_invalid_origin(named) {
            texts.lemma_filter_contains(bad, i);
        }
    }
    if allowed.contains(origin) || ignored.contains(origin) {
        if allowed.contains(origin) {
            texts.lemma_filter_contains_rev(good, origin);
        } else {
            texts.lemma_filter_contains_rev(bad, origin);
        }
        let k = choose|k: int| 0 <= k < texts.len() && texts[k] == origin;
        assert(origin == text::trimmed(parts[k]));
    }
}

/// Whichever origins a policy is for, it allows the methods and headers that the API needs.
pub proof fn policies_allow_what_the_api_needs(origins: OriginsView)
    ensures
        ({
            let policy = CorsPolicyView::of(origins);
            &&& policy.origins == origins
            &&& policy.methods == Seq::empty().push("GET"@).push("POST"@).push("DELETE"@).push(
                "OPTIONS"@,
            )
            &&& policy.headers == Seq::empty().push("authorization"@).push("content-type"@)
        }),
{
}

} // verus!
