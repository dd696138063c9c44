//! What holds of every verification.
use super::{
    Claims, JwksReply, JwtAlgorithm, JwtVerifier, Jwk, TokenFault, TokenHeader, TokenKey,
    ValidationRules, VerifyAction, VerifyActionView, VerifyEvent, VerifyEventView, VerifyFlow,
    VerifyFlowView, VerifyStep, VerifyStepView,
};
use crate::auth;
use crate::text;
use vstd::prelude::*;

verus! {

/// The token is what follows `Bearer ` or `bearer `.
pub proof fn bearer_tokens_are_found(token: Seq<char>)
    ensures
        auth::bearer("Bearer "@ + token) == Some(token),
        auth::bearer("bearer "@ + token) == Some(token),
{
    reveal_strlit("Bearer ");
    reveal_strlit("bearer ");
    assert(("Bearer "@ + token).take(7) == "Bearer "@);
    assert(("bearer "@ + token).take(7) == "bearer "@);
    assert(("Bearer "@ + token).skip(7) == token);
    assert(("bearer "@ + token).skip(7) == token);
}

/// Nothing but what follows `Bearer ` or `bearer ` is taken for a token.
pub proof fn only_bearer_tokens_are_found(header: Seq<char>)
    ensures
        auth::bearer(header) matches Some(token) ==> header == "Bearer "@ + token || header
            == "bearer "@ + token,
{
    reveal_strlit("Bearer ");
    reveal_strlit("bearer ");
    if let Some(token) = auth::bearer(header) {
        assert(header == header.take(7) + header.skip(7));
    }
}

/// A slash at the end of the project's URL makes no difference.
pub proof fn trailing_slashes_make_no_difference(supabase_url: Seq<char>, jwt_secret: Seq<char>)
    ensures
        JwtVerifier::of(supabase_url.push('/'), jwt_secret) == JwtVerifier::of(
            supabase_url,
            jwt_secret,
        ),
{
    assert(supabase_url.push('/').drop_last() == supabase_url);
}

/// A token that says neither ES256 nor HS256 is refused.
pub proof fn other_algorithms_are_refused(
    verifier: JwtVerifier<Seq<char>>,
    token: Seq<char>,
    step: VerifyStepView,
)
    requires
        verifier.may_begin(token, step),
        auth::jwt_header(token) matches Ok(header) ==> header.alg != "ES256"@ && header.alg
            != "HS256"@,
    ensures
        step matches VerifyStep::Done(Err(_)),
{
}

/// The keys that an event brings.
pub open spec fn keys_in(event: VerifyEventView) -> Seq<
    Jwk<Seq<char>>,
> {
    match event {
        VerifyEvent::Cached(Some(keys)) => keys,
        VerifyEvent::Fetched(reply) => match auth::fetched_keys(reply) {
            Ok(keys) => keys,
            Err(_) => Seq::empty(),
        },
        _ => Seq::empty(),
    }
}

/// Whether an event brings a key.
pub open spec fn brings_key(
    event: VerifyEventView,
    json: Seq<char>,
) -> bool {
    exists|i: int| 0 <= i < keys_in(event).len() && (#[trigger] keys_in(event)[i]).json == json
}

/// Whether a key is one of the project: its shared secret, or one that the cache or the project's
/// endpoint brought.
pub open spec fn is_project_key(
    verifier: JwtVerifier<Seq<char>>,
    events: Seq<VerifyEventView>,
    algorithm: JwtAlgorithm,
    key: TokenKey<Seq<char>>,
) -> bool {
    match algorithm {
        JwtAlgorithm::Hs256 => key == TokenKey::Secret(verifier.hs256_secret),
        JwtAlgorithm::Es256 => key matches TokenKey::Jwk(json) && exists|i: int|
            0 <= i < events.len() && brings_key(#[trigger] events[i], json),
    }
}

/// What a token of the project has to meet: its audience are signed-in users, and its issuer is the
/// project's Auth endpoint.
pub open spec fn project_rules(
    verifier: JwtVerifier<Seq<char>>,
    algorithm: JwtAlgorithm,
) -> ValidationRules<Seq<char>> {
    ValidationRules { algorithm, audience: "authenticated"@, issuer: Some(verifier.issuer) }
}

/// Whether a token passes under a key of the project, for the audience of signed-in users and for
/// the project's issuer, where it names them.
pub open spec fn is_checked(
    verifier: JwtVerifier<Seq<char>>,
    events: Seq<VerifyEventView>,
    token: Seq<char>,
) -> bool {
    exists|algorithm: JwtAlgorithm, key: TokenKey<Seq<char>>| #[trigger]
        is_project_key(verifier, events, algorithm, key) && auth::jwt_check(
            token,
            key,
            project_rules(verifier, algorithm),
        ) is Ok
}

/// Whether these are the steps of the verification of a token, under these events.
pub open spec fn is_verification(
    verifier: JwtVerifier<Seq<char>>,
    token: Seq<char>,
    events: Seq<VerifyEventView>,
    steps: Seq<VerifyStepView>,
) -> bool {
    &&& steps.len() == events.len() + 1
    &&& verifier.may_begin(token, steps[0])
    &&& forall|i: int|
        0 <= i < events.len() ==> (#[trigger] steps[i] matches VerifyStep::Await(flow)
            && verifier.may_follow(flow, events[i], steps[i + 1]))
}

/// What holds of a step: it is about the token, which passes where no refusal waits.
pub open spec fn is_sound(
    verifier: JwtVerifier<Seq<char>>,
    events: Seq<VerifyEventView>,
    token: Seq<char>,
    step: VerifyStepView,
) -> bool {
    match step {
        VerifyStep::Await(VerifyFlow::ReadingCache { token: t, .. }) => t == token,
        VerifyStep::Await(VerifyFlow::Fetching { token: t, .. }) => t == token,
        VerifyStep::Await(VerifyFlow::Caching { token: t, keys, .. }) => {
            &&& t == token
            &&& exists|i: int|
                0 <= i < events.len() && (#[trigger] events[i] matches VerifyEvent::Fetched(reply)
                    && auth::fetched_keys(reply) == Ok::<Seq<Jwk<Seq<char>>>, Seq<char>>(keys))
        },
        VerifyStep::Await(VerifyFlow::ReadingClaims { token: t, refusal }) => {
            &&& t == token
            &&& refusal is None ==> is_checked(verifier, events, token)
        },
        VerifyStep::Done(Ok(claims)) => {
            &&& is_checked(verifier, events, token)
            &&& events.len() > 0
            &&& events.last() == VerifyEventView::Parsed(Ok(claims))
            &&& claims.sub.len() > 0
            &&& claims.role == "authenticated"@
        },
        VerifyStep::Done(Err(_)) => true,
    }
}

/// A key that is found is one of the keys.
proof fn found_keys_are_there(keys: Seq<Jwk<Seq<char>>>, kid: Seq<char>)
    requires
        auth::key_for(keys, kid) is Some,
    ensures
        exists|i: int|
            0 <= i < keys.len() && #[trigger] keys[i] == auth::key_for(keys, kid)->0
                && keys[i].key_id == Some(kid),
    decreases keys.len(),
{
    if keys[0].key_id == Some(kid) {
        assert(keys[0] == auth::key_for(keys, kid)->0);
    } else {
        found_keys_are_there(keys.skip(1), kid);
        let i = choose|i: int|
            0 <= i < keys.skip(1).len() && #[trigger] keys.skip(1)[i] == auth::key_for(
                keys.skip(1),
                kid,
            )->0 && keys.skip(1)[i].key_id == Some(kid);
        assert(keys[i + 1] == auth::key_for(keys, kid)->0);
    }
}

/// What was checked stays checked.
proof fn more_events_keep_checks(
    verifier: JwtVerifier<Seq<char>>,
    events: Seq<VerifyEventView>,
    token: Seq<char>,
)
    requires
        events.len() > 0,
        is_checked(verifier, events.drop_last(), token),
    ensures
        is_checked(verifier, events, token),
{
    let before = events.drop_last();
    let (algorithm, key) = choose|algorithm: JwtAlgorithm, key: TokenKey<Seq<char>>| #[trigger]
        is_project_key(verifier, before, algorithm, key) && auth::jwt_check(
            token,
            key,
            project_rules(verifier, algorithm),
        ) is Ok;
    if algorithm == JwtAlgorithm::Es256 {
        let json = key->Jwk_0;
        let i = choose|i: int| 0 <= i < before.len() && brings_key(#[trigger] before[i], json);
        assert(brings_key(events[i], json));
    }
    assert(is_project_key(verifier, events, algorithm, key));
}

/// A check with keys that an event brought leads to the reading of the claims, or to an error.
proof fn key_checks_are_sound(
    verifier: JwtVerifier<Seq<char>>,
    events: Seq<VerifyEventView>,
    token: Seq<char>,
    kid: Seq<char>,
    keys: Seq<Jwk<Seq<char>>>,
    step: VerifyStepView,
    at: int,
)
    requires
        verifier.may_check_with(token, kid, keys, step),
        0 <= at < events.len(),
        match events[at] {
            VerifyEvent::Cached(Some(cached)) => cached == keys,
            VerifyEvent::Fetched(reply) => auth::fetched_keys(reply) == Ok::<
                Seq<Jwk<Seq<char>>>,
                Seq<char>,
            >(keys),
            _ => false,
        },
    ensures
        is_sound(verifier, events, token, step),
        step matches VerifyStep::Done(outcome) ==> outcome is Err,
{
    let result = choose|result: Result<Option<Seq<char>>, Seq<char>>| #[trigger]
        verifier.key_check(token, kid, keys, result) && step == auth::checked(token, result);
    if auth::key_for(keys, kid) is Some && result == Ok::<Option<Seq<char>>, Seq<char>>(None) {
        found_keys_are_there(keys, kid);
        let json = auth::key_for(keys, kid)->0.json;
        let i = choose|i: int|
            0 <= i < keys.len() && #[trigger] keys[i] == auth::key_for(keys, kid)->0
                && keys[i].key_id == Some(kid);
        assert(keys_in(events[at])[i].json == json);
        assert(brings_key(events[at], json));
        assert(is_project_key(verifier, events, JwtAlgorithm::Es256, TokenKey::Jwk(json)));
    }
}

/// Every step of a verification is sound.
proof fn steps_are_sound(
    verifier: JwtVerifier<Seq<char>>,
    token: Seq<char>,
    events: Seq<VerifyEventView>,
    steps: Seq<VerifyStepView>,
)
    requires
        is_verification(verifier, token, events, steps),
    ensures
        is_sound(verifier, events, token, steps.last()),
    decreases events.len(),
{
    if events.len() == 0 {
        let key = TokenKey::Secret(verifier.hs256_secret);
        assert(is_project_key(verifier, events, JwtAlgorithm::Hs256, key));
    } else {
        let before = events.drop_last();
        let n = events.len() - 1;
        let front = steps.drop_last();
        assert forall|i: int| 0 <= i < before.len() implies (
        #[trigger] front[i] matches VerifyStep::Await(flow) && verifier.may_follow(
            flow,
            before[i],
            front[i + 1],
        )) by {
            assert(steps[i] is Await);
        }
        steps_are_sound(verifier, token, before, front);
        assert(front.last() == steps[n]);
        assert(steps[n] is Await);
        let flow = steps[n]->Await_0;
        let step = steps.last();
        assert(verifier.may_follow(flow, events[n], step));
        assert(events[n] == events.last());
        match (flow, events[n]) {
            (VerifyFlow::ReadingCache { kid, .. }, VerifyEvent::Cached(Some(keys))) => {
                key_checks_are_sound(verifier, events, token, kid, keys, step, n);
            },
            (VerifyFlow::Caching { kid, keys, .. }, VerifyEvent::Written) => {
                let at = choose|i: int|
                    0 <= i < before.len() && (#[trigger] before[i] matches VerifyEvent::Fetched(
                        reply,
                    ) && auth::fetched_keys(reply) == Ok::<Seq<Jwk<Seq<char>>>, Seq<char>>(keys));
                assert(events[at] == before[at]);
                key_checks_are_sound(verifier, events, token, kid, keys, step, at);
            },
            (VerifyFlow::Caching { keys, .. }, _) => {
                let at = choose|i: int|
                    0 <= i < before.len() && (#[trigger] before[i] matches VerifyEvent::Fetched(
                        reply,
                    ) && auth::fetched_keys(reply) == Ok::<Seq<Jwk<Seq<char>>>, Seq<char>>(keys));
                assert(events[at] == before[at]);
            },
            (VerifyFlow::ReadingClaims { refusal, .. }, _) => {
                if refusal is None {
                    more_events_keep_checks(verifier, events, token);
                }
            },
            _ => {},
        }
    }
}

/// Whoever is accepted is a signed-in user, whose token was checked: the claims are those of the very
/// token that passes under a key of the project, for the audience of signed-in users and for the
/// project's issuer, where it names them.
pub proof fn accepted_tokens_were_checked(
    verifier: JwtVerifier<Seq<char>>,
    token: Seq<char>,
    events: Seq<VerifyEventView>,
    steps: Seq<VerifyStepView>,
    claims: Claims<Seq<char>>,
)
    requires
        is_verification(verifier, token, events, steps),
        steps.last() == VerifyStepView::Done(Ok(claims)),
    ensures
        claims.sub.len() > 0,
        claims.role == "authenticated"@,
        events.last() == VerifyEventView::Parsed(Ok(claims)),
        is_checked(verifier, events, token),
        steps[steps.len() - 2] == VerifyStepView::Await(
            (VerifyFlow::ReadingClaims { token, refusal: None }),
        ),
{
    steps_are_sound(verifier, token, events, steps);
    let n = events.len() - 1;
    let before = events.drop_last();
    let front = steps.drop_last();
    assert forall|i: int| 0 <= i < before.len() implies (
    #[trigger] front[i] matches VerifyStep::Await(flow) && verifier.may_follow(
        flow,
        before[i],
        front[i + 1],
    )) by {
        assert(steps[i] is Await);
    }
    steps_are_sound(verifier, token, before, front);
    assert(front.last() == steps[n]);
    assert(steps[n] is Await);
}

/// Keys in the cache are used as they are: the project's keys are fetched only where the cache has
/// none, and what goes into the cache is what was fetched.
pub proof fn keys_are_fetched_only_into_an_empty_cache(
    verifier: JwtVerifier<Seq<char>>,
    flow: VerifyFlowView,
    event: VerifyEventView,
    next: VerifyFlowView,
)
    requires
        verifier.may_follow(flow, event, VerifyStep::Await(next)),
        next != flow,
    ensures
        verifier.asks(next) is Fetch ==> verifier.asks(flow) is ReadCache && event
            == VerifyEventView::Cached(None),
        verifier.asks(next) matches VerifyAction::WriteCache(keys) ==> verifier.asks(flow)
            == VerifyActionView::Fetch(verifier.jwks_url) && (
        event matches VerifyEvent::Fetched(reply) && auth::fetched_keys(reply) == Ok::<
            Seq<Jwk<Seq<char>>>,
            Seq<char>,
        >(keys)),
{
}

/// A token whose form or signature is at fault is refused before its claims are read, whatever the
/// clock says.
pub proof fn forged_tokens_are_refused_at_once(
    verifier: JwtVerifier<Seq<char>>,
    token: Seq<char>,
    result: Result<Option<Seq<char>>, Seq<char>>,
)
    requires
        verifier.secret_check(token, result),
        auth::jwt_check(
            token,
            TokenKey::Secret(verifier.hs256_secret),
            auth::rules_for(JwtAlgorithm::Hs256, Some(verifier.issuer)),
        ) matches Err(fault) && !fault.concerns_claims(),
    ensures
        auth::jwt_check(
            token,
            TokenKey::Secret(verifier.hs256_secret),
            auth::rules_for(JwtAlgorithm::Hs256, Some(verifier.issuer)),
        ) matches Err(fault) && result == Err::<Option<Seq<char>>, Seq<char>>(
            "JWT verification failed: "@ + fault.text,
        ),
{
}

/// The keys that the cache holds, if any.
pub type Cache = Option<Seq<Jwk<Seq<char>>>>;

/// A verification together with the cache: what the cache holds before each event, and at the end.
pub struct Verification {
    pub token: Seq<char>,
    pub events: Seq<VerifyEventView>,
    pub steps: Seq<VerifyStepView>,
    pub caches: Seq<Cache>,
}

/// Whether an event is the reply to what a flow asks for, where the cache hands out what it holds.
pub open spec fn is_reply(
    verifier: JwtVerifier<Seq<char>>,
    flow: VerifyFlowView,
    cache: Cache,
    event: VerifyEventView,
) -> bool {
    match verifier.asks(flow) {
        VerifyAction::ReadCache => event == VerifyEventView::Cached(cache),
        VerifyAction::Fetch(_) => event is Fetched,
        VerifyAction::WriteCache(_) => event is Written,
        VerifyAction::ParseClaims(_) => event is Parsed,
    }
}

/// What the cache holds after the reply to what a flow asks for: what was last put into it.
pub open spec fn cache_after(
    verifier: JwtVerifier<Seq<char>>,
    flow: VerifyFlowView,
    cache: Cache,
) -> Cache {
    match verifier.asks(flow) {
        VerifyAction::WriteCache(keys) => Some(keys),
        _ => cache,
    }
}

impl Verification {
    /// Whether this is a verification by the verifier, with a cache that hands out what was last put
    /// into it.
    pub open spec fn is_by(self, verifier: JwtVerifier<Seq<char>>) -> bool {
        &&& is_verification(verifier, self.token, self.events, self.steps)
        &&& self.caches.len() == self.steps.len()
        &&& forall|i: int|
            0 <= i < self.events.len() ==> is_reply(
                verifier,
                (#[trigger] self.steps[i])->Await_0,
                self.caches[i],
                self.events[i],
            ) && self.caches[i + 1] == cache_after(
                verifier,
                self.steps[i]->Await_0,
                self.caches[i],
            )
    }

    /// Whether the verification asks for the project's keys.
    pub open spec fn fetches(self, verifier: JwtVerifier<Seq<char>>) -> bool {
        exists|i: int|
            0 <= i < self.steps.len() && (#[trigger] self.steps[i] matches VerifyStep::Await(flow)
                && verifier.asks(flow) is Fetch)
    }

    /// What the keys come to that the verification gets, where it needs any and has got that far:
    /// those of the cache, or else those that the project's endpoint brings.
    pub open spec fn gets_keys(self, outcome: Result<Seq<Jwk<Seq<char>>>, Seq<char>>) -> bool {
        exists|i: int|
            0 <= i < self.events.len() && match #[trigger] self.events[i] {
                VerifyEvent::Cached(Some(keys)) => outcome == Ok::<
                    Seq<Jwk<Seq<char>>>,
                    Seq<char>,
                >(keys),
                VerifyEvent::Fetched(reply) => outcome == auth::fetched_keys(reply),
                _ => false,
            }
    }
}

/// What holds at a step of a verification that began with an empty cache, or with one that holds
/// keys.
pub open spec fn keeps_cache(
    verifier: JwtVerifier<Seq<char>>,
    before: Cache,
    step: VerifyStepView,
    cache: Cache,
) -> bool {
    match step {
        VerifyStep::Await(flow) => match verifier.asks(flow) {
            VerifyAction::ReadCache => cache == before,
            VerifyAction::Fetch(_) => before is None && cache is None,
            VerifyAction::WriteCache(_) => before is None && cache is None,
            VerifyAction::ParseClaims(_) => before is Some ==> cache == before,
        },
        VerifyStep::Done(_) => before is Some ==> cache == before,
    }
}

/// Every step of a verification keeps what the cache held.
proof fn steps_keep_cache(verifier: JwtVerifier<Seq<char>>, run: Verification, n: int)
    requires
        run.is_by(verifier),
        0 <= n < run.steps.len(),
    ensures
        keeps_cache(verifier, run.caches[0], run.steps[n], run.caches[n]),
    decreases n,
{
    if n > 0 {
        steps_keep_cache(verifier, run, n - 1);
        assert(run.steps[n - 1] is Await);
    }
}

/// Keys that are in the cache stay there: a verification that finds them sends no request, puts
/// nothing into the cache, and checks its token with them.
pub proof fn cached_keys_are_used_and_kept(
    verifier: JwtVerifier<Seq<char>>,
    run: Verification,
    keys: Seq<Jwk<Seq<char>>>,
)
    requires
        run.is_by(verifier),
        run.caches[0] == Some(keys),
    ensures
        !run.fetches(verifier),
        run.caches.last() == Some(keys),
        forall|outcome: Result<Seq<Jwk<Seq<char>>>, Seq<char>>| #[trigger]
            run.gets_keys(outcome) ==> outcome == Ok::<Seq<Jwk<Seq<char>>>, Seq<char>>(keys),
        forall|kid: Seq<char>|
            run.events.len() > 0 && run.steps[0] == VerifyStepView::Await(
                (VerifyFlow::ReadingCache { token: run.token, kid }),
            ) ==> #[trigger] verifier.may_check_with(run.token, kid, keys, run.steps[1]),
{
    assert forall|i: int| 0 <= i < run.steps.len() implies !(
    #[trigger] run.steps[i] matches VerifyStep::Await(flow) && verifier.asks(flow) is Fetch) by {
        steps_keep_cache(verifier, run, i);
    }
    steps_keep_cache(verifier, run, run.steps.len() - 1);
    assert forall|outcome: Result<Seq<Jwk<Seq<char>>>, Seq<char>>| #[trigger]
        run.gets_keys(outcome) implies outcome == Ok::<Seq<Jwk<Seq<char>>>, Seq<char>>(keys) by {
        let i = choose|i: int|
            0 <= i < run.events.len() && match #[trigger] run.events[i] {
                VerifyEvent::Cached(Some(keys)) => outcome == Ok::<
                    Seq<Jwk<Seq<char>>>,
                    Seq<char>,
                >(keys),
                VerifyEvent::Fetched(reply) => outcome == auth::fetched_keys(reply),
                _ => false,
            };
        assert(run.steps[i] is Await);
        steps_keep_cache(verifier, run, i);
    }
    if run.events.len() > 0 {
        assert(run.steps[0] is Await);
    }
}

/// Whether verifications follow one another: each finds the cache as the one before left it.
pub open spec fn follow_one_another(
    verifier: JwtVerifier<Seq<char>>,
    runs: Seq<Verification>,
) -> bool {
    &&& forall|i: int| 0 <= i < runs.len() ==> (#[trigger] runs[i]).is_by(verifier)
    &&& forall|i: int|
        0 < i < runs.len() ==> (#[trigger] runs[i]).caches[0] == runs[i - 1].caches.last()
}

/// Keys that were fetched are in the cache when the verification has put them there, and stay there:
/// a verification that is done with them leaves them to the next.
pub proof fn fetched_keys_are_left_in_the_cache(
    verifier: JwtVerifier<Seq<char>>,
    run: Verification,
    n: int,
    reply: JwksReply<Seq<char>, Seq<u8>>,
    keys: Seq<Jwk<Seq<char>>>,
)
    requires
        run.is_by(verifier),
        0 <= n < run.events.len(),
        run.events[n] == VerifyEventView::Fetched(reply),
        auth::fetched_keys(reply) == Ok::<Seq<Jwk<Seq<char>>>, Seq<char>>(keys),
        run.steps.last() is Done,
    ensures
        run.caches.last() == Some(keys),
{
    assert(run.steps[n] is Await);
    assert(run.steps[n + 1]->Await_0 is Caching);
    assert(n + 1 < run.events.len());
    assert(run.steps[n + 1] is Await);
    assert(run.caches[n + 2] == Some(keys));
    let step = run.steps[n + 2];
    if step is Await {
        assert(step->Await_0 is ReadingClaims);
        assert(n + 2 < run.events.len());
        assert(run.steps[n + 2] is Await);
        assert(run.steps[n + 3] is Done);
        assert(run.caches[n + 3] == Some(keys));
        if n + 3 < run.events.len() {
            assert(run.steps[n + 3] is Await);
        }
    } else if n + 2 < run.events.len() {
        assert(run.steps[n + 2] is Await);
    }
}

/// A fetch that fails ends the verification with its error and puts nothing into the cache.
pub proof fn failed_fetches_store_nothing(
    verifier: JwtVerifier<Seq<char>>,
    run: Verification,
    n: int,
    reply: JwksReply<Seq<char>, Seq<u8>>,
)
    requires
        run.is_by(verifier),
        0 <= n < run.events.len(),
        run.events[n] == VerifyEventView::Fetched(reply),
        auth::fetched_keys(reply) is Err,
    ensures
        run.steps.last() == VerifyStepView::Done(Err(auth::fetched_keys(reply)->Err_0)),
        run.caches.last() is None,
{
    assert(run.steps[n] is Await);
    steps_keep_cache(verifier, run, n);
    assert(run.steps[n + 1] is Done);
    if n + 1 < run.events.len() {
        assert(run.steps[n + 1] is Await);
    }
}

/// A verification that needs keys and finds the cache empty asks the project's endpoint for them.
pub proof fn empty_cache_means_a_fetch(
    verifier: JwtVerifier<Seq<char>>,
    run: Verification,
    kid: Seq<char>,
)
    requires
        run.is_by(verifier),
        run.caches[0] is None,
        run.steps[0] == VerifyStepView::Await(
            (VerifyFlow::ReadingCache { token: run.token, kid }),
        ),
        run.events.len() > 0,
    ensures
        run.steps[1] matches VerifyStep::Await(flow) && verifier.asks(flow)
            == VerifyActionView::Fetch(verifier.jwks_url),
{
    assert(run.steps[0] is Await);
}

/// Keys that a verification got, from the cache or by a request, it leaves in the cache.
proof fn got_keys_are_left_in_the_cache(
    verifier: JwtVerifier<Seq<char>>,
    run: Verification,
    keys: Seq<Jwk<Seq<char>>>,
)
    requires
        run.is_by(verifier),
        run.gets_keys(Ok(keys)),
        run.steps.last() is Done,
    ensures
        run.caches.last() == Some(keys),
{
    let outcome = Ok::<Seq<Jwk<Seq<char>>>, Seq<char>>(keys);
    let i = choose|i: int|
        0 <= i < run.events.len() && match #[trigger] run.events[i] {
            VerifyEvent::Cached(Some(keys)) => outcome == Ok::<Seq<Jwk<Seq<char>>>, Seq<char>>(
                keys,
            ),
            VerifyEvent::Fetched(reply) => outcome == auth::fetched_keys(reply),
            _ => false,
        };
    assert(run.steps[i] is Await);
    steps_keep_cache(verifier, run, i);
    match run.events[i] {
        VerifyEvent::Fetched(reply) => {
            fetched_keys_are_left_in_the_cache(verifier, run, i, reply, keys);
        },
        _ => {
            cached_keys_are_used_and_kept(verifier, run, keys);
        },
    }
}

/// Once a verification has got the project's keys, no later one sends a request, and every later one
/// that needs keys gets the same.
pub proof fn keys_are_fetched_once(
    verifier: JwtVerifier<Seq<char>>,
    runs: Seq<Verification>,
    first: int,
    later: int,
    keys: Seq<Jwk<Seq<char>>>,
)
    requires
        follow_one_another(verifier, runs),
        0 <= first < later < runs.len(),
        runs[first].gets_keys(Ok(keys)),
        runs[first].steps.last() is Done,
    ensures
        !runs[later].fetches(verifier),
        runs[later].caches.last() == Some(keys),
        forall|outcome: Result<Seq<Jwk<Seq<char>>>, Seq<char>>| #[trigger]
            runs[later].gets_keys(outcome) ==> outcome == Ok::<Seq<Jwk<Seq<char>>>, Seq<char>>(
                keys,
            ),
    decreases later - first,
{
    if later > first + 1 {
        keys_are_fetched_once(verifier, runs, first, later - 1, keys);
    } else {
        got_keys_are_left_in_the_cache(verifier, runs[first], keys);
    }
    cached_keys_are_used_and_kept(verifier, runs[later], keys);
}

/// A verification that fails to get the project's keys ends with that error and stores nothing, so
/// that the next one that needs keys asks for them again.
pub proof fn keys_are_fetched_again_after_a_failure(
    verifier: JwtVerifier<Seq<char>>,
    runs: Seq<Verification>,
    first: int,
    error: Seq<char>,
    kid: Seq<char>,
)
    requires
        follow_one_another(verifier, runs),
        0 <= first < runs.len(),
        runs[first].gets_keys(Err(error)),
    ensures
        runs[first].steps.last() == VerifyStepView::Done(Err(error)),
        runs[first].caches.last() is None,
        first + 1 < runs.len() && runs[first + 1].events.len() > 0 && runs[first + 1].steps[0]
            == VerifyStepView::Await(
            (VerifyFlow::ReadingCache { token: runs[first + 1].token, kid }),
        ) ==> runs[first + 1].fetches(verifier),
{
    let run = runs[first];
    let outcome = Err::<Seq<Jwk<Seq<char>>>, Seq<char>>(error);
    let i = choose|i: int|
        0 <= i < run.events.len() && match #[trigger] run.events[i] {
            VerifyEvent::Cached(Some(keys)) => outcome == Ok::<Seq<Jwk<Seq<char>>>, Seq<char>>(
                keys,
            ),
            VerifyEvent::Fetched(reply) => outcome == auth::fetched_keys(reply),
            _ => false,
        };
    failed_fetches_store_nothing(verifier, run, i, run.events[i]->Fetched_0);
    if first + 1 < runs.len() {
        let next = runs[first + 1];
        if next.events.len() > 0 && next.steps[0] == VerifyStepView::Await(
            VerifyFlow::ReadingCache { token: next.token, kid },
        ) {
            empty_cache_means_a_fetch(verifier, next, kid);
            assert(next.steps[1] is Await);
        }
    }
}

/// How many replies a verification still waits for, at most.
pub open spec fn replies_left(step: VerifyStepView) -> nat {
    match step {
        VerifyStep::Done(_) => 0,
        VerifyStep::Await(VerifyFlow::ReadingCache { .. }) => 4,
        VerifyStep::Await(VerifyFlow::Fetching { .. }) => 3,
        VerifyStep::Await(VerifyFlow::Caching { .. }) => 2,
        VerifyStep::Await(VerifyFlow::ReadingClaims { .. }) => 1,
    }
}

/// Every verification comes to an end: each reply to what it asks for brings the end nearer.
pub proof fn verifications_end(
    verifier: JwtVerifier<Seq<char>>,
    flow: VerifyFlowView,
    event: VerifyEventView,
    step: VerifyStepView,
)
    requires
        verifier.may_follow(flow, event, step),
        match verifier.asks(flow) {
            VerifyAction::ReadCache => event is Cached,
            VerifyAction::Fetch(_) => event is Fetched,
            VerifyAction::WriteCache(_) => event is Written,
            VerifyAction::ParseClaims(_) => event is Parsed,
        },
    ensures
        replies_left(step) < replies_left(VerifyStep::Await(flow)),
{
}

/// Claims are taken as they are if and only if they name a user and the role of signed-in users,
/// whatever else they say; otherwise what is missing is told, the user first.
pub proof fn signed_in_users_are_accepted(claims: Claims<Seq<char>>)
    ensures
        claims.sub.len() > 0 && claims.role == "authenticated"@ ==> auth::authenticated(claims)
            == Ok::<Claims<Seq<char>>, Seq<char>>(claims),
        claims.sub.len() == 0 ==> auth::authenticated(claims) == Err::<
            Claims<Seq<char>>,
            Seq<char>,
        >("JWT missing sub claim"@),
        claims.sub.len() > 0 && claims.role != "authenticated"@ ==> auth::authenticated(claims)
            == Err::<Claims<Seq<char>>, Seq<char>>("JWT role is not authenticated"@),
{
}

/// Once the claims of a token have been read: where reading them failed that is told; where a refusal
/// waits it is told; otherwise the claims of a signed-in user are accepted, and no others.
pub proof fn readings_of_claims_decide(
    verifier: JwtVerifier<Seq<char>>,
    token: Seq<char>,
    refusal: Option<Seq<char>>,
    outcome: Result<Claims<Seq<char>>, Seq<char>>,
    step: VerifyStepView,
)
    requires
        verifier.may_follow(
            (VerifyFlow::ReadingClaims { token, refusal }),
            VerifyEventView::Parsed(outcome),
            step,
        ),
    ensures
        verifier.asks((VerifyFlow::ReadingClaims { token, refusal }))
            == VerifyActionView::ParseClaims(token),
        outcome matches Err(e) ==> step == VerifyStepView::Done(
            Err("JWT verification failed: "@ + e),
        ),
        outcome is Ok && refusal is Some ==> step == VerifyStepView::Done(Err(refusal->0)),
        outcome matches Ok(claims) ==> refusal is None ==> claims.sub.len() > 0 ==> claims.role
            == "authenticated"@ ==> step == VerifyStepView::Done(Ok(claims)),
        outcome matches Ok(claims) ==> refusal is None ==> claims.sub.len() == 0 ==> step
            == VerifyStepView::Done(Err("JWT missing sub claim"@)),
        outcome matches Ok(claims) ==> refusal is None ==> claims.sub.len() > 0 ==> claims.role
            != "authenticated"@ ==> step == VerifyStepView::Done(
            Err("JWT role is not authenticated"@),
        ),
{
}

/// The words in which an expired token is refused.
pub open spec fn expired_words() -> Seq<char> {
    "JWT verification failed: "@ + "ExpiredSignature"@
}

/// A check comes to what the token and the key are worth. A key that cannot be used is told. A token
/// that passes is good, or was said to have expired. One that does not is never good; where its form or its
/// signature is at fault it is refused at once, in the words of the fault.
pub proof fn checks_tell_good_tokens(
    token: Seq<char>,
    key: TokenKey<Seq<char>>,
    rules: ValidationRules<Seq<char>>,
    result: Result<Option<Seq<char>>, Seq<char>>,
)
    requires
        auth::may_check(token, key, rules, result),
    ensures
        ({
            let fault = match key {
                TokenKey::Jwk(json) => auth::jwk_fault(json),
                TokenKey::Secret(_) => None,
            };
            let check = auth::jwt_check(token, key, rules);
            &&& fault matches Some(e) ==> result == Err::<Option<Seq<char>>, Seq<char>>(
                "Failed to build key from JWK: "@ + e,
            )
            &&& fault is None && check is Ok ==> result == Ok::<Option<Seq<char>>, Seq<char>>(None)
                || result == Ok::<Option<Seq<char>>, Seq<char>>(Some(expired_words()))
            &&& fault is None && check is Ok && result != Ok::<Option<Seq<char>>, Seq<char>>(None)
                ==> auth::was_said_to_have_expired(token, key, rules)
            &&& check is Err ==> result != Ok::<Option<Seq<char>>, Seq<char>>(None)
            &&& fault is None ==> (check matches Err(f) ==> (f.kind == "InvalidSignature"@ || f.kind
                == "InvalidToken"@ || f.kind == "InvalidAlgorithm"@) ==> result == Err::<
                Option<Seq<char>>,
                Seq<char>,
            >("JWT verification failed: "@ + f.text))
            &&& fault is None ==> (check matches Err(f) ==> (f.kind == "InvalidIssuer"@ || f.kind
                == "InvalidAudience"@) ==> result == Ok::<Option<Seq<char>>, Seq<char>>(
                Some("JWT verification failed: "@ + f.text),
            ) || result == Ok::<Option<Seq<char>>, Seq<char>>(Some(expired_words())))
        }),
{
    reveal_strlit("Json(");
    reveal_strlit("MissingRequiredClaim(");
    reveal_strlit("ExpiredSignature");
    reveal_strlit("ImmatureSignature");
    reveal_strlit("InvalidSubject");
    reveal_strlit("InvalidIssuer");
    reveal_strlit("InvalidAudience");
    reveal_strlit("InvalidSignature");
    reveal_strlit("InvalidToken");
    reveal_strlit("InvalidAlgorithm");
    assert("Json("@.len() == 5 && "Json("@[0] == 'J');
    assert("MissingRequiredClaim("@.len() == 21 && "MissingRequiredClaim("@[0] == 'M');
    assert("ExpiredSignature"@.len() == 16 && "ExpiredSignature"@[0] == 'E');
    assert("ImmatureSignature"@.len() == 17);
    assert("InvalidSubject"@.len() == 14);
    assert("InvalidIssuer"@.len() == 13);
    assert("InvalidAudience"@.len() == 15);
    assert("InvalidSignature"@.len() == 16 && "InvalidSignature"@[0] == 'I');
    assert("InvalidToken"@.len() == 12 && "InvalidToken"@[0] == 'I');
    assert("InvalidAlgorithm"@.len() == 16 && "InvalidAlgorithm"@[0] == 'I');
    assert(forall|s: Seq<char>| #[trigger]
        text::begins_with(s, "Json("@) ==> s[0] == s.take(5)[0]);
    assert(forall|s: Seq<char>| #[trigger]
        text::begins_with(s, "MissingRequiredClaim("@) ==> s.len() >= 21);
}

/// The first key with an ID is taken, and where none has it there is none.
pub proof fn first_keys_with_the_id_are_taken(keys: Seq<Jwk<Seq<char>>>, kid: Seq<char>)
    ensures
        match auth::key_for(keys, kid) {
            Some(key) => exists|i: int|
                0 <= i < keys.len() && #[trigger] keys[i] == key && key.key_id == Some(kid)
                    && forall|j: int| 0 <= j < i ==> (#[trigger] keys[j]).key_id != Some(kid),
            None => forall|i: int| 0 <= i < keys.len() ==> (#[trigger] keys[i]).key_id != Some(kid),
        },
    decreases keys.len(),
{
    if keys.len() > 0 {
        if keys[0].key_id == Some(kid) {
            assert(keys[0] == auth::key_for(keys, kid)->0);
        } else {
            let rest = keys.skip(1);
            first_keys_with_the_id_are_taken(rest, kid);
            match auth::key_for(rest, kid) {
                Some(key) => {
                    let i = choose|i: int|
                        0 <= i < rest.len() && #[trigger] rest[i] == key && key.key_id == Some(kid)
                            && forall|j: int|
                            0 <= j < i ==> (#[trigger] rest[j]).key_id != Some(kid);
                    assert(keys[i + 1] == key);
                    assert forall|j: int| 0 <= j < i + 1 implies (#[trigger] keys[j]).key_id
                        != Some(kid) by {
                        if j > 0 {
                            assert(rest[j - 1] == keys[j]);
                        }
                    }
                },
                None => {
                    assert forall|j: int| 0 <= j < keys.len() implies (#[trigger] keys[j]).key_id
                        != Some(kid) by {
                        if j > 0 {
                            assert(rest[j - 1] == keys[j]);
                        }
                    }
                },
            }
        }
    }
}

/// Keys are fetched if and only if the endpoint answers with a status of the two hundreds and its body
/// can be read as keys; otherwise it is told what failed.
pub proof fn only_good_answers_bring_keys(reply: JwksReply<Seq<char>, Seq<u8>>)
    ensures
        ({
            let outcome = auth::fetched_keys(reply);
            match reply {
                JwksReply::Unsent(reason) => outcome == Err::<Seq<Jwk<Seq<char>>>, Seq<char>>(
                    "Failed to fetch JWKS: "@ + reason,
                ),
                JwksReply::Answered { status, line, body } => if status / 100 != 2 {
                    outcome == Err::<Seq<Jwk<Seq<char>>>, Seq<char>>(
                        "JWKS fetch returned "@ + line,
                    )
                } else if body is Err {
                    outcome == Err::<Seq<Jwk<Seq<char>>>, Seq<char>>(
                        "Failed to parse JWKS: "@ + body->Err_0,
                    )
                } else if auth::jwks_in(body->Ok_0) is None {
                    outcome == Err::<Seq<Jwk<Seq<char>>>, Seq<char>>(
                        "Failed to parse JWKS: error decoding response body"@,
                    )
                } else {
                    outcome == Ok::<Seq<Jwk<Seq<char>>>, Seq<char>>(
                        auth::jwks_in(body->Ok_0)->0,
                    )
                },
            }
        }),
{
}

/// A project's tokens are issued by its Auth endpoint, which has its keys; the shared secret is as it
/// was given.
pub proof fn verifiers_are_the_projects(supabase_url: Seq<char>, jwt_secret: Seq<char>)
    ensures
        ({
            let verifier = JwtVerifier::of(supabase_url, jwt_secret);
            let base = text::trimmed_end(supabase_url, '/');
            &&& verifier.issuer == base + "/auth/v1"@
            &&& verifier.jwks_url == base + "/auth/v1/.well-known/jwks.json"@
            &&& verifier.hs256_secret == jwt_secret
        }),
{
}

/// A verification goes by the algorithm that the token's header names: with ES256 by the keys, of
/// which the header has to name one, and with HS256 by the shared secret. A token without a readable
/// header, or with another algorithm, is refused.
pub proof fn headers_say_how_to_verify(
    verifier: JwtVerifier<Seq<char>>,
    token: Seq<char>,
    step: VerifyStepView,
)
    requires
        verifier.may_begin(token, step),
    ensures
        match auth::jwt_header(token) {
            Err(e) => step == VerifyStepView::Done(Err("Invalid JWT header: "@ + e)),
            Ok(header) => {
                &&& header.alg == "ES256"@ && header.kid is None ==> step == VerifyStepView::Done(
                    Err("ES256 JWT missing kid header"@),
                )
                &&& header.alg == "ES256"@ && header.kid is Some ==> {
                    &&& step == VerifyStepView::Await(
                        VerifyFlow::ReadingCache { token, kid: header.kid->0 },
                    )
                    &&& verifier.asks(step->Await_0) is ReadCache
                }
                &&& header.alg == "HS256"@ ==> exists|result: Result<Option<Seq<char>>, Seq<char>>|
                    #[trigger] auth::may_check(
                        token,
                        TokenKey::Secret(verifier.hs256_secret),
                        project_rules(verifier, JwtAlgorithm::Hs256),
                        result,
                    ) && leads_to(token, result, step)
                &&& header.alg != "ES256"@ && header.alg != "HS256"@ ==> step
                    == VerifyStepView::Done(Err("Unsupported JWT algorithm: "@ + header.alg))
            },
        },
{
    reveal_strlit("ES256");
    reveal_strlit("HS256");
    assert("ES256"@[0] != "HS256"@[0]);
    if let Ok(header) = auth::jwt_header(token) {
        if header.alg == "HS256"@ {
            let result = choose|result: Result<Option<Seq<char>>, Seq<char>>| #[trigger]
                verifier.secret_check(token, result) && step == auth::checked(token, result);
            assert(auth::may_check(
                token,
                TokenKey::Secret(verifier.hs256_secret),
                project_rules(verifier, JwtAlgorithm::Hs256),
                result,
            ));
            assert(leads_to(token, result, step));
        }
    }
}

/// Whether a step is the one that the result of a check leads to: an error is the end; otherwise the
/// claims of the token are read, with the refusal that waits, if any.
pub open spec fn leads_to(
    token: Seq<char>,
    result: Result<Option<Seq<char>>, Seq<char>>,
    step: VerifyStepView,
) -> bool {
    match result {
        Err(e) => step == VerifyStepView::Done(Err(e)),
        Ok(refusal) => step == VerifyStepView::Await(
            VerifyFlow::ReadingClaims { token, refusal },
        ),
    }
}

/// A token is checked with the first key that has its key ID, for the project, once the keys are
/// there; where none has it the token is refused.
pub proof fn tokens_are_checked_with_the_named_key(
    verifier: JwtVerifier<Seq<char>>,
    token: Seq<char>,
    kid: Seq<char>,
    keys: Seq<Jwk<Seq<char>>>,
    step: VerifyStepView,
)
    requires
        verifier.may_follow(
            (VerifyFlow::ReadingCache { token, kid }),
            VerifyEventView::Cached(Some(keys)),
            step,
        ) || verifier.may_follow(
            (VerifyFlow::Caching { token, kid, keys }),
            VerifyEventView::Written,
            step,
        ),
    ensures
        match auth::key_for(keys, kid) {
            None => step == VerifyStepView::Done(Err("No JWK found for kid: "@ + kid)),
            Some(key) => exists|result: Result<Option<Seq<char>>, Seq<char>>| #[trigger]
                auth::may_check(
                    token,
                    TokenKey::Jwk(key.json),
                    project_rules(verifier, JwtAlgorithm::Es256),
                    result,
                ) && leads_to(token, result, step),
        },
{
    assert(verifier.may_check_with(token, kid, keys, step));
    let result = choose|result: Result<Option<Seq<char>>, Seq<char>>| #[trigger]
        verifier.key_check(token, kid, keys, result) && step == auth::checked(token, result);
    if let Some(key) = auth::key_for(keys, kid) {
        assert(auth::may_check(
            token,
            TokenKey::Jwk(key.json),
            project_rules(verifier, JwtAlgorithm::Es256),
            result,
        ));
        assert(leads_to(token, result, step));
    }
}

/// Where the cache has no keys they are asked for at the project's endpoint, put into the cache as they
/// came, and then used; a fetch that fails is told.
pub proof fn missing_keys_are_fetched(
    verifier: JwtVerifier<Seq<char>>,
    token: Seq<char>,
    kid: Seq<char>,
    reply: JwksReply<Seq<char>, Seq<u8>>,
    first: VerifyStepView,
    second: VerifyStepView,
)
    requires
        verifier.may_follow(
            (VerifyFlow::ReadingCache { token, kid }),
            VerifyEventView::Cached(None),
            first,
        ),
        first is Await,
        verifier.may_follow(first->Await_0, VerifyEventView::Fetched(reply), second),
    ensures
        verifier.asks(first->Await_0) == VerifyActionView::Fetch(verifier.jwks_url),
        match auth::fetched_keys(reply) {
            Err(e) => second == VerifyStepView::Done(Err(e)),
            Ok(keys) => second == VerifyStepView::Await(
                (VerifyFlow::Caching { token, kid, keys }),
            ) && verifier.asks(second->Await_0) == VerifyActionView::WriteCache(keys),
        },
{
}

/// A token that is signed with the shared secret and passes lets its user in, unless it has expired.
pub proof fn genuine_hs256_tokens_are_accepted(
    verifier: JwtVerifier<Seq<char>>,
    token: Seq<char>,
    claims: Claims<Seq<char>>,
    first: VerifyStepView,
    second: VerifyStepView,
)
    requires
        auth::jwt_header(token) matches Ok(header) && header.alg == "HS256"@,
        auth::jwt_check(
            token,
            TokenKey::Secret(verifier.hs256_secret),
            project_rules(verifier, JwtAlgorithm::Hs256),
        ) is Ok,
        claims.sub.len() > 0,
        claims.role == "authenticated"@,
        verifier.may_begin(token, first),
        first is Await,
        verifier.may_follow(first->Await_0, VerifyEventView::Parsed(Ok(claims)), second),
    ensures
        verifier.asks(first->Await_0) == VerifyActionView::ParseClaims(token),
        second == VerifyStepView::Done(Ok(claims)) || second == VerifyStepView::Done(
            Err(expired_words()),
        ),
        first == VerifyStepView::Await((VerifyFlow::ReadingClaims { token, refusal: None }))
            ==> second == VerifyStepView::Done(Ok(claims)),
{
    headers_say_how_to_verify(verifier, token, first);
    let rules = project_rules(verifier, JwtAlgorithm::Hs256);
    let key = TokenKey::Secret(verifier.hs256_secret);
    let result = choose|result: Result<Option<Seq<char>>, Seq<char>>| #[trigger]
        auth::may_check(token, key, rules, result) && leads_to(token, result, first);
    checks_tell_good_tokens(token, key, rules, result);
}

/// A token that is signed with the key that it names and passes lets its user in, unless it has
/// expired.
pub proof fn genuine_es256_tokens_are_accepted(
    verifier: JwtVerifier<Seq<char>>,
    token: Seq<char>,
    kid: Seq<char>,
    keys: Seq<Jwk<Seq<char>>>,
    claims: Claims<Seq<char>>,
    first: VerifyStepView,
    second: VerifyStepView,
)
    requires
        auth::key_for(keys, kid) matches Some(key) && auth::jwk_fault(key.json) is None
            && auth::jwt_check(
            token,
            TokenKey::Jwk(key.json),
            project_rules(verifier, JwtAlgorithm::Es256),
        ) is Ok,
        claims.sub.len() > 0,
        claims.role == "authenticated"@,
        verifier.may_follow(
            (VerifyFlow::ReadingCache { token, kid }),
            VerifyEventView::Cached(Some(keys)),
            first,
        ),
        first is Await,
        verifier.may_follow(first->Await_0, VerifyEventView::Parsed(Ok(claims)), second),
    ensures
        verifier.asks(first->Await_0) == VerifyActionView::ParseClaims(token),
        second == VerifyStepView::Done(Ok(claims)) || second == VerifyStepView::Done(
            Err(expired_words()),
        ),
        first == VerifyStepView::Await((VerifyFlow::ReadingClaims { token, refusal: None }))
            ==> second == VerifyStepView::Done(Ok(claims)),
{
    tokens_are_checked_with_the_named_key(verifier, token, kid, keys, first);
    let rules = project_rules(verifier, JwtAlgorithm::Es256);
    let key = TokenKey::Jwk(auth::key_for(keys, kid)->0.json);
    let result = choose|result: Result<Option<Seq<char>>, Seq<char>>| #[trigger]
        auth::may_check(token, key, rules, result) && leads_to(token, result, first);
    checks_tell_good_tokens(token, key, rules, result);
}

} // verus!
