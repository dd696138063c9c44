//! Bearer tokens, JWTs and the keys that they are checked with.
use base64::Engine;
use houston_cloud::auth::{
    after_check, after_reading, explain_decoding, extract_bearer, find_key, read_jwks,
    validate_authenticated_claims, validation_for, verify_hs256, Claims, DecodeError, JwksReply,
    Jwk, JwtAlgorithm, JwtVerifier, TokenFault, VerifyAction, VerifyEvent, VerifyFlow, VerifyStep,
};
use jsonwebtoken::{encode, Algorithm, EncodingKey, Header};
use serde_json::Value;

const TEST_SECRET: &str = "super-secret-jwt-token-for-testing-only";
const TEST_ISSUER: &str = "https://example.supabase.co/auth/v1";

const EC_PRIVATE_KEY: &str = "MIGHAgEAMBMGByqGSM49AgEGCCqGSM49AwEHBG0wawIBAQQgjpsQnnGQmL+YBIffH1136cspYG6+0iY7X1fCE9+E9LKhRANCAAR/zc4ncPbEXUGDy+5v20t7WAczNXvp7xO6z248e9FURcfxRM0bvZt+hyzf7bnuufSzaV1uqQskrYpGIyiFiOWt";
const JWKS: &str = r#"{"keys":[
    {"kty":"oct","kid":"other","k":"c2VjcmV0"},
    {"kty":"EC","crv":"P-256","kid":"key-1","use":"sig","alg":"ES256",
     "x":"f83OJ3D2xF1Bg8vub9tLe1gHMzV76e8Tus9uPHvRVEU",
     "y":"x_FEzRu9m36HLN_tue659LNpXW6pCyStikYjKIWI5a0"}]}"#;

fn now() -> u64 {
    std::time::SystemTime::now().duration_since(std::time::UNIX_EPOCH).unwrap().as_secs()
}

fn claims_json(sub: &str, role: &str, exp_offset: i64) -> Value {
    let now = now();
    let mut claims = serde_json::Map::new();
    claims.insert("sub".to_string(), Value::from(sub));
    claims.insert("aud".to_string(), Value::from("authenticated"));
    claims.insert("iss".to_string(), Value::from(TEST_ISSUER));
    claims.insert("exp".to_string(), Value::from((now as i64 + exp_offset) as u64));
    claims.insert("iat".to_string(), Value::from(now));
    claims.insert("role".to_string(), Value::from(role));
    claims.insert("email".to_string(), Value::from("test@example.com"));
    Value::Object(claims)
}

fn make_hs256_jwt(sub: &str, role: &str, exp_offset: i64) -> String {
    encode(
        &Header::new(Algorithm::HS256),
        &claims_json(sub, role, exp_offset),
        &EncodingKey::from_secret(TEST_SECRET.as_bytes()),
    )
    .unwrap()
}

fn make_es256_jwt(kid: Option<&str>, exp_offset: i64) -> String {
    let der = base64::engine::general_purpose::STANDARD.decode(EC_PRIVATE_KEY).unwrap();
    let mut header = Header::new(Algorithm::ES256);
    header.kid = kid.map(|kid| kid.to_string());
    encode(
        &header,
        &claims_json("user-123", "authenticated", exp_offset),
        &EncodingKey::from_ec_der(&der),
    )
    .unwrap()
}

/// The claims of a token, whatever they say.
fn parse_claims(token: &str) -> Result<Claims, String> {
    let payload = token.rsplit('.').nth(1).ok_or("InvalidToken")?;
    let payload = base64::engine::general_purpose::URL_SAFE_NO_PAD
        .decode(payload)
        .map_err(|e| e.to_string())?;
    let value: Value = serde_json::from_slice(&payload).map_err(|e| e.to_string())?;
    let text = |key: &str| value.get(key).and_then(|v| v.as_str()).map(|s| s.to_string());
    Ok(Claims {
        sub: text("sub").ok_or("missing field `sub`")?,
        aud: text("aud"),
        iss: text("iss"),
        exp: value.get("exp").and_then(|v| v.as_u64()).ok_or("missing field `exp`")?,
        iat: value.get("iat").and_then(|v| v.as_u64()).ok_or("missing field `iat`")?,
        role: text("role").unwrap_or_default(),
        email: text("email"),
    })
}

/// Reads the claims of a checked token, and hands them to the verification.
fn finish(verifier: &JwtVerifier, step: VerifyStep) -> Result<Claims, String> {
    match step {
        VerifyStep::Done(outcome) => outcome,
        VerifyStep::Await(flow) => {
            let claims = match verifier.action(&flow) {
                VerifyAction::ParseClaims(token) => parse_claims(&token),
                other => panic!("unexpected action {:?}", other),
            };
            match verifier.resume(flow, VerifyEvent::Parsed(claims)) {
                VerifyStep::Done(outcome) => outcome,
                VerifyStep::Await(flow) => panic!("unexpected flow {:?}", flow),
            }
        }
    }
}

fn verify_with_secret(token: &str, secret: &str, issuer: Option<&str>) -> Result<Claims, String> {
    let verifier = JwtVerifier::new("https://example.supabase.co", secret);
    finish(&verifier, after_check(token, verify_hs256(token, secret, issuer)))
}

fn claims(sub: &str, role: &str) -> Claims {
    Claims {
        sub: sub.to_string(),
        aud: None,
        iss: None,
        exp: 2,
        iat: 1,
        role: role.to_string(),
        email: None,
    }
}

#[test]
fn valid_hs256_jwt() {
    let token = make_hs256_jwt("user-123", "authenticated", 3600);
    let claims = verify_with_secret(&token, TEST_SECRET, Some(TEST_ISSUER)).unwrap();
    assert_eq!(claims.sub, "user-123");
    assert_eq!(claims.role, "authenticated");
    assert_eq!(claims.email, Some("test@example.com".to_string()));
}

#[test]
fn expired_hs256_jwt_rejected() {
    let token = make_hs256_jwt("user-123", "authenticated", -3600);
    let result = verify_with_secret(&token, TEST_SECRET, Some(TEST_ISSUER));
    assert!(result.is_err(), "expired JWT should be rejected");
}

#[test]
fn wrong_secret_rejected() {
    let token = make_hs256_jwt("user-123", "authenticated", 3600);
    let result = verify_with_secret(&token, "wrong-secret", Some(TEST_ISSUER));
    assert!(result.is_err());
}

#[test]
fn wrong_issuer_rejected() {
    let token = make_hs256_jwt("user-123", "authenticated", 3600);
    let result = verify_with_secret(
        &token,
        TEST_SECRET,
        Some("https://other-project.supabase.co/auth/v1"),
    );
    assert!(result.is_err());
}

#[test]
fn anon_role_rejected() {
    let token = make_hs256_jwt("user-123", "anon", 3600);
    let result = verify_with_secret(&token, TEST_SECRET, Some(TEST_ISSUER));
    assert!(result.is_err());
}

#[test]
fn extract_bearer_works() {
    assert_eq!(extract_bearer("Bearer abc123"), Some("abc123"));
    assert_eq!(extract_bearer("bearer abc123"), Some("abc123"));
    assert_eq!(extract_bearer("Basic abc123"), None);
    assert_eq!(extract_bearer(""), None);
}

#[test]
fn verifier_rejects_garbage_token() {
    let v = JwtVerifier::new("https://example.supabase.co", "secret");
    match v.verify("not.a.jwt") {
        VerifyStep::Done(result) => assert!(result.is_err()),
        VerifyStep::Await(flow) => panic!("unexpected flow {:?}", flow),
    }
}

#[test]
fn bearer_prefix_is_exact() {
    assert_eq!(extract_bearer("Bearer "), Some(""));
    assert_eq!(extract_bearer("Bearer  x"), Some(" x"));
    assert_eq!(extract_bearer("Bearer Bearer x"), Some("Bearer x"));
    assert_eq!(extract_bearer("BEARER x"), None);
    assert_eq!(extract_bearer("Bearer"), None);
    assert_eq!(extract_bearer("Bearer \u{e9}"), Some("\u{e9}"));
}

#[test]
fn claims_need_a_user_and_the_role() {
    assert_eq!(
        validate_authenticated_claims(claims("", "authenticated")).unwrap_err(),
        "JWT missing sub claim"
    );
    assert_eq!(
        validate_authenticated_claims(claims("", "anon")).unwrap_err(),
        "JWT missing sub claim"
    );
    assert_eq!(
        validate_authenticated_claims(claims("u", "service_role")).unwrap_err(),
        "JWT role is not authenticated"
    );
    assert_eq!(validate_authenticated_claims(claims("u", "authenticated")).unwrap().sub, "u");
}

#[test]
fn validation_asks_for_audience_and_issuer() {
    let rules = validation_for(JwtAlgorithm::Es256, Some("iss"));
    assert_eq!(rules.algorithm, JwtAlgorithm::Es256);
    assert_eq!(rules.audience, "authenticated");
    assert_eq!(rules.issuer.as_deref(), Some("iss"));
    assert_eq!(validation_for(JwtAlgorithm::Hs256, None).issuer, None);
}

#[test]
fn verifier_trims_the_url() {
    let v = JwtVerifier::new("https://example.supabase.co//", "secret");
    assert_eq!(v.jwks_url, "https://example.supabase.co/auth/v1/.well-known/jwks.json");
    assert_eq!(v.issuer, "https://example.supabase.co/auth/v1");
    assert_eq!(v.hs256_secret, "secret");
}

#[test]
fn hs256_is_verified_with_the_secret() {
    let v = JwtVerifier::new("https://example.supabase.co", TEST_SECRET);
    let token = make_hs256_jwt("user-123", "authenticated", 3600);
    let claims = finish(&v, v.verify(&token)).unwrap();
    assert_eq!(claims.sub, "user-123");
    assert_eq!(claims.iss.as_deref(), Some(TEST_ISSUER));

    let stranger = JwtVerifier::new("https://other.supabase.co", TEST_SECRET);
    let error = finish(&stranger, stranger.verify(&token)).unwrap_err();
    assert_eq!(error, "JWT verification failed: InvalidIssuer");
}

#[test]
fn failures_are_told_in_words() {
    let expired = make_hs256_jwt("user-123", "authenticated", -3600);
    assert_eq!(
        verify_with_secret(&expired, TEST_SECRET, Some(TEST_ISSUER)).unwrap_err(),
        "JWT verification failed: ExpiredSignature"
    );
    let token = make_hs256_jwt("user-123", "authenticated", 3600);
    assert_eq!(
        verify_with_secret(&token, "wrong-secret", Some(TEST_ISSUER)).unwrap_err(),
        "JWT verification failed: InvalidSignature"
    );
    assert_eq!(
        explain_decoding(Err(DecodeError::Key("k".to_string()))).unwrap_err(),
        "Failed to build key from JWK: k"
    );
    assert_eq!(explain_decoding(Ok(())).unwrap(), None);
}

fn fault(kind: &str, text: &str) -> TokenFault {
    TokenFault { kind: kind.to_string(), text: text.to_string() }
}

#[test]
fn faults_of_claims_wait_until_the_claims_are_read() {
    for kind in ["InvalidToken", "InvalidSignature", "InvalidAlgorithm", "Base64(InvalidPadding)"] {
        assert!(!fault(kind, "t").is_of_claims(), "{kind}");
        assert_eq!(
            explain_decoding(Err(DecodeError::Token(fault(kind, "t")))).unwrap_err(),
            "JWT verification failed: t"
        );
    }
    for kind in [
        "Json(Error(\"EOF\", line: 1, column: 0))",
        "MissingRequiredClaim(\"exp\")",
        "ExpiredSignature",
        "ImmatureSignature",
        "InvalidSubject",
        "InvalidIssuer",
        "InvalidAudience",
    ] {
        assert!(fault(kind, "t").is_of_claims(), "{kind}");
        assert_eq!(
            explain_decoding(Err(DecodeError::Token(fault(kind, "t")))).unwrap().as_deref(),
            Some("JWT verification failed: t")
        );
    }
}

#[test]
fn claims_are_read_before_they_are_judged() {
    let refusal = || Some("JWT verification failed: ExpiredSignature".to_string());
    let unreadable = || Err("JSON error: missing field `sub`".to_string());
    let message = "JWT verification failed: JSON error: missing field `sub`";
    assert_eq!(after_reading(refusal(), unreadable()).unwrap_err(), message);
    assert_eq!(after_reading(None, unreadable()).unwrap_err(), message);
    assert_eq!(
        after_reading(refusal(), Ok(claims("", "anon"))).unwrap_err(),
        "JWT verification failed: ExpiredSignature"
    );
    assert_eq!(
        after_reading(None, Ok(claims("u", "anon"))).unwrap_err(),
        "JWT role is not authenticated"
    );
    assert_eq!(after_reading(None, Ok(claims("u", "authenticated"))).unwrap().sub, "u");
}

#[test]
fn expired_token_with_unreadable_claims_fails_to_be_read() {
    let mut payload = claims_json("user-123", "authenticated", -3600);
    payload.as_object_mut().unwrap().remove("sub");
    let token = encode(
        &Header::new(Algorithm::HS256),
        &payload,
        &EncodingKey::from_secret(TEST_SECRET.as_bytes()),
    )
    .unwrap();
    let refusal = verify_hs256(&token, TEST_SECRET, Some(TEST_ISSUER)).unwrap();
    assert_eq!(refusal.as_deref(), Some("JWT verification failed: ExpiredSignature"));
    assert_eq!(
        verify_with_secret(&token, TEST_SECRET, Some(TEST_ISSUER)).unwrap_err(),
        "JWT verification failed: missing field `sub`"
    );
}

#[test]
fn ignored_fields_are_not_decoded() {
    let payload = format!(
        "{{\"sub\":\"u\",\"aud\":\"authenticated\",\"iss\":\"{TEST_ISSUER}\",\"exp\":{},\"x\":\"",
        now() + 3600
    );
    let mut payload = payload.into_bytes();
    payload.push(0xff);
    payload.extend_from_slice(b"\"}");
    let engine = base64::engine::general_purpose::URL_SAFE_NO_PAD;
    let message = format!("{}.{}", engine.encode(r#"{"alg":"HS256"}"#), engine.encode(&payload));
    let key = EncodingKey::from_secret(TEST_SECRET.as_bytes());
    let signature =
        jsonwebtoken::crypto::sign(message.as_bytes(), &key, Algorithm::HS256).unwrap();
    let token = format!("{message}.{signature}");
    assert_eq!(verify_hs256(&token, TEST_SECRET, Some(TEST_ISSUER)).unwrap(), None);
}

#[test]
fn token_for_another_audience_is_refused() {
    let mut payload = claims_json("user-123", "authenticated", 3600);
    payload["aud"] = Value::from("others");
    let token = encode(
        &Header::new(Algorithm::HS256),
        &payload,
        &EncodingKey::from_secret(TEST_SECRET.as_bytes()),
    )
    .unwrap();
    assert_eq!(
        verify_with_secret(&token, TEST_SECRET, Some(TEST_ISSUER)).unwrap_err(),
        "JWT verification failed: InvalidAudience"
    );
}

#[test]
fn token_without_expiry_is_refused() {
    let mut payload = claims_json("user-123", "authenticated", 3600);
    payload.as_object_mut().unwrap().remove("exp");
    let token = encode(
        &Header::new(Algorithm::HS256),
        &payload,
        &EncodingKey::from_secret(TEST_SECRET.as_bytes()),
    )
    .unwrap();
    assert_eq!(
        verify_hs256(&token, TEST_SECRET, Some(TEST_ISSUER)).unwrap().as_deref(),
        Some("JWT verification failed: Missing required claim: exp")
    );
}

#[test]
fn unsupported_algorithm_is_refused() {
    let v = JwtVerifier::new("https://example.supabase.co", TEST_SECRET);
    let token = encode(
        &Header::new(Algorithm::HS512),
        &claims_json("user-123", "authenticated", 3600),
        &EncodingKey::from_secret(TEST_SECRET.as_bytes()),
    )
    .unwrap();
    match v.verify(&token) {
        VerifyStep::Done(Err(e)) => assert_eq!(e, "Unsupported JWT algorithm: HS512"),
        other => panic!("unexpected step {:?}", other),
    }
}

#[test]
fn invalid_header_is_told() {
    let v = JwtVerifier::new("https://example.supabase.co", TEST_SECRET);
    match v.verify("nonsense") {
        VerifyStep::Done(Err(e)) => assert_eq!(e, "Invalid JWT header: InvalidToken"),
        other => panic!("unexpected step {:?}", other),
    }
}

#[test]
fn es256_needs_a_key_id() {
    let v = JwtVerifier::new("https://example.supabase.co", TEST_SECRET);
    match v.verify(&make_es256_jwt(None, 3600)) {
        VerifyStep::Done(Err(e)) => assert_eq!(e, "ES256 JWT missing kid header"),
        other => panic!("unexpected step {:?}", other),
    }
}

fn answered(status: u16, line: &str, body: &str) -> VerifyEvent {
    VerifyEvent::Fetched(JwksReply::Answered {
        status,
        line: line.to_string(),
        body: Ok(body.as_bytes().to_vec()),
    })
}

fn waiting(step: VerifyStep) -> VerifyFlow {
    match step {
        VerifyStep::Await(flow) => flow,
        VerifyStep::Done(outcome) => panic!("done with {:?}", outcome),
    }
}

#[test]
fn es256_is_verified_with_fetched_keys() {
    let v = JwtVerifier::new("https://example.supabase.co", TEST_SECRET);
    let flow = waiting(v.verify(&make_es256_jwt(Some("key-1"), 3600)));
    assert!(matches!(v.action(&flow), VerifyAction::ReadCache));

    let flow = waiting(v.resume(flow, VerifyEvent::Cached(None)));
    match v.action(&flow) {
        VerifyAction::Fetch(url) => {
            assert_eq!(url, "https://example.supabase.co/auth/v1/.well-known/jwks.json")
        }
        other => panic!("unexpected action {:?}", other),
    }

    let flow = waiting(v.resume(flow, answered(200, "200 OK", JWKS)));
    match v.action(&flow) {
        VerifyAction::WriteCache(keys) => {
            assert_eq!(keys.len(), 2);
            assert_eq!(keys[0].key_id.as_deref(), Some("other"));
            assert_eq!(keys[1].key_id.as_deref(), Some("key-1"));
        }
        other => panic!("unexpected action {:?}", other),
    }

    let claims = finish(&v, v.resume(flow, VerifyEvent::Written)).unwrap();
    assert_eq!(claims.sub, "user-123");
}

#[test]
fn es256_is_verified_with_cached_keys() {
    let v = JwtVerifier::new("https://example.supabase.co", TEST_SECRET);
    let keys = read_jwks(JwksReply::Answered {
        status: 200,
        line: "200 OK".to_string(),
        body: Ok(JWKS.as_bytes().to_vec()),
    })
    .unwrap();
    let flow = waiting(v.verify(&make_es256_jwt(Some("key-1"), 3600)));
    let claims = finish(&v, v.resume(flow, VerifyEvent::Cached(Some(keys)))).unwrap();
    assert_eq!(claims.sub, "user-123");
}

#[test]
fn es256_checks_key_and_expiry() {
    let v = JwtVerifier::new("https://example.supabase.co", TEST_SECRET);
    let keys = || {
        read_jwks(JwksReply::Answered {
            status: 200,
            line: "200 OK".to_string(),
            body: Ok(JWKS.as_bytes().to_vec()),
        })
        .unwrap()
    };
    let unknown = make_es256_jwt(Some("key-2"), 3600);
    assert_eq!(
        v.verify_es256(&unknown, "key-2", &keys()).unwrap_err(),
        "No JWK found for kid: key-2"
    );
    let expired = make_es256_jwt(Some("key-1"), -3600);
    assert_eq!(
        v.verify_es256(&expired, "key-1", &keys()).unwrap().as_deref(),
        Some("JWT verification failed: ExpiredSignature")
    );
    let stranger = JwtVerifier::new("https://other.supabase.co", TEST_SECRET);
    let token = make_es256_jwt(Some("key-1"), 3600);
    assert_eq!(
        stranger.verify_es256(&token, "key-1", &keys()).unwrap().as_deref(),
        Some("JWT verification failed: InvalidIssuer")
    );
    assert_eq!(v.verify_es256(&token, "key-1", &keys()).unwrap(), None);
    assert_eq!(
        v.verify_es256(&token, "other", &keys()).unwrap_err(),
        "JWT verification failed: InvalidAlgorithm"
    );
    let (message, _) = token.rsplit_once('.').unwrap();
    let (_, signature) = expired.rsplit_once('.').unwrap();
    assert_eq!(
        v.verify_es256(&format!("{message}.{signature}"), "key-1", &keys()).unwrap_err(),
        "JWT verification failed: InvalidSignature"
    );
}

#[test]
fn unusable_key_is_told() {
    let v = JwtVerifier::new("https://example.supabase.co", TEST_SECRET);
    let token = make_es256_jwt(Some("bad"), 3600);
    let keys = vec![Jwk { key_id: Some("bad".to_string()), json: "{}".to_string() }];
    let error = v.verify_es256(&token, "bad", &keys).unwrap_err();
    assert!(error.starts_with("Failed to build key from JWK: "), "{error}");
}

#[test]
fn failed_fetches_are_told() {
    let unsent = JwksReply::Unsent("no route".to_string());
    assert_eq!(read_jwks(unsent).unwrap_err(), "Failed to fetch JWKS: no route");
    let refused = JwksReply::Answered {
        status: 404,
        line: "404 Not Found".to_string(),
        body: Ok(JWKS.as_bytes().to_vec()),
    };
    assert_eq!(read_jwks(refused).unwrap_err(), "JWKS fetch returned 404 Not Found");
    let unread = JwksReply::Answered {
        status: 200,
        line: "200 OK".to_string(),
        body: Err("cut off".to_string()),
    };
    assert_eq!(read_jwks(unread).unwrap_err(), "Failed to parse JWKS: cut off");
    let garbled = JwksReply::Answered {
        status: 200,
        line: "200 OK".to_string(),
        body: Ok(b"{".to_vec()),
    };
    assert_eq!(
        read_jwks(garbled).unwrap_err(),
        "Failed to parse JWKS: error decoding response body"
    );
}

#[test]
fn ignored_members_of_a_jwks_are_not_decoded() {
    let mut body = b"{\"x\":\"".to_vec();
    body.push(0xff);
    body.extend_from_slice(b"\",\"keys\":[]}");
    let reply =
        JwksReply::Answered { status: 200, line: "200 OK".to_string(), body: Ok(body) };
    assert!(read_jwks(reply).unwrap().is_empty());
}

/// Runs a verification with a cache, and counts the requests that it sends.
fn run(
    v: &JwtVerifier,
    token: &str,
    cache: &mut Option<Vec<Jwk>>,
    endpoint: (u16, &str),
) -> (Result<Claims, String>, usize) {
    let mut requests = 0;
    let mut step = v.verify(token);
    loop {
        let flow = match step {
            VerifyStep::Done(outcome) => return (outcome, requests),
            VerifyStep::Await(flow) => flow,
        };
        let event = match v.action(&flow) {
            VerifyAction::ReadCache => VerifyEvent::Cached(cache.clone()),
            VerifyAction::Fetch(_) => {
                requests += 1;
                answered(endpoint.0, "status", endpoint.1)
            }
            VerifyAction::WriteCache(keys) => {
                *cache = Some(keys);
                VerifyEvent::Written
            }
            VerifyAction::ParseClaims(token) => VerifyEvent::Parsed(parse_claims(&token)),
        };
        step = v.resume(flow, event);
    }
}

#[test]
fn keys_are_fetched_until_it_succeeds_and_then_kept() {
    let v = JwtVerifier::new("https://example.supabase.co", TEST_SECRET);
    let token = make_es256_jwt(Some("key-1"), 3600);
    let mut cache = None;
    let (outcome, requests) = run(&v, &token, &mut cache, (503, ""));
    assert_eq!(outcome.unwrap_err(), "JWKS fetch returned status");
    assert_eq!(requests, 1);
    assert!(cache.is_none());
    let (outcome, requests) = run(&v, &token, &mut cache, (200, "{"));
    assert!(outcome.is_err());
    assert_eq!(requests, 1);
    assert!(cache.is_none());
    let (outcome, requests) = run(&v, &token, &mut cache, (200, JWKS));
    assert_eq!(outcome.unwrap().sub, "user-123");
    assert_eq!(requests, 1);
    assert_eq!(cache.as_ref().unwrap().len(), 2);
    let (outcome, requests) = run(&v, &token, &mut cache, (500, ""));
    assert_eq!(outcome.unwrap().sub, "user-123");
    assert_eq!(requests, 0);
    let unknown = make_es256_jwt(Some("key-2"), 3600);
    let (outcome, requests) = run(&v, &unknown, &mut cache, (500, ""));
    assert_eq!(outcome.unwrap_err(), "No JWK found for kid: key-2");
    assert_eq!(requests, 0);
    assert_eq!(cache.unwrap().len(), 2);
}

#[test]
fn forged_expired_token_fails_by_its_signature() {
    let token = make_hs256_jwt("user-123", "authenticated", -3600);
    assert_eq!(
        verify_hs256(&token, "wrong-secret", Some(TEST_ISSUER)).unwrap_err(),
        "JWT verification failed: InvalidSignature"
    );
    let stranger = Some("https://other-project.supabase.co/auth/v1");
    assert_eq!(
        verify_hs256(&token, TEST_SECRET, stranger).unwrap().as_deref(),
        Some("JWT verification failed: ExpiredSignature")
    );
}

#[test]
fn first_key_with_the_id_is_taken() {
    let key = |id: Option<&str>, json: &str| Jwk {
        key_id: id.map(|id| id.to_string()),
        json: json.to_string(),
    };
    let keys = vec![key(None, "a"), key(Some("x"), "b"), key(Some("y"), "c"), key(Some("x"), "d")];
    assert_eq!(find_key(&keys, "x").unwrap().json, "b");
    assert_eq!(find_key(&keys, "y").unwrap().json, "c");
    assert!(find_key(&keys, "z").is_none());
}

#[test]
fn events_that_answer_something_else_change_nothing() {
    let v = JwtVerifier::new("https://example.supabase.co", TEST_SECRET);
    let flow = waiting(v.verify(&make_es256_jwt(Some("key-1"), 3600)));
    let flow = waiting(v.resume(flow, VerifyEvent::Written));
    assert!(matches!(v.action(&flow), VerifyAction::ReadCache));
}

#[test]
fn unreadable_claims_are_told() {
    let v = JwtVerifier::new("https://example.supabase.co", TEST_SECRET);
    let flow = VerifyFlow::ReadingClaims { token: "t".to_string(), refusal: None };
    let failed = VerifyEvent::Parsed(Err("missing field `sub`".to_string()));
    match v.resume(flow, failed) {
        VerifyStep::Done(Err(e)) => {
            assert_eq!(e, "JWT verification failed: missing field `sub`")
        }
        other => panic!("unexpected step {:?}", other),
    }
}
