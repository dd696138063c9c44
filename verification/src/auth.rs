//! Supabase JWT verification.
//!
//! Supabase projects sign with ECC keys (ES256) by default: the public keys come from the JWKS of
//! the project's Auth endpoint. A token whose header says HS256 is checked against the project's
//! shared secret instead.
use crate::store::is_success;
use crate::text;
use crate::text::{after_prefix, cat, same, trim_end};
use jsonwebtoken::{decode, jwk, Algorithm, DecodingKey, Validation};
use serde::de::IgnoredAny;
use vstd::prelude::*;

pub mod laws;

verus! {

/// What a token says of its bearer.
#[verifier::ext_equal]
#[derive(Debug)]
pub struct Claims<S = String> {
    /// Supabase user ID (UUID string).
    pub sub: S,
    /// Token audience.
    pub aud: Option<S>,
    /// Token issuer.
    pub iss: Option<S>,
    /// Token expiry (Unix timestamp).
    pub exp: u64,
    /// Issued at.
    pub iat: u64,
    /// Supabase role: "authenticated", "anon", "service_role".
    pub role: S,
    /// User email (optional).
    pub email: Option<S>,
}

impl View for Claims {
    type V = Claims<Seq<char>>;

    open spec fn view(&self) -> Claims<Seq<char>> {
        Claims {
            sub: self.sub@,
            aud: text::opt(self.aud),
            iss: text::opt(self.iss),
            exp: self.exp,
            iat: self.iat,
            role: self.role@,
            email: text::opt(self.email),
        }
    }
}

/// The content of an outcome that holds claims.
pub open spec fn claims_view(outcome: Result<Claims, String>) -> Result<
    Claims<Seq<char>>,
    Seq<char>,
> {
    match outcome {
        Ok(claims) => Ok(claims@),
        Err(e) => Err(e@),
    }
}

/// Claims are those of a signed-in user when they name the user and carry the role for it.
pub open spec fn authenticated(claims: Claims<Seq<char>>) -> Result<Claims<Seq<char>>, Seq<char>> {
    if claims.sub.len() == 0 {
        Err("JWT missing sub claim"@)
    } else if claims.role != "authenticated"@ {
        Err("JWT role is not authenticated"@)
    } else {
        Ok(claims)
    }
}

/// Check that claims are those of a signed-in user.
pub fn validate_authenticated_claims(claims: Claims) -> (res: Result<Claims, String>)
    ensures
        claims_view(res) == authenticated(claims@),
{
    if claims.sub.as_str().is_empty() {
        return Err("JWT missing sub claim".to_owned());
    }
    if !same(claims.role.as_str(), "authenticated") {
        return Err("JWT role is not authenticated".to_owned());
    }
    Ok(claims)
}

/// The token in the value of an Authorization header.
pub open spec fn bearer(header: Seq<char>) -> Option<Seq<char>> {
    if text::begins_with(header, "Bearer "@) || text::begins_with(header, "bearer "@) {
        Some(header.skip(7))
    } else {
        None
    }
}

/// Extract bearer token from an Authorization header value.
pub fn extract_bearer(header: &str) -> (res: Option<&str>)
    ensures
        match res {
            Some(token) => bearer(header@) == Some(token@),
            None => bearer(header@) is None,
        },
{
    proof {
        reveal_strlit("Bearer ");
        reveal_strlit("bearer ");
    }
    match after_prefix(header, "Bearer ") {
        Some(token) => {
            assert(header@.skip(7) == token@);
            Some(token)
        },
        None => match after_prefix(header, "bearer ") {
            Some(token) => {
                assert(header@.skip(7) == token@);
                Some(token)
            },
            None => None,
        },
    }
}

/// The signature algorithms that are accepted.
#[derive(Debug, Clone, Copy, PartialEq, Eq, Structural)]
pub enum JwtAlgorithm {
    Es256,
    Hs256,
}

/// What a token must meet besides its expiry: how it is signed and, where it names them, which
/// audience and which issuer.
#[verifier::ext_equal]
#[derive(Debug)]
pub struct ValidationRules<S = String> {
    pub algorithm: JwtAlgorithm,
    pub audience: S,
    pub issuer: Option<S>,
}

impl View for ValidationRules {
    type V = ValidationRules<Seq<char>>;

    open spec fn view(&self) -> ValidationRules<Seq<char>> {
        ValidationRules {
            algorithm: self.algorithm,
            audience: self.audience@,
            issuer: text::opt(self.issuer),
        }
    }
}

/// The rules for tokens of signed-in users.
pub open spec fn rules_for(algorithm: JwtAlgorithm, issuer: Option<Seq<char>>) -> ValidationRules<
    Seq<char>,
> {
    ValidationRules { algorithm, audience: "authenticated"@, issuer }
}

/// The rules for tokens of signed-in users.
pub fn validation_for(algorithm: JwtAlgorithm, issuer: Option<&str>) -> (res: ValidationRules)
    ensures
        res@ == rules_for(algorithm, text::opt_str(issuer)),
{
    ValidationRules {
        algorithm,
        audience: "authenticated".to_owned(),
        issuer: match issuer {
            Some(issuer) => Some(issuer.to_owned()),
            None => None,
        },
    }
}

/// What a token's header says of how to check it.
#[verifier::ext_equal]
#[derive(Debug)]
pub struct TokenHeader<S = String> {
    /// The name of the signature algorithm.
    pub alg: S,
    /// Which key the token was signed with.
    pub kid: Option<S>,
}

impl View for TokenHeader {
    type V = TokenHeader<Seq<char>>;

    open spec fn view(&self) -> TokenHeader<Seq<char>> {
        TokenHeader { alg: self.alg@, kid: text::opt(self.kid) }
    }
}

/// What `jsonwebtoken::decode_header` makes of a token: the algorithm and the key ID of its header,
/// or its error in words.
pub uninterp spec fn jwt_header(token: Seq<char>) -> Result<TokenHeader<Seq<char>>, Seq<char>>;

/// `jsonwebtoken::decode_header`: the header depends on the token alone and is named `jwt_header`.
/// The algorithm stands as the name that its `Debug` form gives it.
#[verifier::external_body]
fn decode_header(token: &str) -> (res: Result<TokenHeader, String>)
    ensures
        match res {
            Ok(header) => jwt_header(token@) == Ok::<TokenHeader<Seq<char>>, Seq<char>>(header@),
            Err(e) => jwt_header(token@) == Err::<TokenHeader<Seq<char>>, Seq<char>>(e@),
        },
{
    jsonwebtoken::decode_header(token)
        .map(|header| TokenHeader { alg: format!("{:?}", header.alg), kid: header.kid })
        .map_err(|e| e.to_string())
}

/// A public key of a project.
#[verifier::ext_equal]
#[derive(Debug)]
pub struct Jwk<S = String> {
    pub key_id: Option<S>,
    /// The key as JSON text.
    pub json: S,
}

impl View for Jwk {
    type V = Jwk<Seq<char>>;

    open spec fn view(&self) -> Jwk<Seq<char>> {
        Jwk { key_id: text::opt(self.key_id), json: self.json@ }
    }
}

impl Clone for Jwk {
    fn clone(&self) -> (res: Self)
        ensures
            res@ == self@,
    {
        Jwk { key_id: self.key_id.clone(), json: self.json.clone() }
    }
}

/// The contents of keys.
pub open spec fn keys_view(keys: Seq<Jwk>) -> Seq<Jwk<Seq<char>>> {
    keys.map_values(|key: Jwk| key@)
}

/// The keys, in order, that `serde_json` reads from the bytes of a JWKS, where it reads any.
pub uninterp spec fn jwks_in(body: Seq<u8>) -> Option<Seq<Jwk<Seq<char>>>>;

/// `serde_json::from_slice` into a `jsonwebtoken::jwk::JwkSet`: the keys depend on the bytes alone and
/// are named `jwks_in`. Each key stands as its ID and its JSON text.
#[verifier::external_body]
fn parse_jwks(body: &[u8]) -> (res: Option<Vec<Jwk>>)
    ensures
        match res {
            Some(keys) => jwks_in(body@) == Some(keys_view(keys@)),
            None => jwks_in(body@) is None,
        },
{
    let set: jwk::JwkSet = serde_json::from_slice(body).ok()?;
    let text = |key: &jwk::Jwk| serde_json::to_string(key).ok();
    set.keys
        .iter()
        .map(|key| Some(Jwk { key_id: key.common.key_id.clone(), json: text(key)? }))
        .collect()
}

/// The key material that a signature is checked with.
#[verifier::ext_equal]
#[derive(Debug)]
pub enum TokenKey<S = String> {
    /// A shared secret.
    Secret(S),
    /// A public key as JSON text.
    Jwk(S),
}

impl View for TokenKey {
    type V = TokenKey<Seq<char>>;

    open spec fn view(&self) -> TokenKey<Seq<char>> {
        match *self {
            TokenKey::Secret(secret) => TokenKey::Secret(secret@),
            TokenKey::Jwk(json) => TokenKey::Jwk(json@),
        }
    }
}

/// Why `jsonwebtoken` does not take a token.
#[verifier::ext_equal]
#[derive(Debug)]
pub struct TokenFault<S = String> {
    /// What is wrong, as the `Debug` form of its `ErrorKind` says it.
    pub kind: S,
    /// The error in words.
    pub text: S,
}

impl View for TokenFault {
    type V = TokenFault<Seq<char>>;

    open spec fn view(&self) -> TokenFault<Seq<char>> {
        TokenFault { kind: self.kind@, text: self.text@ }
    }
}

impl TokenFault<Seq<char>> {
    /// The token has expired.
    pub open spec fn expired() -> Self {
        TokenFault { kind: "ExpiredSignature"@, text: "ExpiredSignature"@ }
    }

    /// Whether the fault is one that is looked for only after the expiry.
    pub open spec fn comes_after_expiry(self) -> bool {
        ||| self.kind == "InvalidSubject"@
        ||| self.kind == "InvalidIssuer"@
        ||| self.kind == "InvalidAudience"@
    }

    /// Whether the token's claims are at fault, rather than its form or its signature.
    pub open spec fn concerns_claims(self) -> bool {
        ||| text::begins_with(self.kind, "Json("@)
        ||| text::begins_with(self.kind, "MissingRequiredClaim("@)
        ||| self.kind == "ExpiredSignature"@
        ||| self.kind == "ImmatureSignature"@
        ||| self.kind == "InvalidSubject"@
        ||| self.kind == "InvalidIssuer"@
        ||| self.kind == "InvalidAudience"@
    }
}

impl TokenFault {
    /// Whether the token's claims are at fault, rather than its form or its signature.
    pub fn is_of_claims(&self) -> (res: bool)
        ensures
            res == self@.concerns_claims(),
    {
        let kind = self.kind.as_str();
        after_prefix(kind, "Json(").is_some()
            || after_prefix(kind, "MissingRequiredClaim(").is_some()
            || same(kind, "ExpiredSignature")
            || same(kind, "ImmatureSignature")
            || same(kind, "InvalidSubject")
            || same(kind, "InvalidIssuer")
            || same(kind, "InvalidAudience")
    }
}

/// Why a token was not decoded.
#[verifier::ext_equal]
#[derive(Debug)]
pub enum DecodeError<S = String> {
    /// The key could not be used, in words.
    Key(S),
    /// The token did not pass.
    Token(TokenFault<S>),
}

/// The content of the outcome of decoding.
pub open spec fn decoded_view(outcome: Result<(), DecodeError>) -> Result<
    (),
    DecodeError<Seq<char>>,
> {
    match outcome {
        Ok(_) => Ok(()),
        Err(DecodeError::Key(e)) => Err(DecodeError::Key(e@)),
        Err(DecodeError::Token(fault)) => Err(DecodeError::Token(fault@)),
    }
}

/// Why a key cannot be used, in words, where it cannot: its text does not read as a key, or
/// `jsonwebtoken::DecodingKey::from_jwk` refuses it.
pub uninterp spec fn jwk_fault(json: Seq<char>) -> Option<Seq<char>>;

/// `jsonwebtoken::DecodingKey::from_jwk` on the key that `serde_json::from_str` reads: whether it
/// refuses, and in which words, depends on the text alone and is named `jwk_fault`.
#[verifier::external_body]
fn jwk_refusal(json: &str) -> (res: Option<String>)
    ensures
        text::opt(res) == jwk_fault(json@),
{
    match serde_json::from_str(json) {
        Ok(key) => DecodingKey::from_jwk(&key).err().map(|e| e.to_string()),
        Err(e) => Some(e.to_string()),
    }
}

/// What `jsonwebtoken::decode` comes to for a token before its expiry: it takes the token where the
/// signature verifies under the key, the payload is JSON with an expiry, and the issuer and the
/// audience, where the token names them, meet the rules.
pub uninterp spec fn jwt_check(
    token: Seq<char>,
    key: TokenKey<Seq<char>>,
    rules: ValidationRules<Seq<char>>,
) -> Result<(), TokenFault<Seq<char>>>;

/// `jsonwebtoken::decode` with the key and the rules. It comes to what is named `jwt_check`, or says
/// that the token has expired. The expiry is looked at behind the token's form, its signature and the
/// claims that must be there, and before its subject, issuer and audience, so it shows only where
/// nothing was at fault before it. Not stated is when a token counts as expired: that depends on the
/// clock.
#[verifier::external_body]
fn decode_token(token: &str, key: &TokenKey, rules: &ValidationRules) -> (res: Result<
    (),
    TokenFault,
>)
    requires
        key@ matches TokenKey::Jwk(json) ==> jwk_fault(json) is None,
    ensures
        match res {
            Ok(_) => jwt_check(token@, key@, rules@) is Ok,
            Err(fault) => jwt_check(token@, key@, rules@) == Err::<(), TokenFault<Seq<char>>>(
                fault@,
            ) || fault@ == TokenFault::expired() && (jwt_check(token@, key@, rules@) matches Err(
                other,
            ) ==> other.comes_after_expiry()),
        },
{
    let key = match key {
        TokenKey::Secret(secret) => DecodingKey::from_secret(secret.as_bytes()),
        TokenKey::Jwk(json) => DecodingKey::from_jwk(&serde_json::from_str(json).unwrap()).unwrap(),
    };
    let mut validation = Validation::new(match rules.algorithm {
        JwtAlgorithm::Es256 => Algorithm::ES256,
        JwtAlgorithm::Hs256 => Algorithm::HS256,
    });
    validation.set_audience(&[&rules.audience]);
    rules.issuer.iter().for_each(|issuer| validation.set_issuer(&[issuer]));
    decode::<IgnoredAny>(token, &key, &validation)
        .map(|_| ())
        .map_err(|e| TokenFault { kind: format!("{:?}", e.kind()), text: e.to_string() })
}

/// Whether `decode_token` was called with a token, a key and rules, and said that the token has
/// expired.
pub closed spec fn was_said_to_have_expired(
    token: Seq<char>,
    key: TokenKey<Seq<char>>,
    rules: ValidationRules<Seq<char>>,
) -> bool {
    exists|t: &str, k: &TokenKey, r: &ValidationRules, fault: TokenFault|
        {
            &&& #[trigger] call_ensures(decode_token, (t, k, r), Err::<(), TokenFault>(fault))
            &&& t@ == token
            &&& k@ == key
            &&& r@ == rules
            &&& fault@ == TokenFault::expired()
        }
}

/// What decoding comes to for a token before its expiry.
pub open spec fn decoded(
    token: Seq<char>,
    key: TokenKey<Seq<char>>,
    rules: ValidationRules<Seq<char>>,
) -> Result<(), DecodeError<Seq<char>>> {
    if key matches TokenKey::Jwk(json) && jwk_fault(json) is Some {
        Err(DecodeError::Key(jwk_fault(key->Jwk_0)->0))
    } else {
        match jwt_check(token, key, rules) {
            Ok(_) => Ok(()),
            Err(fault) => Err(DecodeError::Token(fault)),
        }
    }
}

/// What decoding may come to: the outcome before the expiry or, where nothing is at fault that comes
/// before it, that the token has expired, where that was said of it.
pub open spec fn may_decode(
    token: Seq<char>,
    key: TokenKey<Seq<char>>,
    rules: ValidationRules<Seq<char>>,
    outcome: Result<(), DecodeError<Seq<char>>>,
) -> bool {
    ||| outcome == decoded(token, key, rules)
    ||| outcome == Err::<(), DecodeError<Seq<char>>>(DecodeError::Token(TokenFault::expired()))
        && was_said_to_have_expired(token, key, rules) && match decoded(token, key, rules) {
        Ok(_) => true,
        Err(DecodeError::Key(_)) => false,
        Err(DecodeError::Token(fault)) => fault.comes_after_expiry(),
    }
}

fn try_decode(token: &str, key: &TokenKey, rules: &ValidationRules) -> (res: Result<
    (),
    DecodeError,
>)
    ensures
        may_decode(token@, key@, rules@, decoded_view(res)),
{
    match key {
        TokenKey::Jwk(json) => match jwk_refusal(json.as_str()) {
            Some(e) => {
                return Err(DecodeError::Key(e));
            },
            None => {},
        },
        TokenKey::Secret(_) => {},
    }
    let outcome = decode_token(token, key, rules);
    assert(call_ensures(decode_token, (token, key, rules), outcome));
    match outcome {
        Ok(_) => Ok(()),
        Err(fault) => Err(DecodeError::Token(fault)),
    }
}

/// What the outcome of decoding means. The claims of a token are read before they are judged: where
/// only they are at fault, the refusal, in words, waits until they have been read.
pub open spec fn decoding(outcome: Result<(), DecodeError<Seq<char>>>) -> Result<
    Option<Seq<char>>,
    Seq<char>,
> {
    match outcome {
        Ok(_) => Ok(None),
        Err(DecodeError::Key(e)) => Err("Failed to build key from JWK: "@ + e),
        Err(DecodeError::Token(fault)) => {
            let refusal = "JWT verification failed: "@ + fault.text;
            if fault.concerns_claims() {
                Ok(Some(refusal))
            } else {
                Err(refusal)
            }
        },
    }
}

/// The content of an outcome that may hold a text.
pub open spec fn signed_view(outcome: Result<Option<String>, String>) -> Result<
    Option<Seq<char>>,
    Seq<char>,
> {
    match outcome {
        Ok(refusal) => Ok(text::opt(refusal)),
        Err(e) => Err(e@),
    }
}

/// What the outcome of decoding means. The claims of a token are read before they are judged: where
/// only they are at fault, the refusal, in words, waits until they have been read.
pub fn explain_decoding(outcome: Result<(), DecodeError>) -> (res: Result<Option<String>, String>)
    ensures
        signed_view(res) == decoding(decoded_view(outcome)),
{
    match outcome {
        Ok(_) => Ok(None),
        Err(DecodeError::Key(e)) => Err(cat("Failed to build key from JWK: ", e.as_str())),
        Err(DecodeError::Token(fault)) => {
            let refusal = cat("JWT verification failed: ", fault.text.as_str());
            if fault.is_of_claims() {
                Ok(Some(refusal))
            } else {
                Err(refusal)
            }
        },
    }
}

/// Whether checking a token under a key and rules may come to a result.
pub open spec fn may_check(
    token: Seq<char>,
    key: TokenKey<Seq<char>>,
    rules: ValidationRules<Seq<char>>,
    result: Result<Option<Seq<char>>, Seq<char>>,
) -> bool {
    exists|outcome: Result<(), DecodeError<Seq<char>>>|
        #[trigger] may_decode(token, key, rules, outcome) && result == decoding(outcome)
}

fn check(token: &str, key: &TokenKey, rules: &ValidationRules) -> (res: Result<
    Option<String>,
    String,
>)
    ensures
        may_check(token@, key@, rules@, signed_view(res)),
{
    let outcome = try_decode(token, key, rules);
    explain_decoding(outcome)
}

/// Verify a legacy HS256 JWT with shared secret. Where the signature holds, the result is `Ok`, with
/// the refusal that follows once the claims have been read, if any: the token has expired, or its
/// audience or issuer, where it names them, is another.
pub fn verify_hs256(token: &str, jwt_secret: &str, issuer: Option<&str>) -> (res: Result<
    Option<String>,
    String,
>)
    ensures
        may_check(
            token@,
            TokenKey::Secret(jwt_secret@),
            rules_for(JwtAlgorithm::Hs256, text::opt_str(issuer)),
            signed_view(res),
        ),
{
    let key = TokenKey::Secret(jwt_secret.to_owned());
    let rules = validation_for(JwtAlgorithm::Hs256, issuer);
    check(token, &key, &rules)
}

/// The first key with an ID, if any.
pub open spec fn key_for(keys: Seq<Jwk<Seq<char>>>, kid: Seq<char>) -> Option<Jwk<Seq<char>>>
    decreases keys.len(),
{
    if keys.len() == 0 {
        None
    } else if keys[0].key_id == Some(kid) {
        Some(keys[0])
    } else {
        key_for(keys.skip(1), kid)
    }
}

/// The first key with an ID, if any.
pub fn find_key<'a>(keys: &'a Vec<Jwk>, kid: &str) -> (res: Option<&'a Jwk>)
    ensures
        match res {
            Some(key) => key_for(keys_view(keys@), kid@) == Some(key@),
            None => key_for(keys_view(keys@), kid@) is None,
        },
{
    let n: usize = keys.len();
    let mut i: usize = 0;
    assert(keys_view(keys@).skip(0) == keys_view(keys@));
    while i < n
        invariant
            n == keys@.len(),
            i <= n,
            key_for(keys_view(keys@), kid@) == key_for(keys_view(keys@).skip(i as int), kid@),
        decreases n - i,
    {
        let ghost rest = keys_view(keys@).skip(i as int);
        assert(rest[0] == keys@[i as int]@);
        assert(rest.skip(1) == keys_view(keys@).skip(i + 1));
        match &keys[i].key_id {
            Some(key_id) => {
                if same(key_id.as_str(), kid) {
                    return Some(&keys[i]);
                }
            },
            None => {},
        }
        i = i + 1;
    }
    None
}

/// Which projects' tokens are accepted, and what they are checked with.
#[verifier::ext_equal]
#[derive(Debug)]
pub struct JwtVerifier<S = String> {
    pub jwks_url: S,
    pub issuer: S,
    pub hs256_secret: S,
}

impl View for JwtVerifier {
    type V = JwtVerifier<Seq<char>>;

    open spec fn view(&self) -> JwtVerifier<Seq<char>> {
        JwtVerifier {
            jwks_url: self.jwks_url@,
            issuer: self.issuer@,
            hs256_secret: self.hs256_secret@,
        }
    }
}

/// What came back for the project's JWKS: nothing, with the reason in words, or a status, the line
/// that states it, and the body or the words in which reading it failed.
#[verifier::ext_equal]
#[derive(Debug)]
pub enum JwksReply<S = String, B = Vec<u8>> {
    Unsent(S),
    Answered { status: u16, line: S, body: Result<B, S> },
}

impl View for JwksReply {
    type V = JwksReply<Seq<char>, Seq<u8>>;

    open spec fn view(&self) -> JwksReply<Seq<char>, Seq<u8>> {
        match *self {
            JwksReply::Unsent(reason) => JwksReply::Unsent(reason@),
            JwksReply::Answered { status, line, body } => JwksReply::Answered {
                status,
                line: line@,
                body: match body {
                    Ok(bytes) => Ok(bytes@),
                    Err(e) => Err(e@),
                },
            },
        }
    }
}

/// The keys that a reply brings, or why it brings none.
pub open spec fn fetched_keys(reply: JwksReply<Seq<char>, Seq<u8>>) -> Result<
    Seq<Jwk<Seq<char>>>,
    Seq<char>,
> {
    match reply {
        JwksReply::Unsent(reason) => Err("Failed to fetch JWKS: "@ + reason),
        JwksReply::Answered { status, line, body } => if !crate::store::succeeded(status) {
            Err("JWKS fetch returned "@ + line)
        } else {
            match body {
                Err(e) => Err("Failed to parse JWKS: "@ + e),
                Ok(body) => match jwks_in(body) {
                    None => Err("Failed to parse JWKS: error decoding response body"@),
                    Some(keys) => Ok(keys),
                },
            }
        },
    }
}

/// The keys that a reply brings, or why it brings none.
pub fn read_jwks(reply: JwksReply) -> (res: Result<Vec<Jwk>, String>)
    ensures
        match res {
            Ok(keys) => fetched_keys(reply@) == Ok::<Seq<Jwk<Seq<char>>>, Seq<char>>(
                keys_view(keys@),
            ),
            Err(e) => fetched_keys(reply@) == Err::<Seq<Jwk<Seq<char>>>, Seq<char>>(e@),
        },
{
    match reply {
        JwksReply::Unsent(reason) => Err(cat("Failed to fetch JWKS: ", reason.as_str())),
        JwksReply::Answered { status, line, body } => {
            if !is_success(status) {
                return Err(cat("JWKS fetch returned ", line.as_str()));
            }
            match body {
                Err(e) => Err(cat("Failed to parse JWKS: ", e.as_str())),
                Ok(body) => match parse_jwks(body.as_slice()) {
                    None => Err("Failed to parse JWKS: error decoding response body".to_owned()),
                    Some(keys) => Ok(keys),
                },
            }
        },
    }
}

/// Where a verification stands: which reply it waits for.
#[verifier::ext_equal]
#[derive(Debug)]
pub enum VerifyFlow<S = String, K = Vec<Jwk>> {
    /// The keys may be in the cache.
    ReadingCache { token: S, kid: S },
    /// The keys are being fetched.
    Fetching { token: S, kid: S },
    /// The keys are being put into the cache.
    Caching { token: S, kid: S, keys: K },
    /// The claims of a token, of which the signature holds, are being read. `refusal` is what they
    /// fail to meet, if anything, in words.
    ReadingClaims { token: S, refusal: Option<S> },
}

/// The content of where a verification stands.
pub type VerifyFlowView = VerifyFlow<Seq<char>, Seq<Jwk<Seq<char>>>>;

impl View for VerifyFlow {
    type V = VerifyFlowView;

    open spec fn view(&self) -> VerifyFlowView {
        match *self {
            VerifyFlow::ReadingCache { token, kid } => VerifyFlow::ReadingCache {
                token: token@,
                kid: kid@,
            },
            VerifyFlow::Fetching { token, kid } => VerifyFlow::Fetching { token: token@, kid: kid@ },
            VerifyFlow::Caching { token, kid, keys } => VerifyFlow::Caching {
                token: token@,
                kid: kid@,
                keys: keys_view(keys@),
            },
            VerifyFlow::ReadingClaims { token, refusal } => VerifyFlow::ReadingClaims {
                token: token@,
                refusal: text::opt(refusal),
            },
        }
    }
}

/// A verification that waits for a reply, or the end of one.
#[verifier::ext_equal]
#[derive(Debug)]
pub enum VerifyStep<S = String, K = Vec<Jwk>> {
    Await(VerifyFlow<S, K>),
    Done(Result<Claims<S>, S>),
}

/// The content of a step of a verification.
pub type VerifyStepView = VerifyStep<Seq<char>, Seq<Jwk<Seq<char>>>>;

impl View for VerifyStep {
    type V = VerifyStepView;

    open spec fn view(&self) -> VerifyStepView {
        match *self {
            VerifyStep::Await(flow) => VerifyStep::Await(flow@),
            VerifyStep::Done(outcome) => VerifyStep::Done(claims_view(outcome)),
        }
    }
}

/// What a verification asks for.
#[verifier::ext_equal]
#[derive(Debug)]
pub enum VerifyAction<S = String, K = Vec<Jwk>> {
    /// Look the keys up in the cache.
    ReadCache,
    /// Fetch the JWKS from a URL.
    Fetch(S),
    /// Put the keys into the cache.
    WriteCache(K),
    /// Read the claims of a token, whatever they say.
    ParseClaims(S),
}

/// The content of what a verification asks for.
pub type VerifyActionView = VerifyAction<Seq<char>, Seq<Jwk<Seq<char>>>>;

impl View for VerifyAction {
    type V = VerifyActionView;

    open spec fn view(&self) -> VerifyActionView {
        match *self {
            VerifyAction::ReadCache => VerifyAction::ReadCache,
            VerifyAction::Fetch(url) => VerifyAction::Fetch(url@),
            VerifyAction::WriteCache(keys) => VerifyAction::WriteCache(keys_view(keys@)),
            VerifyAction::ParseClaims(token) => VerifyAction::ParseClaims(token@),
        }
    }
}

/// What came back.
#[verifier::ext_equal]
#[derive(Debug)]
pub enum VerifyEvent<S = String, K = Vec<Jwk>, B = Vec<u8>> {
    /// What the cache holds.
    Cached(Option<K>),
    Fetched(JwksReply<S, B>),
    Written,
    /// The claims of the token, or the words in which reading them failed.
    Parsed(Result<Claims<S>, S>),
}

/// The content of what came back.
pub type VerifyEventView = VerifyEvent<Seq<char>, Seq<Jwk<Seq<char>>>, Seq<u8>>;

impl View for VerifyEvent {
    type V = VerifyEventView;

    open spec fn view(&self) -> VerifyEventView {
        match *self {
            VerifyEvent::Cached(Some(keys)) => VerifyEvent::Cached(Some(keys_view(keys@))),
            VerifyEvent::Cached(None) => VerifyEvent::Cached(None),
            VerifyEvent::Fetched(reply) => VerifyEvent::Fetched(reply@),
            VerifyEvent::Written => VerifyEvent::Written,
            VerifyEvent::Parsed(outcome) => VerifyEvent::Parsed(claims_view(outcome)),
        }
    }
}

/// What follows once a token has been checked.
pub open spec fn checked(token: Seq<char>, result: Result<Option<Seq<char>>, Seq<char>>) -> VerifyStepView {
    match result {
        Ok(refusal) => VerifyStep::Await(VerifyFlow::ReadingClaims { token, refusal }),
        Err(e) => VerifyStep::Done(Err(e)),
    }
}

/// What follows once a token has been checked.
pub fn after_check(token: &str, result: Result<Option<String>, String>) -> (res: VerifyStep)
    ensures
        res@ == checked(token@, signed_view(result)),
{
    match result {
        Ok(refusal) => VerifyStep::Await(
            VerifyFlow::ReadingClaims { token: token.to_owned(), refusal },
        ),
        Err(e) => VerifyStep::Done(Err(e)),
    }
}

/// What follows once the claims of a token have been read: the failure to read them, or else the
/// refusal that waited, or else the claims, where they are those of a signed-in user.
pub open spec fn parsed(
    refusal: Option<Seq<char>>,
    outcome: Result<Claims<Seq<char>>, Seq<char>>,
) -> Result<Claims<Seq<char>>, Seq<char>> {
    match (outcome, refusal) {
        (Err(e), _) => Err("JWT verification failed: "@ + e),
        (Ok(_), Some(refusal)) => Err(refusal),
        (Ok(claims), None) => authenticated(claims),
    }
}

/// What follows once the claims of a token have been read: the failure to read them, or else the
/// refusal that waited, or else the claims, where they are those of a signed-in user.
pub fn after_reading(refusal: Option<String>, outcome: Result<Claims, String>) -> (res: Result<
    Claims,
    String,
>)
    ensures
        claims_view(res) == parsed(text::opt(refusal), claims_view(outcome)),
{
    match outcome {
        Err(e) => Err(cat("JWT verification failed: ", e.as_str())),
        Ok(claims) => match refusal {
            Some(refusal) => Err(refusal),
            None => validate_authenticated_claims(claims),
        },
    }
}

impl JwtVerifier<Seq<char>> {
    /// The verifier of a project.
    pub open spec fn of(supabase_url: Seq<char>, jwt_secret: Seq<char>) -> Self {
        let base = text::trimmed_end(supabase_url, '/');
        JwtVerifier {
            jwks_url: base + "/auth/v1/.well-known/jwks.json"@,
            issuer: base + "/auth/v1"@,
            hs256_secret: jwt_secret,
        }
    }

    /// Whether checking a token with the project's shared secret may come to a result.
    pub open spec fn secret_check(
        self,
        token: Seq<char>,
        result: Result<Option<Seq<char>>, Seq<char>>,
    ) -> bool {
        may_check(
            token,
            TokenKey::Secret(self.hs256_secret),
            rules_for(JwtAlgorithm::Hs256, Some(self.issuer)),
            result,
        )
    }

    /// Whether checking a token with the project's public keys may come to a result.
    pub open spec fn key_check(
        self,
        token: Seq<char>,
        kid: Seq<char>,
        keys: Seq<Jwk<Seq<char>>>,
        result: Result<Option<Seq<char>>, Seq<char>>,
    ) -> bool {
        match key_for(keys, kid) {
            None => result == Err::<Option<Seq<char>>, Seq<char>>("No JWK found for kid: "@ + kid),
            Some(key) => may_check(
                token,
                TokenKey::Jwk(key.json),
                rules_for(JwtAlgorithm::Es256, Some(self.issuer)),
                result,
            ),
        }
    }

    /// Whether a check with the project's public keys may lead to a step.
    pub open spec fn may_check_with(
        self,
        token: Seq<char>,
        kid: Seq<char>,
        keys: Seq<Jwk<Seq<char>>>,
        step: VerifyStepView,
    ) -> bool {
        exists|result: Result<Option<Seq<char>>, Seq<char>>|
            #[trigger] self.key_check(token, kid, keys, result) && step == checked(token, result)
    }

    /// Whether a verification may begin with a step.
    pub open spec fn may_begin(
        self,
        token: Seq<char>,
        step: VerifyStepView,
    ) -> bool {
        match jwt_header(token) {
            Err(e) => step == VerifyStepView::Done(
                Err("Invalid JWT header: "@ + e),
            ),
            Ok(header) => if header.alg == "ES256"@ {
                match header.kid {
                    Some(kid) => step == VerifyStepView::Await(
                        VerifyFlow::ReadingCache { token, kid },
                    ),
                    None => step == VerifyStepView::Done(
                        Err("ES256 JWT missing kid header"@),
                    ),
                }
            } else if header.alg == "HS256"@ {
                exists|result: Result<Option<Seq<char>>, Seq<char>>|
                    #[trigger] self.secret_check(token, result) && step == checked(token, result)
            } else {
                step == VerifyStepView::Done(
                    Err("Unsupported JWT algorithm: "@ + header.alg),
                )
            },
        }
    }

    /// What a flow asks for.
    pub open spec fn asks(self, flow: VerifyFlowView) -> VerifyActionView {
        match flow {
            VerifyFlow::ReadingCache { token, kid } => VerifyAction::ReadCache,
            VerifyFlow::Fetching { token, kid } => VerifyAction::Fetch(self.jwks_url),
            VerifyFlow::Caching { token, kid, keys } => VerifyAction::WriteCache(keys),
            VerifyFlow::ReadingClaims { token, refusal } => VerifyAction::ParseClaims(token),
        }
    }

    /// Whether a verification may go on to a step. An event that answers something else leaves the
    /// flow where it is.
    pub open spec fn may_follow(
        self,
        flow: VerifyFlowView,
        event: VerifyEventView,
        step: VerifyStepView,
    ) -> bool {
        match (flow, event) {
            (VerifyFlow::ReadingCache { token, kid }, VerifyEvent::Cached(Some(keys))) => self.may_check_with(
                token,
                kid,
                keys,
                step,
            ),
            (VerifyFlow::ReadingCache { token, kid }, VerifyEvent::Cached(None)) => step
                == VerifyStepView::Await(
                VerifyFlow::Fetching { token, kid },
            ),
            (VerifyFlow::Fetching { token, kid }, VerifyEvent::Fetched(reply)) => match fetched_keys(
                reply,
            ) {
                Err(e) => step == VerifyStepView::Done(Err(e)),
                Ok(keys) => step == VerifyStep::Await(VerifyFlow::Caching { token, kid, keys }),
            },
            (VerifyFlow::Caching { token, kid, keys }, VerifyEvent::Written) => self.may_check_with(
                token,
                kid,
                keys,
                step,
            ),
            (VerifyFlow::ReadingClaims { token, refusal }, VerifyEvent::Parsed(outcome)) => step
                == VerifyStepView::Done(parsed(refusal, outcome)),
            _ => step == VerifyStep::Await(flow),
        }
    }
}

impl JwtVerifier {
    /// The verifier of a project.
    pub fn new(supabase_url: &str, jwt_secret: &str) -> (res: Self)
        ensures
            res@ == JwtVerifier::of(supabase_url@, jwt_secret@),
    {
        let base = trim_end(supabase_url, '/');
        JwtVerifier {
            jwks_url: cat(base, "/auth/v1/.well-known/jwks.json"),
            issuer: cat(base, "/auth/v1"),
            hs256_secret: jwt_secret.to_owned(),
        }
    }

    /// Verify a JWT and extract claims: the first step. Supports both ES256 and HS256.
    pub fn verify(&self, token: &str) -> (res: VerifyStep)
        ensures
            self@.may_begin(token@, res@),
    {
        match decode_header(token) {
            Err(e) => VerifyStep::Done(Err(cat("Invalid JWT header: ", e.as_str()))),
            Ok(header) => {
                if same(header.alg.as_str(), "ES256") {
                    match header.kid {
                        Some(kid) => VerifyStep::Await(
                            VerifyFlow::ReadingCache { token: token.to_owned(), kid },
                        ),
                        None => VerifyStep::Done(Err("ES256 JWT missing kid header".to_owned())),
                    }
                } else if same(header.alg.as_str(), "HS256") {
                    let result = verify_hs256(
                        token,
                        self.hs256_secret.as_str(),
                        Some(self.issuer.as_str()),
                    );
                    assert(self@.secret_check(token@, signed_view(result)));
                    after_check(token, result)
                } else {
                    VerifyStep::Done(Err(cat("Unsupported JWT algorithm: ", header.alg.as_str())))
                }
            },
        }
    }

    /// Verify an ES256 JWT with the project's public keys. Where the signature holds, the result is
    /// `Ok`, with the refusal that follows once the claims have been read, if any.
    pub fn verify_es256(&self, token: &str, kid: &str, keys: &Vec<Jwk>) -> (res: Result<
        Option<String>,
        String,
    >)
        ensures
            self@.key_check(token@, kid@, keys_view(keys@), signed_view(res)),
    {
        match find_key(keys, kid) {
            None => Err(cat("No JWK found for kid: ", kid)),
            Some(key) => {
                let key = TokenKey::Jwk(key.json.clone());
                let rules = validation_for(JwtAlgorithm::Es256, Some(self.issuer.as_str()));
                check(token, &key, &rules)
            },
        }
    }

    /// What a flow asks for.
    pub fn action(&self, flow: &VerifyFlow) -> (res: VerifyAction)
        ensures
            res@ == self@.asks(flow@),
    {
        match flow {
            VerifyFlow::ReadingCache { .. } => VerifyAction::ReadCache,
            VerifyFlow::Fetching { .. } => VerifyAction::Fetch(self.jwks_url.clone()),
            VerifyFlow::Caching { keys, .. } => VerifyAction::WriteCache(copy_keys(keys)),
            VerifyFlow::ReadingClaims { token, .. } => VerifyAction::ParseClaims(token.clone()),
        }
    }

    /// What follows from an event. One that answers something else leaves the flow where it is.
    pub fn resume(&self, flow: VerifyFlow, event: VerifyEvent) -> (res: VerifyStep)
        ensures
            self@.may_follow(flow@, event@, res@),
    {
        match (flow, event) {
            (VerifyFlow::ReadingCache { token, kid }, VerifyEvent::Cached(Some(keys))) => {
                let result = self.verify_es256(token.as_str(), kid.as_str(), &keys);
                let step = after_check(token.as_str(), result);
                assert(self@.may_check_with(token@, kid@, keys_view(keys@), step@));
                step
            },
            (VerifyFlow::ReadingCache { token, kid }, VerifyEvent::Cached(None)) => {
                VerifyStep::Await(VerifyFlow::Fetching { token, kid })
            },
            (VerifyFlow::Fetching { token, kid }, VerifyEvent::Fetched(reply)) => match read_jwks(
                reply,
            ) {
                Err(e) => VerifyStep::Done(Err(e)),
                Ok(keys) => VerifyStep::Await(VerifyFlow::Caching { token, kid, keys }),
            },
            (VerifyFlow::Caching { token, kid, keys }, VerifyEvent::Written) => {
                let result = self.verify_es256(token.as_str(), kid.as_str(), &keys);
                let step = after_check(token.as_str(), result);
                assert(self@.may_check_with(token@, kid@, keys_view(keys@), step@));
                step
            },
            (VerifyFlow::ReadingClaims { refusal, .. }, VerifyEvent::Parsed(outcome)) => {
                VerifyStep::Done(after_reading(refusal, outcome))
            },
            (flow, _) => VerifyStep::Await(flow),
        }
    }
}

fn copy_keys(keys: &Vec<Jwk>) -> (res: Vec<Jwk>)
    ensures
        keys_view(res@) == keys_view(keys@),
{
    let mut out: Vec<Jwk> = Vec::new();
    for i in 0..keys.len()
        invariant
            keys_view(out@) == keys_view(keys@).take(i as int),
    {
        out.push(keys[i].clone());
        assert(keys_view(keys@).take(i + 1) == keys_view(keys@).take(i as int).push(
            keys@[i as int]@,
        ));
    }
    out
}

/// That a token has expired is said by the decoder, of that token, key and rules.
proof fn expiry_is_said_by_the_decoder(
    token: Seq<char>,
    key: TokenKey<Seq<char>>,
    rules: ValidationRules<Seq<char>>,
)
    requires
        was_said_to_have_expired(token, key, rules),
    ensures
        exists|t: &str, k: &TokenKey, r: &ValidationRules, fault: TokenFault|
            #[trigger] call_ensures(decode_token, (t, k, r), Err::<(), TokenFault>(fault)) && t@
                == token && k@ == key && r@ == rules && fault@.kind == "ExpiredSignature"@
                && fault@.text == "ExpiredSignature"@,
{
}

} // verus!
