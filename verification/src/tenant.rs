//! Tenants, their IDs and their tokens. Each user has at most one tenant.
use crate::hex;
use crate::text::{cat, same};
use rand::Rng;
use vstd::prelude::*;

pub use crate::store::TenantStore;

verus! {

/// How many seconds a tenant can be idle before it is suspended: an hour.
pub const IDLE_TIMEOUT: u64 = 3600;

/// A tenant, as the store keeps it.
#[verifier::ext_equal]
#[derive(Debug, PartialEq, Eq)]
pub struct Tenant<S = String> {
    pub id: S,
    pub user_id: S,
    pub tenant_id: S,
    pub engine_token: S,
    pub status: TenantStatus,
}

impl View for Tenant {
    type V = Tenant<Seq<char>>;

    open spec fn view(&self) -> Tenant<Seq<char>> {
        Tenant {
            id: self.id@,
            user_id: self.user_id@,
            tenant_id: self.tenant_id@,
            engine_token: self.engine_token@,
            status: self.status,
        }
    }
}

impl Clone for Tenant {
    fn clone(&self) -> (res: Self)
        ensures
            res@ == self@,
    {
        Tenant {
            id: self.id.clone(),
            user_id: self.user_id.clone(),
            tenant_id: self.tenant_id.clone(),
            engine_token: self.engine_token.clone(),
            status: self.status,
        }
    }
}

/// Where a tenant stands.
#[derive(Debug, Clone, Copy, PartialEq, Eq, Structural)]
pub enum TenantStatus {
    Pending,
    Provisioning,
    Ready,
    Error,
    Suspended,
}

impl TenantStatus {
    /// The status as the store and the API write it.
    pub open spec fn name(self) -> Seq<char> {
        match self {
            TenantStatus::Pending => "pending"@,
            TenantStatus::Provisioning => "provisioning"@,
            TenantStatus::Ready => "ready"@,
            TenantStatus::Error => "error"@,
            TenantStatus::Suspended => "suspended"@,
        }
    }

    /// The status as the store and the API write it.
    pub fn to_string(&self) -> (res: String)
        ensures
            res@ == self.name(),
    {
        match self {
            TenantStatus::Pending => "pending".to_owned(),
            TenantStatus::Provisioning => "provisioning".to_owned(),
            TenantStatus::Ready => "ready".to_owned(),
            TenantStatus::Error => "error".to_owned(),
            TenantStatus::Suspended => "suspended".to_owned(),
        }
    }

    /// The status that the store and the API write so, if any.
    pub fn from_name(name: &str) -> (res: Option<TenantStatus>)
        ensures
            match res {
                Some(status) => status.name() == name@,
                None => forall|status: TenantStatus| #[trigger] status.name() != name@,
            },
    {
        if same(name, "pending") {
            Some(TenantStatus::Pending)
        } else if same(name, "provisioning") {
            Some(TenantStatus::Provisioning)
        } else if same(name, "ready") {
            Some(TenantStatus::Ready)
        } else if same(name, "error") {
            Some(TenantStatus::Error)
        } else if same(name, "suspended") {
            Some(TenantStatus::Suspended)
        } else {
            None
        }
    }
}

/// No two statuses are written the same, so that what was written is read back.
pub proof fn status_names_are_distinct(a: TenantStatus, b: TenantStatus)
    requires
        a.name() == b.name(),
    ensures
        a == b,
{
    reveal_strlit("pending");
    reveal_strlit("provisioning");
    reveal_strlit("ready");
    reveal_strlit("error");
    reveal_strlit("suspended");
    assert("pending"@.len() == 7);
    assert("provisioning"@.len() == 12);
    assert("ready"@.len() == 5 && "ready"@[0] == 'r');
    assert("error"@.len() == 5 && "error"@[0] == 'e');
    assert("suspended"@.len() == 9);
}

/// `Rng::gen` on `rand::thread_rng`: four bytes of chance, of which nothing is promised.
#[verifier::external_body]
fn random_bytes() -> (res: [u8; 4]) {
    rand::thread_rng().gen()
}

/// Whether four bytes are ones that were drawn by chance: a result of `random_bytes`.
pub closed spec fn is_draw(bytes: [u8; 4]) -> bool {
    call_ensures(random_bytes, (), bytes)
}

/// Whether `c` is a letter or a digit of ASCII.
pub open spec fn is_alphanumeric(c: char) -> bool {
    '0' <= c <= '9' || 'A' <= c <= 'Z' || 'a' <= c <= 'z'
}

/// `Rng::sample` on `rand::thread_rng` with `rand::distributions::Alphanumeric`: one byte of chance
/// that is the code of an ASCII letter or digit.
#[verifier::external_body]
fn random_alphanumeric() -> (res: u8)
    ensures
        is_alphanumeric(res as char),
{
    rand::thread_rng().sample(rand::distributions::Alphanumeric)
}

/// The draw of a character code by chance, for one place of a token.
fn draw_code(place: usize) -> (res: u8)
    ensures
        call_ensures(random_alphanumeric, (), res),
        is_alphanumeric(res as char),
{
    random_alphanumeric()
}

/// Whether a character code is one that was drawn by chance for a place: a result of `draw_code` for
/// that place, and with that of `random_alphanumeric`.
pub closed spec fn is_drawn_code(place: usize, code: u8) -> bool {
    call_ensures(draw_code, (place,), code)
}

/// The tenant ID that four bytes make.
pub open spec fn tenant_id_of(bytes: Seq<u8>) -> Seq<char> {
    "t-"@ + hex::encoded(bytes)
}

/// The tenant ID that four bytes make: "t-" and their hexadecimal text.
pub fn tenant_id_from(bytes: [u8; 4]) -> (res: String)
    ensures
        res@ == tenant_id_of(bytes@),
{
    cat("t-", hex::encode(&bytes).as_str())
}

/// Whether a text has the form of a tenant ID: "t-" and eight hexadecimal digits.
pub open spec fn is_tenant_id(s: Seq<char>) -> bool {
    s.len() == 10 && s[0] == 't' && s[1] == '-' && forall|i: int|
        2 <= i < 10 ==> hex::is_digit(#[trigger] s[i])
}

/// Whether a tenant ID was made from bytes that were drawn by chance.
pub open spec fn is_drawn_id(s: Seq<char>) -> bool {
    exists|bytes: [u8; 4]| #[trigger] is_draw(bytes) && s == tenant_id_of(bytes@)
}

/// Generate a short tenant ID: "t-" + 8 hex chars.
pub fn generate_tenant_id() -> (res: String)
    ensures
        is_drawn_id(res@),
        exists|bytes: [u8; 4]| res@ == #[trigger] tenant_id_of(bytes@),
        is_tenant_id(res@),
{
    let bytes = random_bytes();
    assert(is_draw(bytes));
    let res = tenant_id_from(bytes);
    proof {
        reveal_strlit("t-");
        hex::encoded_is_hexadecimal(bytes@);
        assert forall|i: int| 2 <= i < 10 implies hex::is_digit(#[trigger] res@[i]) by {
            assert(res@[i] == hex::encoded(bytes@)[i - 2]);
        }
    }
    res
}

/// How many characters an engine token has.
pub const TOKEN_LENGTH: usize = 48;

/// Whether a text has the form of an engine token.
pub open spec fn is_engine_token(s: Seq<char>) -> bool {
    s.len() == TOKEN_LENGTH && forall|i: int| 0 <= i < s.len() ==> is_alphanumeric(#[trigger] s[i])
}

/// The engine token that drawn character codes make: the characters, in the order of the draws.
pub open spec fn token_of(draws: Seq<u8>) -> Seq<char> {
    draws.map_values(|code: u8| code as char)
}

/// The engine token that drawn character codes make: the characters, in the order of the draws.
pub fn engine_token_from(draws: &Vec<u8>) -> (res: String)
    ensures
        res@ == token_of(draws@),
{
    let mut out = String::new();
    for i in 0..draws.len()
        invariant
            out@ == token_of(draws@.take(i as int)),
    {
        out.push(draws[i] as char);
        assert(token_of(draws@.take(i + 1)) == token_of(draws@.take(i as int)).push(
            draws@[i as int] as char,
        ));
    }
    assert(draws@.take(draws@.len() as int) == draws@);
    out
}

/// Whether an engine token was made from codes of which each was drawn by chance for its place.
pub open spec fn is_drawn_token(s: Seq<char>) -> bool {
    exists|draws: Seq<u8>|
        {
            &&& draws.len() == TOKEN_LENGTH
            &&& forall|i: int|
                0 <= i < draws.len() ==> is_drawn_code(i as usize, #[trigger] draws[i])
            &&& s == #[trigger] token_of(draws)
        }
}

/// Generate a 48-char alphanumeric engine token.
pub fn generate_engine_token() -> (res: String)
    ensures
        is_drawn_token(res@),
        exists|draws: Seq<u8>| draws.len() == TOKEN_LENGTH && res@ == #[trigger] token_of(draws),
        is_engine_token(res@),
{
    let mut draws: Vec<u8> = Vec::new();
    for i in 0..TOKEN_LENGTH
        invariant
            draws@.len() == i,
            forall|j: int|
                0 <= j < draws@.len() ==> is_drawn_code(j as usize, #[trigger] draws@[j])
                    && is_alphanumeric(draws@[j] as char),
    {
        let code = draw_code(i);
        assert(is_drawn_code(i, code));
        draws.push(code);
    }
    engine_token_from(&draws)
}

/// Tenant IDs differ where the bytes do that they are made from.
pub proof fn tenant_ids_are_distinct(a: [u8; 4], b: [u8; 4])
    requires
        tenant_id_of(a@) == tenant_id_of(b@),
    ensures
        a@ == b@,
{
    reveal_strlit("t-");
    let left = tenant_id_of(a@);
    let right = tenant_id_of(b@);
    assert(left.skip(2) == hex::encoded(a@));
    assert(right.skip(2) == hex::encoded(b@));
    hex::encoding_is_injective(a@, b@);
}

/// A token holds the drawn codes one for one: it has as many characters as there were draws, and each
/// has the code that was drawn in its place.
pub proof fn tokens_hold_every_draw(draws: Seq<u8>, i: int)
    requires
        0 <= i < draws.len(),
        draws[i] < 128,
    ensures
        token_of(draws).len() == draws.len(),
        token_of(draws)[i] as int == draws[i] as int,
{
}

/// A tenant ID tells the bytes that it was made from: behind `t-` stand two digits for each, which
/// give the byte back.
pub proof fn tenant_ids_tell_their_bytes(bytes: [u8; 4], i: int)
    requires
        0 <= i < 4,
    ensures
        ({
            let id = tenant_id_of(bytes@);
            &&& id.len() == 10
            &&& id[0] == 't'
            &&& id[1] == '-'
            &&& hex::digit_value(id[2 + 2 * i]) * 16 + hex::digit_value(id[3 + 2 * i])
                == bytes@[i] as int
        }),
{
    reveal_strlit("t-");
    let id = tenant_id_of(bytes@);
    let text = hex::encoded(bytes@);
    assert(text.len() == 8);
    assert(id[2 + 2 * i] == text[2 * i] && id[3 + 2 * i] == text[2 * i + 1]);
    hex::digits_give_the_byte_back(bytes@, i);
}

/// Draws are results of the random number generator, and of nothing else; a code is drawn for its
/// place.
proof fn draws_come_from_the_generator(bytes: [u8; 4], place: usize, code: u8)
    ensures
        is_draw(bytes) ==> call_ensures(random_bytes, (), bytes),
        is_drawn_code(place, code) ==> call_ensures(draw_code, (place,), code),
        is_drawn_code(place, code) ==> call_ensures(random_alphanumeric, (), code),
{
}

/// Whether a character is one that was drawn for a place.
pub open spec fn is_drawn_char(place: usize, c: char) -> bool {
    exists|code: u8| #[trigger] is_drawn_code(place, code) && c == code as char
}

/// An ID is drawn only where some four drawn bytes make it, and a token only where it has as many
/// characters as a token has and each was drawn for its place.
pub proof fn drawn_texts_are_made_of_draws(s: Seq<char>)
    ensures
        is_drawn_id(s) ==> exists|bytes: [u8; 4]| #[trigger]
            is_draw(bytes) && s == "t-"@ + hex::encoded(bytes@),
        is_drawn_token(s) ==> s.len() == 48,
        is_drawn_token(s) ==> forall|i: int|
            0 <= i < s.len() ==> is_drawn_char(i as usize, #[trigger] s[i]),
{
    if is_drawn_id(s) {
        let bytes = choose|bytes: [u8; 4]| #[trigger] is_draw(bytes) && s == tenant_id_of(bytes@);
        assert(is_draw(bytes));
    }
    if is_drawn_token(s) {
        let draws = choose|draws: Seq<u8>|
            {
                &&& draws.len() == TOKEN_LENGTH
                &&& forall|i: int|
                    0 <= i < draws.len() ==> is_drawn_code(i as usize, #[trigger] draws[i])
                &&& s == #[trigger] token_of(draws)
            };
        assert forall|i: int| 0 <= i < s.len() implies is_drawn_char(
            i as usize,
            #[trigger] s[i],
        ) by {
            assert(is_drawn_code(i as usize, draws[i]));
            assert(s[i] == draws[i] as char);
        }
    }
}

} // verus!
