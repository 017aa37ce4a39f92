//! Signed identity tokens (HS256 JSON Web Tokens) carrying `Claims`.
use vstd::prelude::*;

verus! {

/// How long an issued token stays valid, in seconds (24 hours).
pub const TOKEN_LIFETIME_SECS: i64 = 86400;

/// The identity fields embedded in a token.
#[derive(Debug, Clone)]
pub struct Claims {
    /// Subject: the user's identifier, in hyphenated UUID form.
    pub sub: String,
    pub email: String,
    pub role: String,
    /// Expiry, in seconds since the Unix epoch.
    pub exp: i64,
    /// Issue time, in seconds since the Unix epoch.
    pub iat: i64,
}

/// Mathematical model of `Claims`.
pub struct ClaimsView {
    pub sub: Seq<char>,
    pub email: Seq<char>,
    pub role: Seq<char>,
    pub exp: int,
    pub iat: int,
}

impl View for Claims {
    type V = ClaimsView;

    open spec fn view(&self) -> ClaimsView {
        ClaimsView {
            sub: self.sub@,
            email: self.email@,
            role: self.role@,
            exp: self.exp as int,
            iat: self.iat as int,
        }
    }
}

/// Why a token could not be issued or was not accepted.
#[derive(Debug, Clone, Copy, PartialEq, Eq, Structural)]
pub enum TokenError {
    /// The signature does not match the token's content under the secret.
    InvalidSignature,
    /// The current time is at or past the token's expiry.
    Expired,
    /// The token is not a well-formed signed token carrying all claims.
    Malformed,
    /// No token could be produced.
    Signing,
}

/// The payload fields read from a token whose signature checked out; a field
/// is `None` where it is absent or of the wrong JSON type.
pub type PayloadView = (Option<Seq<char>>, Option<Seq<char>>, Option<Seq<char>>, Option<int>, Option<int>);

/// The fields of a token's payload, as read by `jwt_decode`.
pub type Payload = (Option<String>, Option<String>, Option<String>, Option<i64>, Option<i64>);

pub open spec fn opt_str(o: Option<String>) -> Option<Seq<char>> {
    match o {
        Some(s) => Some(s@),
        None => None,
    }
}

pub open spec fn opt_int(o: Option<i64>) -> Option<int> {
    match o {
        Some(i) => Some(i as int),
        None => None,
    }
}

pub open spec fn payload_view(p: Payload) -> PayloadView {
    (opt_str(p.0), opt_str(p.1), opt_str(p.2), opt_int(p.3), opt_int(p.4))
}

/// The payload that a token made by `jwt_hs256` from these claims carries.
pub open spec fn payload_of(c: ClaimsView) -> PayloadView {
    (Some(c.sub), Some(c.email), Some(c.role), Some(c.exp), Some(c.iat))
}

pub open spec fn is_i64(i: int) -> bool {
    i64::MIN <= i <= i64::MAX
}

/// The token that HS256 signing produces for these claims under `secret`.
pub uninterp spec fn jwt_hs256(secret: Seq<u8>, sub: Seq<char>, email: Seq<char>, role: Seq<char>, exp: int, iat: int) -> Seq<char>;

/// What reading `token` under `secret` gives: the payload, or whether the
/// failure was a signature mismatch (`Err(true)`) or anything else (`Err(false)`).
pub uninterp spec fn jwt_hs256_read(secret: Seq<u8>, token: Seq<char>) -> Result<PayloadView, bool>;

pub open spec fn token_of(secret: Seq<u8>, c: ClaimsView) -> Seq<char> {
    jwt_hs256(secret, c.sub, c.email, c.role, c.exp, c.iat)
}

pub open spec fn read_view(r: Result<Payload, bool>) -> Result<PayloadView, bool> {
    match r {
        Ok(p) => Ok(payload_view(p)),
        Err(b) => Err(b),
    }
}

/// Whether `read` gives back the claims of every token that signing under
/// `secret` maps to `token`, among claims whose expiry is not negative (a
/// negative expiry is not read as one).
pub open spec fn reads_back(secret: Seq<u8>, token: Seq<char>, read: Result<PayloadView, bool>) -> bool {
    forall|c: ClaimsView|
        0 <= c.exp <= i64::MAX && is_i64(c.iat) && token == #[trigger] token_of(secret, c)
            ==> read == Ok::<PayloadView, bool>(payload_of(c))
}

/// jsonwebtoken's error, carried opaquely from `jwt_encode` to its caller.
#[verifier::external_type_specification]
#[verifier::external_body]
pub struct ExJwtError(jsonwebtoken::errors::Error);

/// Relies on jsonwebtoken::encode with the default header (HS256) and a key
/// made from the secret's bytes; the claims are the JSON object
/// `{sub, email, role, exp, iat}`. With an HMAC key and algorithm, and a
/// JSON object of strings and integers, it returns `Ok`.
#[verifier::external_body]
fn jwt_encode(c: &Claims, secret: &[u8]) -> (r: Result<String, jsonwebtoken::errors::Error>)
    ensures
        r is Ok,
        r is Ok ==> r->Ok_0@ == jwt_hs256(secret@, c.sub@, c.email@, c.role@, c.exp as int, c.iat as int),
{
    let mut m = serde_json::Map::new();
    m.insert("sub".to_string(), c.sub.as_str().into());
    m.insert("email".to_string(), c.email.as_str().into());
    m.insert("role".to_string(), c.role.as_str().into());
    m.insert("exp".to_string(), c.exp.into());
    m.insert("iat".to_string(), c.iat.into());
    let key = jsonwebtoken::EncodingKey::from_secret(secret);
    jsonwebtoken::encode(&jsonwebtoken::Header::default(), &m, &key)
}

/// Relies on jsonwebtoken::decode with HS256, a key made from the secret's
/// bytes and the expiry check switched off (the library makes its own): it
/// checks the signature, requires an `exp` claim that reads as a `u64`, and
/// reads the payload's JSON object. A token that jsonwebtoken::encode made
/// under the same secret, with an expiry of at least zero, reads back as its
/// claims.
#[verifier::external_body]
fn jwt_decode(token: &str, secret: &[u8]) -> (r: Result<Payload, bool>)
    ensures
        read_view(r) == jwt_hs256_read(secret@, token@),
        reads_back(secret@, token@, read_view(r)),
{
    let mut v = jsonwebtoken::Validation::default();
    v.validate_exp = false;
    let key = jsonwebtoken::DecodingKey::from_secret(secret);
    let c = jsonwebtoken::decode::<serde_json::Value>(token, &key, &v)
        .map_err(|e| matches!(e.kind(), jsonwebtoken::errors::ErrorKind::InvalidSignature))?
        .claims;
    Ok((
        c["sub"].as_str().map(String::from),
        c["email"].as_str().map(String::from),
        c["role"].as_str().map(String::from),
        c["exp"].as_i64(),
        c["iat"].as_i64(),
    ))
}

/// The lower-case hexadecimal digit of `d` (below 16).
pub open spec fn hex_digit(d: int) -> char {
    seq!['0', '1', '2', '3', '4', '5', '6', '7', '8', '9', 'a', 'b', 'c', 'd', 'e', 'f'][d]
}

/// The last `n` hexadecimal digits of `v`, most significant first.
pub open spec fn hex_text(v: nat, n: nat) -> Seq<char>
    decreases n,
{
    if n == 0 {
        Seq::empty()
    } else {
        hex_text(v / 16, (n - 1) as nat).push(hex_digit((v % 16) as int))
    }
}

/// The hyphenated lower-case text of a 128-bit UUID: 32 hexadecimal digits,
/// most significant first, in groups of 8, 4, 4, 4 and 12.
pub open spec fn uuid_text(id: u128) -> Seq<char> {
    let h = hex_text(id as nat, 32);
    h.subrange(0, 8) + seq!['-'] + h.subrange(8, 12) + seq!['-'] + h.subrange(12, 16) + seq!['-']
        + h.subrange(16, 20) + seq!['-'] + h.subrange(20, 32)
}

/// The UUID that a text parses to, if any.
pub uninterp spec fn uuid_parsed(s: Seq<char>) -> Option<u128>;

/// Whether `parsed` is what the text of every UUID that writes as `s` parses to.
pub open spec fn parses_back(s: Seq<char>, parsed: Option<u128>) -> bool {
    forall|id: u128| s == #[trigger] uuid_text(id) ==> parsed == Some(id)
}

/// Relies on uuid's `Display` for `Uuid` (through `to_string`), of the UUID
/// whose big-endian bytes are `id`: the hyphenated lower-case form.
#[verifier::external_body]
fn uuid_to_text(id: u128) -> (r: String)
    ensures
        r@ == uuid_text(id),
{
    uuid::Uuid::from_u128(id).to_string()
}

/// Relies on uuid::Uuid::parse_str, which accepts among others the
/// hyphenated form that `Display` writes.
#[verifier::external_body]
pub(crate) fn parse_uuid(s: &str) -> (r: Option<u128>)
    ensures
        r == uuid_parsed(s@),
        parses_back(s@, r),
{
    uuid::Uuid::parse_str(s).ok().map(|u| u.as_u128())
}

/// Latest time that chrono's `Utc::now` can give, in seconds, rounded up (its
/// `DateTime::MAX_UTC` lies in the year 262142).
pub const CLOCK_LIMIT_SECS: i64 = 9_000_000_000_000;

/// Relies on chrono::Utc::now and `DateTime::timestamp`: the current time in
/// whole seconds since the Unix epoch. `Utc::now` never gives a time before
/// the epoch, nor one past `DateTime::MAX_UTC`.
#[verifier::external_body]
pub(crate) fn now_secs() -> (r: i64)
    ensures
        0 <= r < CLOCK_LIMIT_SECS,
{
    chrono::Utc::now().timestamp()
}

/// The claims issued at `now` for a user.
pub open spec fn issued_claims(user_id: u128, email: Seq<char>, role: Seq<char>, now: int) -> ClaimsView {
    ClaimsView {
        sub: uuid_text(user_id),
        email,
        role,
        exp: now + TOKEN_LIFETIME_SECS,
        iat: now,
    }
}

/// Whether `r` is what issuing at `now` may give: the signed token of the
/// issued claims when the expiry is neither negative nor past `i64::MAX`,
/// else `Signing`.
pub open spec fn issue_outcome(
    r: Result<String, TokenError>,
    secret: Seq<u8>,
    user_id: u128,
    email: Seq<char>,
    role: Seq<char>,
    now: int,
) -> bool {
    &&& r is Ok ==> r->Ok_0@ == token_of(secret, issued_claims(user_id, email, role, now))
    &&& r is Err ==> r->Err_0 == TokenError::Signing
    &&& r is Ok <==> 0 <= now + TOKEN_LIFETIME_SECS <= i64::MAX
}

/// Issues a token for a user at time `now` (seconds since the epoch): the
/// claims expire `TOKEN_LIFETIME_SECS` later. An expiry before the epoch or
/// past `i64::MAX` is refused with `Signing`.
pub fn create_token_at(user_id: u128, email: &str, role: &str, secret: &[u8], now: i64) -> (r: Result<String, TokenError>)
    ensures
        issue_outcome(r, secret@, user_id, email@, role@, now as int),
{
    if now > i64::MAX - TOKEN_LIFETIME_SECS || now < -TOKEN_LIFETIME_SECS {
        return Err(TokenError::Signing);
    }
    let claims = Claims {
        sub: uuid_to_text(user_id),
        email: email.to_string(),
        role: role.to_string(),
        exp: now + TOKEN_LIFETIME_SECS,
        iat: now,
    };
    match jwt_encode(&claims, secret) {
        Ok(t) => Ok(t),
        Err(_) => Err(TokenError::Signing),
    }
}

/// Issues a token for a user at the current time; the clock's range makes
/// this always succeed.
pub fn create_token(user_id: u128, email: &str, role: &str, secret: &[u8]) -> (r: Result<String, TokenError>)
    ensures
        r is Ok,
        exists|now: int| 0 <= now < CLOCK_LIMIT_SECS && issue_outcome(r, secret@, user_id, email@, role@, now),
{
    let now = now_secs();
    let r = create_token_at(user_id, email, role, secret, now);
    assert(0 <= now < CLOCK_LIMIT_SECS && issue_outcome(r, secret@, user_id, email@, role@, now as int));
    r
}

/// What verifying a token whose reading gave `read` yields at time `now`,
/// with `leeway` seconds of tolerance past the expiry.
pub open spec fn verified_at(read: Result<PayloadView, bool>, now: int, leeway: int) -> Result<ClaimsView, TokenError> {
    match read {
        Err(true) => Err(TokenError::InvalidSignature),
        Err(false) => Err(TokenError::Malformed),
        Ok((Some(sub), Some(email), Some(role), Some(exp), Some(iat))) => {
            if now < exp + leeway {
                Ok(ClaimsView { sub, email, role, exp, iat })
            } else {
                Err(TokenError::Expired)
            }
        },
        Ok(_) => Err(TokenError::Malformed),
    }
}

pub open spec fn outcome_view(r: Result<Claims, TokenError>) -> Result<ClaimsView, TokenError> {
    match r {
        Ok(c) => Ok(c@),
        Err(e) => Err(e),
    }
}

/// Whether `out` accepts, with its claims, every token that signing some
/// claims (with an expiry of at least zero) under `secret` gives, while `now`
/// is before their expiry.
pub open spec fn accepts_issued(secret: Seq<u8>, token: Seq<char>, now: int, leeway: int, out: Result<ClaimsView, TokenError>) -> bool {
    forall|c: ClaimsView|
        0 <= c.exp <= i64::MAX && is_i64(c.iat) && token == #[trigger] token_of(secret, c) && now < c.exp + leeway
            ==> out == Ok::<ClaimsView, TokenError>(c)
}

/// Verifies a token at time `now`: its signature under `secret`, its claims,
/// and that `now` is before its expiry plus `leeway` seconds.
pub fn verify_token_at(token: &str, secret: &[u8], now: i64, leeway: u32) -> (r: Result<Claims, TokenError>)
    ensures
        outcome_view(r) == verified_at(jwt_hs256_read(secret@, token@), now as int, leeway as int),
        accepts_issued(secret@, token@, now as int, leeway as int, outcome_view(r)),
        r is Ok ==> now < r->Ok_0.exp + leeway,
{
    match jwt_decode(token, secret) {
        Err(true) => Err(TokenError::InvalidSignature),
        Err(false) => Err(TokenError::Malformed),
        Ok((Some(sub), Some(email), Some(role), Some(exp), Some(iat))) => {
            if (now as i128) < (exp as i128) + (leeway as i128) {
                Ok(Claims { sub, email, role, exp, iat })
            } else {
                Err(TokenError::Expired)
            }
        },
        Ok(_) => Err(TokenError::Malformed),
    }
}

/// Verifies a token at the current time, with no leeway past its expiry.
pub fn verify_token(token: &str, secret: &[u8]) -> (r: Result<Claims, TokenError>)
    ensures
        exists|now: int|
            0 <= now < CLOCK_LIMIT_SECS && #[trigger] outcome_view(r) == verified_at(jwt_hs256_read(secret@, token@), now, 0)
                && accepts_issued(secret@, token@, now, 0, outcome_view(r)),
{
    let now = now_secs();
    let r = verify_token_at(token, secret, now, 0);
    assert(0 <= now < CLOCK_LIMIT_SECS && outcome_view(r) == verified_at(jwt_hs256_read(secret@, token@), now as int, 0)
        && accepts_issued(secret@, token@, now as int, 0, outcome_view(r)));
    r
}

/// A token issued for a user at `issued_at` verifies, at any `now` from its
/// issue up to (not including) its expiry, to exactly the claims it was issued
/// with: the user's id as subject, the email and role, and
/// `iat <= now <= exp`. Here `out` is what `verify_token_at` gave for the
/// token that `create_token_at` issued.
pub proof fn lemma_token_round_trip(
    secret: Seq<u8>,
    user_id: u128,
    email: Seq<char>,
    role: Seq<char>,
    issued_at: int,
    now: int,
    out: Result<ClaimsView, TokenError>,
)
    requires
        is_i64(issued_at),
        0 <= issued_at + TOKEN_LIFETIME_SECS <= i64::MAX,
        issued_at <= now < issued_at + TOKEN_LIFETIME_SECS,
        accepts_issued(secret, token_of(secret, issued_claims(user_id, email, role, issued_at)), now, 0, out),
    ensures
        out == Ok::<ClaimsView, TokenError>(issued_claims(user_id, email, role, issued_at)),
        out->Ok_0.sub == uuid_text(user_id),
        out->Ok_0.email == email,
        out->Ok_0.role == role,
        out->Ok_0.iat <= now <= out->Ok_0.exp,
{
    let c = issued_claims(user_id, email, role, issued_at);
    assert(token_of(secret, c) == token_of(secret, c));
}

/// A token is never accepted at or past its expiry, whatever its signature:
/// when the payload read from it carries an expiry `exp <= now`, verifying
/// without leeway fails; and whatever was read, an accepted token's expiry
/// lies after `now`.
pub proof fn lemma_expired_never_accepted(read: Result<PayloadView, bool>, now: int)
    ensures
        (read is Ok && read->Ok_0.3 is Some && read->Ok_0.3->Some_0 <= now) ==> verified_at(read, now, 0) is Err,
        verified_at(read, now, 0) is Ok ==> now < verified_at(read, now, 0)->Ok_0.exp,
{
}

} // verus!
