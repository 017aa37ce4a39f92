//! The identity check: from an `Authorization` header to a verified identity
//! whose subject still exists.
//!
//! The check runs in two steps around the user-directory lookup, which is I/O
//! done by the caller: `check_credentials_at` decides everything up to the
//! lookup and names the user to look up; `admit_identity` decides on its outcome.
use vstd::prelude::*;
use crate::token::{
    Claims, ClaimsView, verified_at, jwt_hs256_read, uuid_parsed, parse_uuid, verify_token_at,
    now_secs, CLOCK_LIMIT_SECS,
};

verus! {

/// Why a call was turned away.
#[derive(Debug, Clone, Copy, PartialEq, Eq, Structural)]
pub enum AuthError {
    /// Missing, malformed, forged or expired credential, or one whose subject
    /// no longer exists. No further detail is given.
    Unauthenticated,
    /// The user-directory lookup itself failed.
    TransientIO,
}

/// Outcome of looking up a subject in the user directory.
#[derive(Debug, Clone, Copy, PartialEq, Eq, Structural)]
pub enum UserLookup {
    Found,
    NotFound,
    Failed,
}

/// A credential that passed every check but the liveness lookup.
#[derive(Debug, Clone)]
pub struct PendingIdentity {
    pub claims: Claims,
    /// The subject, parsed: the user to look up.
    pub user_id: u128,
}

/// The scheme prefix of a bearer credential.
pub open spec fn bearer_prefix() -> Seq<char> {
    seq!['B', 'e', 'a', 'r', 'e', 'r', ' ']
}

/// The token of a header value `Bearer <token>`, if the token is not empty.
pub open spec fn bearer_of(h: Seq<char>) -> Option<Seq<char>> {
    if h.len() > 7 && h.subrange(0, 7) == bearer_prefix() {
        Some(h.subrange(7, h.len() as int))
    } else {
        None
    }
}

/// What the first step decides, for the header's text (`None`: no header),
/// the secret and the time: the claims and the user to look up, or a refusal.
pub open spec fn credentials_at(header: Option<Seq<char>>, secret: Seq<u8>, now: int, leeway: int) -> Result<(ClaimsView, u128), AuthError> {
    match header {
        None => Err(AuthError::Unauthenticated),
        Some(h) => match bearer_of(h) {
            None => Err(AuthError::Unauthenticated),
            Some(t) => match verified_at(jwt_hs256_read(secret, t), now, leeway) {
                Err(_) => Err(AuthError::Unauthenticated),
                Ok(c) => match uuid_parsed(c.sub) {
                    None => Err(AuthError::Unauthenticated),
                    Some(id) => Ok((c, id)),
                },
            },
        },
    }
}

/// What the second step decides on the lookup's outcome.
pub open spec fn admitted(c: ClaimsView, lookup: UserLookup) -> Result<ClaimsView, AuthError> {
    match lookup {
        UserLookup::Found => Ok(c),
        UserLookup::NotFound => Err(AuthError::Unauthenticated),
        UserLookup::Failed => Err(AuthError::TransientIO),
    }
}

pub open spec fn opt_str_view(o: Option<&str>) -> Option<Seq<char>> {
    match o {
        Some(s) => Some(s@),
        None => None,
    }
}

/// The token of a `Bearer <token>` header value; `None` for another scheme or
/// an empty token.
pub fn bearer_token(header: &str) -> (r: Option<&str>)
    ensures
        opt_str_view(r) == bearer_of(header@),
{
    let n = header.unicode_len();
    if n <= 7 {
        return None;
    }
    if header.get_char(0) == 'B' && header.get_char(1) == 'e' && header.get_char(2) == 'a'
        && header.get_char(3) == 'r' && header.get_char(4) == 'e' && header.get_char(5) == 'r'
        && header.get_char(6) == ' ' {
        assert(header@.subrange(0, 7) =~= bearer_prefix());
        Some(header.substring_char(7, n))
    } else {
        assert(header@.subrange(0, 7) != bearer_prefix()) by {
            if header@.subrange(0, 7) == bearer_prefix() {
                assert(header@[0] == header@.subrange(0, 7)[0]);
                assert(header@[1] == header@.subrange(0, 7)[1]);
                assert(header@[2] == header@.subrange(0, 7)[2]);
                assert(header@[3] == header@.subrange(0, 7)[3]);
                assert(header@[4] == header@.subrange(0, 7)[4]);
                assert(header@[5] == header@.subrange(0, 7)[5]);
                assert(header@[6] == header@.subrange(0, 7)[6]);
            }
        }
        None
    }
}

pub open spec fn pending_view(r: Result<PendingIdentity, AuthError>) -> Result<(ClaimsView, u128), AuthError> {
    match r {
        Ok(p) => Ok((p.claims@, p.user_id)),
        Err(e) => Err(e),
    }
}

/// First step of the identity check at time `now`: the header's bearer token must
/// verify under `secret` (with `leeway` seconds past expiry) and name a
/// subject that parses as a user id. Every failure is `Unauthenticated`.
pub fn check_credentials_at(header: Option<&str>, secret: &[u8], now: i64, leeway: u32) -> (r: Result<PendingIdentity, AuthError>)
    ensures
        pending_view(r) == credentials_at(opt_str_view(header), secret@, now as int, leeway as int),
{
    let h = match header {
        Some(h) => h,
        None => return Err(AuthError::Unauthenticated),
    };
    let token = match bearer_token(h) {
        Some(t) => t,
        None => return Err(AuthError::Unauthenticated),
    };
    let v = verify_token_at(token, secret, now, leeway);
    let claims = match v {
        Ok(c) => c,
        Err(_) => return Err(AuthError::Unauthenticated),
    };
    match parse_uuid(claims.sub.as_str()) {
        Some(user_id) => Ok(PendingIdentity { claims, user_id }),
        None => Err(AuthError::Unauthenticated),
    }
}

/// First step of the identity check at the current time, with no leeway
/// past a token's expiry.
pub fn check_credentials(header: Option<&str>, secret: &[u8]) -> (r: Result<PendingIdentity, AuthError>)
    ensures
        exists|now: int| 0 <= now < CLOCK_LIMIT_SECS && pending_view(r) == #[trigger] credentials_at(opt_str_view(header), secret@, now, 0),
{
    let now = now_secs();
    let r = check_credentials_at(header, secret, now, 0);
    assert(0 <= now < CLOCK_LIMIT_SECS && pending_view(r) == credentials_at(opt_str_view(header), secret@, now as int, 0));
    r
}

pub open spec fn claims_result_view(r: Result<Claims, AuthError>) -> Result<ClaimsView, AuthError> {
    match r {
        Ok(c) => Ok(c@),
        Err(e) => Err(e),
    }
}

/// Second step of the identity check: the identity is admitted only if its subject was
/// found in the user directory.
pub fn admit_identity(pending: PendingIdentity, lookup: UserLookup) -> (r: Result<Claims, AuthError>)
    ensures
        claims_result_view(r) == admitted(pending.claims@, lookup),
{
    match lookup {
        UserLookup::Found => Ok(pending.claims),
        UserLookup::NotFound => Err(AuthError::Unauthenticated),
        UserLookup::Failed => Err(AuthError::TransientIO),
    }
}

/// A credential that is cryptographically valid and unexpired, but whose
/// subject has no user record, is turned away as `Unauthenticated`: only
/// subjects that the directory finds are admitted.
pub proof fn lemma_unknown_subject_rejected(header: Option<Seq<char>>, secret: Seq<u8>, now: int, leeway: int)
    ensures
        credentials_at(header, secret, now, leeway) is Ok ==> admitted(
            credentials_at(header, secret, now, leeway)->Ok_0.0,
            UserLookup::NotFound,
        ) == Err::<ClaimsView, AuthError>(AuthError::Unauthenticated),
        forall|c: ClaimsView, l: UserLookup| #[trigger] admitted(c, l) is Ok ==> l == UserLookup::Found,
{
}

} // verus!
