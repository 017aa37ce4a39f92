//! Login and registration: checking a password against the stored bcrypt
//! hash, preparing a new user, and handing out a token with a user summary.
//! Looking users up and storing them is the caller's.
use vstd::prelude::*;
use crate::requests::{LoginRequest, RegisterRequest};
use crate::token::{create_token_at, issue_outcome, TokenError};

verus! {

/// bcrypt work factor for new password hashes.
pub const HASH_COST: u32 = 12;

/// Why an account endpoint refused a call.
#[derive(Debug, Clone, Copy, PartialEq, Eq, Structural)]
pub enum ApiError {
    /// Unknown email or wrong password.
    Unauthorized,
    /// The email is already registered.
    Conflict,
    /// Hashing, checking a hash or signing failed.
    Internal,
}

/// A user as the directory stores it.
#[derive(Debug, Clone)]
pub struct UserRecord {
    pub id: u128,
    pub name: String,
    pub email: String,
    pub password_hash: String,
    pub role: String,
    pub created_at: i64,
    pub updated_at: i64,
}

/// The user summary handed to a client.
#[derive(Debug, Clone)]
pub struct UserResponse {
    pub id: u128,
    pub name: String,
    pub email: String,
    pub role: String,
}

#[derive(Debug, Clone)]
pub struct AuthResponse {
    pub token: String,
    pub user: UserResponse,
}

/// What checking `password` against the bcrypt `hash` gives: whether it
/// matches, or `None` where the hash cannot be read.
pub uninterp spec fn bcrypt_verdict(password: Seq<char>, hash: Seq<char>) -> Option<bool>;

/// Relies on bcrypt::verify: whether the password hashes, with the salt and
/// cost that `hash` carries, to the same digest; an error for an unreadable hash.
#[verifier::external_body]
fn check_password(password: &str, hash: &str) -> (r: Option<bool>)
    ensures
        r == bcrypt_verdict(password@, hash@),
{
    bcrypt::verify(password, hash).ok()
}

/// Relies on bcrypt::hash with a random salt from the operating system:
/// `bcrypt::verify` accepts the password against the hash it gives.
#[verifier::external_body]
fn hash_password(password: &str, cost: u32) -> (r: Option<String>)
    requires
        4 <= cost <= 31,
    ensures
        r is Some ==> bcrypt_verdict(password@, r->Some_0@) == Some(true),
{
    bcrypt::hash(password, cost).ok()
}

/// Whether `r` is the response for `u` with a token issued at `now`, or,
/// where issuing failed, `Internal`.
pub open spec fn auth_outcome(r: Result<AuthResponse, ApiError>, u: UserRecord, secret: Seq<u8>, now: int) -> bool {
    &&& r is Ok ==> {
        let a = r->Ok_0;
        &&& issue_outcome(Ok::<String, TokenError>(a.token), secret, u.id, u.email@, u.role@, now)
        &&& a.user.id == u.id && a.user.name == u.name && a.user.email == u.email && a.user.role == u.role
    }
    &&& r is Err ==> r->Err_0 == ApiError::Internal && issue_outcome(
        Err::<String, TokenError>(TokenError::Signing),
        secret,
        u.id,
        u.email@,
        u.role@,
        now,
    )
}

/// Issues a token for `u` at `now` and pairs it with the user's summary.
pub fn issue_auth_response(u: UserRecord, secret: &[u8], now: i64) -> (r: Result<AuthResponse, ApiError>)
    ensures
        auth_outcome(r, u, secret@, now as int),
{
    let t = create_token_at(u.id, u.email.as_str(), u.role.as_str(), secret, now);
    match t {
        Ok(token) => Ok(AuthResponse {
            token,
            user: UserResponse { id: u.id, name: u.name, email: u.email, role: u.role },
        }),
        Err(_) => Err(ApiError::Internal),
    }
}

/// Logs in with the user that the directory found for the request's email
/// (`None`: no such user): the password must match the stored hash.
pub fn authorize_login(req: &LoginRequest, user: Option<UserRecord>, secret: &[u8], now: i64) -> (r: Result<AuthResponse, ApiError>)
    ensures
        user is None ==> r == Err::<AuthResponse, ApiError>(ApiError::Unauthorized),
        user is Some ==> match bcrypt_verdict(req.password@, user->Some_0.password_hash@) {
            None => r == Err::<AuthResponse, ApiError>(ApiError::Internal),
            Some(false) => r == Err::<AuthResponse, ApiError>(ApiError::Unauthorized),
            Some(true) => auth_outcome(r, user->Some_0, secret@, now as int),
        },
{
    let u = match user {
        Some(u) => u,
        None => return Err(ApiError::Unauthorized),
    };
    match check_password(req.password.as_str(), u.password_hash.as_str()) {
        None => Err(ApiError::Internal),
        Some(false) => Err(ApiError::Unauthorized),
        Some(true) => issue_auth_response(u, secret, now),
    }
}

/// The record of a new user with id `id`, created at `now`, whose password is
/// kept as a bcrypt hash; `Conflict` when the email is already registered
/// (`exists`), `Internal` when hashing fails.
pub fn prepare_registration(req: RegisterRequest, exists: bool, id: u128, now: i64) -> (r: Result<UserRecord, ApiError>)
    ensures
        exists ==> r == Err::<UserRecord, ApiError>(ApiError::Conflict),
        !exists && r is Err ==> r->Err_0 == ApiError::Internal,
        r is Ok ==> {
            let u = r->Ok_0;
            &&& u.id == id
            &&& u.name == req.name
            &&& u.email == req.email
            &&& u.role == req.role
            &&& bcrypt_verdict(req.password@, u.password_hash@) == Some(true)
            &&& u.created_at == now
            &&& u.updated_at == now
        },
{
    if exists {
        return Err(ApiError::Conflict);
    }
    match hash_password(req.password.as_str(), HASH_COST) {
        Some(password_hash) => Ok(UserRecord {
            id,
            name: req.name,
            email: req.email,
            password_hash,
            role: req.role,
            created_at: now,
            updated_at: now,
        }),
        None => Err(ApiError::Internal),
    }
}

} // verus!
