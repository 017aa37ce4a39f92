use ticket_hub::accounts::{authorize_login, issue_auth_response, prepare_registration, ApiError, UserRecord};
use ticket_hub::requests::{LoginRequest, RegisterRequest};
use ticket_hub::token::verify_token_at;

const SECRET: &[u8] = b"accounts-secret";

fn user_with_password(pw: &str) -> UserRecord {
    UserRecord {
        id: 77,
        name: "Ann".into(),
        email: "ann@example.com".into(),
        password_hash: bcrypt::hash(pw, 4).unwrap(),
        role: "agent".into(),
        created_at: 0,
        updated_at: 0,
    }
}

fn login_req(pw: &str) -> LoginRequest {
    LoginRequest { email: "ann@example.com".into(), password: pw.into() }
}

#[test]
fn login_with_right_password_gives_token() {
    let r = authorize_login(&login_req("hunter2"), Some(user_with_password("hunter2")), SECRET, 1000).unwrap();
    assert_eq!(r.user.id, 77);
    assert_eq!(r.user.name, "Ann");
    let c = verify_token_at(&r.token, SECRET, 1001, 0).unwrap();
    assert_eq!(c.email, "ann@example.com");
    assert_eq!(c.role, "agent");
}

#[test]
fn login_with_wrong_password_or_unknown_user_is_unauthorized() {
    let wrong = authorize_login(&login_req("nope"), Some(user_with_password("hunter2")), SECRET, 1000);
    assert_eq!(wrong.unwrap_err(), ApiError::Unauthorized);
    let unknown = authorize_login(&login_req("hunter2"), None, SECRET, 1000);
    assert_eq!(unknown.unwrap_err(), ApiError::Unauthorized);
}

#[test]
fn unreadable_hash_is_internal() {
    let mut u = user_with_password("x");
    u.password_hash = "not-a-hash".into();
    assert_eq!(authorize_login(&login_req("x"), Some(u), SECRET, 0).unwrap_err(), ApiError::Internal);
}

#[test]
fn registration_hashes_the_password() {
    let req = RegisterRequest { name: "Bo".into(), email: "bo@x.io".into(), password: "pw".into(), role: "customer".into() };
    let u = prepare_registration(req, false, 9, 50).unwrap();
    assert_eq!((u.id, u.created_at, u.updated_at), (9, 50, 50));
    assert_ne!(u.password_hash, "pw");
    assert!(bcrypt::verify("pw", &u.password_hash).unwrap());
    let r = issue_auth_response(u, SECRET, 60).unwrap();
    assert_eq!(r.user.email, "bo@x.io");
    assert!(verify_token_at(&r.token, SECRET, 61, 0).is_ok());
}

#[test]
fn registering_a_taken_email_conflicts() {
    let req = RegisterRequest { name: "Bo".into(), email: "bo@x.io".into(), password: "pw".into(), role: "customer".into() };
    assert_eq!(prepare_registration(req, true, 9, 50).unwrap_err(), ApiError::Conflict);
}

#[test]
fn signing_fails_when_expiry_does_not_fit() {
    let r = issue_auth_response(user_with_password("a"), SECRET, i64::MAX);
    assert_eq!(r.unwrap_err(), ApiError::Internal);
}
