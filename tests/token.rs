use ticket_hub::token::{
    create_token, create_token_at, verify_token, verify_token_at, TokenError, TOKEN_LIFETIME_SECS,
};

const SECRET: &[u8] = b"test-signing-secret";
const USER: u128 = 0x550e8400_e29b_41d4_a716_446655440000;

fn signed(claims: &serde_json::Value, secret: &[u8]) -> String {
    jsonwebtoken::encode(
        &jsonwebtoken::Header::default(),
        claims,
        &jsonwebtoken::EncodingKey::from_secret(secret),
    )
    .unwrap()
}

#[test]
fn issued_token_verifies_to_its_claims() {
    let now = 1_700_000_000;
    let t = create_token_at(USER, "ann@example.com", "agent", SECRET, now).unwrap();
    let c = verify_token_at(&t, SECRET, now + 60, 0).unwrap();
    assert_eq!(c.sub, "550e8400-e29b-41d4-a716-446655440000");
    assert_eq!(c.email, "ann@example.com");
    assert_eq!(c.role, "agent");
    assert_eq!(c.iat, now);
    assert_eq!(c.exp, now + 86400);
    assert!(c.iat <= now + 60 && now + 60 <= c.exp);
}

#[test]
fn issued_token_verifies_at_the_current_time() {
    let t = create_token(USER, "ann@example.com", "customer", SECRET).unwrap();
    let c = verify_token(&t, SECRET).unwrap();
    assert_eq!(c.sub, "550e8400-e29b-41d4-a716-446655440000");
    assert_eq!(c.role, "customer");
    assert_eq!(c.exp - c.iat, TOKEN_LIFETIME_SECS);
}

#[test]
fn subject_is_the_hyphenated_uuid() {
    let t = create_token_at(42, "a@b.c", "admin", SECRET, 0).unwrap();
    let c = verify_token_at(&t, SECRET, 1, 0).unwrap();
    assert_eq!(c.sub, "00000000-0000-0000-0000-00000000002a");
}

#[test]
fn token_expires_after_a_day() {
    let now = 1_000_000;
    let t = create_token_at(USER, "a@b.c", "agent", SECRET, now).unwrap();
    assert!(verify_token_at(&t, SECRET, now + 86399, 0).is_ok());
    assert_eq!(verify_token_at(&t, SECRET, now + 86400, 0).unwrap_err(), TokenError::Expired);
    assert_eq!(verify_token_at(&t, SECRET, now + 999_999, 0).unwrap_err(), TokenError::Expired);
}

#[test]
fn leeway_extends_acceptance() {
    let now = 1_000_000;
    let t = create_token_at(USER, "a@b.c", "agent", SECRET, now).unwrap();
    assert!(verify_token_at(&t, SECRET, now + 86404, 5).is_ok());
    assert_eq!(verify_token_at(&t, SECRET, now + 86405, 5).unwrap_err(), TokenError::Expired);
}

#[test]
fn expiry_that_does_not_fit_fails_to_sign() {
    assert_eq!(create_token_at(USER, "a@b.c", "agent", SECRET, i64::MAX - 10).unwrap_err(), TokenError::Signing);
    assert!(create_token_at(USER, "a@b.c", "agent", SECRET, i64::MAX - 86400).is_ok());
}

#[test]
fn wrong_secret_is_a_signature_error() {
    let t = create_token_at(USER, "a@b.c", "agent", SECRET, 100).unwrap();
    assert_eq!(verify_token_at(&t, b"another-secret", 200, 0).unwrap_err(), TokenError::InvalidSignature);
}

#[test]
fn every_flipped_byte_is_rejected() {
    let t = create_token_at(USER, "ann@example.com", "agent", SECRET, 100).unwrap();
    let first_dot = t.find('.').unwrap();
    let second_dot = t.rfind('.').unwrap();
    let bytes = t.as_bytes();
    for i in 0..bytes.len() {
        let mut b = bytes.to_vec();
        b[i] = if b[i] == b'A' { b'B' } else { b'A' };
        let flipped = String::from_utf8(b).unwrap();
        let r = verify_token_at(&flipped, SECRET, 200, 0);
        assert!(r.is_err(), "accepted a token changed at byte {}", i);
        if i > first_dot && i < second_dot {
            assert_eq!(r.unwrap_err(), TokenError::InvalidSignature);
        }
    }
}

#[test]
fn garbage_is_malformed() {
    assert_eq!(verify_token_at("not a token", SECRET, 0, 0).unwrap_err(), TokenError::Malformed);
    assert_eq!(verify_token_at("", SECRET, 0, 0).unwrap_err(), TokenError::Malformed);
}

#[test]
fn missing_claim_is_malformed() {
    let mut m = serde_json::Map::new();
    m.insert("sub".to_string(), "00000000-0000-0000-0000-00000000002a".into());
    m.insert("email".to_string(), "a@b.c".into());
    m.insert("exp".to_string(), 5000.into());
    m.insert("iat".to_string(), 1000.into());
    let t = signed(&serde_json::Value::Object(m), SECRET);
    assert_eq!(verify_token_at(&t, SECRET, 2000, 0).unwrap_err(), TokenError::Malformed);
}

#[test]
fn foreign_token_with_all_claims_verifies() {
    let mut m = serde_json::Map::new();
    m.insert("sub".to_string(), "00000000-0000-0000-0000-00000000002a".into());
    m.insert("email".to_string(), "a@b.c".into());
    m.insert("role".to_string(), "agent".into());
    m.insert("exp".to_string(), 5000.into());
    m.insert("iat".to_string(), 1000.into());
    let t = signed(&serde_json::Value::Object(m), SECRET);
    let c = verify_token_at(&t, SECRET, 4999, 0).unwrap();
    assert_eq!((c.exp, c.iat), (5000, 1000));
    assert_eq!(verify_token_at(&t, SECRET, 5000, 0).unwrap_err(), TokenError::Expired);
}

#[test]
fn expiry_before_the_epoch_fails_to_sign() {
    assert_eq!(create_token_at(USER, "a@b.c", "agent", SECRET, -200_000).unwrap_err(), TokenError::Signing);
    assert_eq!(create_token_at(USER, "a@b.c", "agent", SECRET, -86_401).unwrap_err(), TokenError::Signing);
}

#[test]
fn expiry_at_the_epoch_still_reads_back() {
    let t = create_token_at(USER, "a@b.c", "agent", SECRET, -86_400).unwrap();
    let c = verify_token_at(&t, SECRET, -86_400, 0).unwrap();
    assert_eq!((c.exp, c.iat), (0, -86_400));
}

#[test]
fn negative_expiry_in_a_foreign_token_is_malformed() {
    let mut m = serde_json::Map::new();
    m.insert("sub".to_string(), "00000000-0000-0000-0000-00000000002a".into());
    m.insert("email".to_string(), "a@b.c".into());
    m.insert("role".to_string(), "agent".into());
    m.insert("exp".to_string(), (-5).into());
    m.insert("iat".to_string(), (-10).into());
    let t = signed(&serde_json::Value::Object(m), SECRET);
    assert_eq!(verify_token_at(&t, SECRET, -20, 0).unwrap_err(), TokenError::Malformed);
}

#[test]
fn uuid_text_groups_all_digits() {
    let t = create_token_at(0x0123_4567_89ab_cdef_fedc_ba98_7654_3210, "a@b.c", "agent", SECRET, 0).unwrap();
    let c = verify_token_at(&t, SECRET, 1, 0).unwrap();
    assert_eq!(c.sub, "01234567-89ab-cdef-fedc-ba9876543210");
}
