use jsonwebtoken::{decode, encode, Algorithm, DecodingKey, EncodingKey, Header, Validation};
use serde_json::Value;

use parabellum_web::metrics::{
    inc_auth_failure, inc_auth_success, inc_refresh_failure, inc_refresh_success, inc_token_expired, snapshot,
    AuthMetrics,
};
use parabellum_web::tokens::{
    check_decoded_claims, context_from_claims, generate_refresh_token, hash_refresh_token, AccessTokenClaims,
    AuthTokenError, AuthTokenService, ACCESS_TOKEN_CLOCK_SKEW_SECS,
};

const SIGNING_KEY: &[u8] = b"signing-secret";

fn service() -> AuthTokenService {
    AuthTokenService::new(SIGNING_KEY.to_vec(), 600, 86_400)
}

#[test]
fn issue_and_verify_access_token() {
    let service = service();
    let user_id = uuid::Uuid::new_v4().as_u128();
    let player_id = uuid::Uuid::new_v4().as_u128();
    let village_id = 123;
    let session_id = uuid::Uuid::new_v4().as_u128();
    let now = chrono::Utc::now().timestamp();
    let (token, ttl) = service
        .issue_access_token_for(user_id, player_id, village_id, session_id, now)
        .expect("token");
    assert_eq!(ttl, 600);
    let ctx = service.verify_access_token(&token, now).expect("valid token");
    assert_eq!(ctx.user_id, user_id);
    assert_eq!(ctx.player_id, player_id);
    assert_eq!(ctx.current_village_id, village_id);
    assert_eq!(ctx.refresh_session_id, session_id);
}

#[test]
fn access_tokens_expire_after_the_clock_skew() {
    let service = service();
    let (token, _) = service.issue_access_token_for(1, 2, 3, 4, 1_000_000).unwrap();
    let exp = 1_000_000 + 600;
    assert!(service.verify_access_token(&token, exp + ACCESS_TOKEN_CLOCK_SKEW_SECS).is_ok());
    assert!(matches!(
        service.verify_access_token(&token, exp + ACCESS_TOKEN_CLOCK_SKEW_SECS + 1),
        Err(AuthTokenError::TokenExpired)
    ));
    let long_ago = chrono::Utc::now().timestamp() - 10_000;
    let (old, _) = service.issue_access_token_for(1, 2, 3, 4, long_ago).unwrap();
    assert!(matches!(
        service.verify_access_token(&old, chrono::Utc::now().timestamp()),
        Err(AuthTokenError::TokenExpired)
    ));
}

#[test]
fn tampered_or_foreign_access_tokens_are_invalid() {
    let service = service();
    let now = chrono::Utc::now().timestamp();
    let (token, _) = service.issue_access_token_for(1, 2, 3, 4, now).unwrap();
    let mut tampered = token.clone();
    tampered.push('x');
    assert!(matches!(service.verify_access_token(&tampered, now), Err(AuthTokenError::InvalidToken)));
    let other = AuthTokenService::new(b"another-key".to_vec(), 600, 86_400);
    assert!(matches!(other.verify_access_token(&token, now), Err(AuthTokenError::InvalidToken)));
    assert!(matches!(service.verify_access_token("not a token", now), Err(AuthTokenError::InvalidToken)));
}

#[test]
fn negative_expiry_does_not_read() {
    let service = service();
    let (token, _) = service.issue_access_token_for(1, 2, 3, 4, -5_000).unwrap();
    assert!(matches!(service.verify_access_token(&token, -5_000), Err(AuthTokenError::InvalidToken)));
}

#[test]
fn issued_tokens_are_standard_hs256_tokens() {
    let service = service();
    let now = chrono::Utc::now().timestamp();
    let (token, _) = service.issue_access_token_for(1, 2, 77, 3, now).unwrap();
    let mut validation = Validation::new(Algorithm::HS256);
    validation.leeway = ACCESS_TOKEN_CLOCK_SKEW_SECS as u64;
    let data = decode::<Value>(&token, &DecodingKey::from_secret(SIGNING_KEY), &validation).unwrap();
    assert_eq!(data.claims["sub"], "00000000-0000-0000-0000-000000000001");
    assert_eq!(data.claims["current_village_id"], 77);
    assert_eq!(data.claims["exp"], now + 600);
}

#[test]
fn tokens_signed_elsewhere_with_the_key_are_read() {
    let service = service();
    let now = chrono::Utc::now().timestamp();
    let mut claims = serde_json::Map::new();
    claims.insert("sub".to_string(), Value::String(uuid::Uuid::from_u128(9).to_string()));
    claims.insert("player_id".to_string(), Value::String(uuid::Uuid::from_u128(8).to_string()));
    claims.insert("current_village_id".to_string(), Value::from(5u32));
    claims.insert("refresh_session_id".to_string(), Value::String(uuid::Uuid::from_u128(7).to_string()));
    claims.insert("iat".to_string(), Value::from(now));
    claims.insert("exp".to_string(), Value::from(now + 60));
    let token = encode(&Header::new(Algorithm::HS256), &Value::Object(claims), &EncodingKey::from_secret(SIGNING_KEY))
        .unwrap();
    let ctx = service.verify_access_token(&token, now).unwrap();
    assert_eq!((ctx.user_id, ctx.player_id, ctx.current_village_id, ctx.refresh_session_id), (9, 8, 5, 7));
}

#[test]
fn decoded_claims_are_checked() {
    let id = |n: u128| uuid::Uuid::from_u128(n).to_string();
    let ok = check_decoded_claims(Some((id(1), id(2), 3, id(4), 0, 100)), 130).unwrap();
    assert_eq!((ok.user_id, ok.player_id, ok.current_village_id, ok.refresh_session_id), (1, 2, 3, 4));
    assert!(matches!(check_decoded_claims(Some((id(1), id(2), 3, id(4), 0, 100)), 131), Err(AuthTokenError::TokenExpired)));
    assert!(matches!(
        check_decoded_claims(Some((id(1), id(2), 1 << 32, id(4), 0, 100)), 0),
        Err(AuthTokenError::InvalidToken)
    ));
    assert!(matches!(
        check_decoded_claims(Some(("x".to_string(), id(2), 3, id(4), 0, 100)), 0),
        Err(AuthTokenError::InvalidToken)
    ));
    assert!(matches!(check_decoded_claims(None, 0), Err(AuthTokenError::InvalidToken)));
}

#[test]
fn refresh_token_hash_is_stable() {
    let raw = "sample_refresh_token";
    let h1 = hash_refresh_token(raw);
    let h2 = hash_refresh_token(raw);
    assert_eq!(h1, h2);
}

#[test]
fn refresh_token_hash_is_sha256_hex() {
    let h = hash_refresh_token("abc");
    assert_eq!(
        h,
        "ba7816bf8f01cfea414140de5dae2223b00361a396177a9cb410ff61f20015ad"
    );
}

#[test]
fn claims_carry_hyphenated_ids_and_lifetime() {
    let service = service();
    let claims = service.access_claims_for(1, 2, 77, 3, 1_000);
    assert_eq!(claims.sub, "00000000-0000-0000-0000-000000000001");
    assert_eq!(claims.player_id, "00000000-0000-0000-0000-000000000002");
    assert_eq!(claims.refresh_session_id, uuid::Uuid::from_u128(3).to_string());
    assert_eq!(claims.current_village_id, 77);
    assert_eq!(claims.iat, 1_000);
    assert_eq!(claims.exp, 1_600);
}

#[test]
fn claims_with_bad_ids_are_invalid() {
    let claims = AccessTokenClaims {
        sub: "not-a-uuid".to_string(),
        player_id: uuid::Uuid::from_u128(2).to_string(),
        current_village_id: 1,
        refresh_session_id: uuid::Uuid::from_u128(3).to_string(),
        iat: 0,
        exp: 10,
    };
    assert!(matches!(context_from_claims(&claims), Err(AuthTokenError::InvalidToken)));
}

#[test]
fn generated_refresh_tokens_are_url_safe_and_distinct() {
    let a = generate_refresh_token();
    let b = generate_refresh_token();
    assert_eq!(a.len(), 64);
    assert!(a.chars().all(|c| c.is_ascii_alphanumeric() || c == '-' || c == '_'));
    assert_ne!(a, b);
}

#[test]
fn refresh_session_expiry_adds_lifetime() {
    let service = service();
    assert_eq!(service.refresh_expires_at(1_000), 87_400);
}

#[test]
fn metrics_count_each_event() {
    let mut metrics = AuthMetrics::new();
    inc_auth_success(&mut metrics);
    inc_auth_success(&mut metrics);
    inc_auth_failure(&mut metrics);
    inc_refresh_success(&mut metrics);
    inc_refresh_failure(&mut metrics);
    inc_token_expired(&mut metrics);
    let snap = snapshot(&metrics);
    assert_eq!(snap.auth_success, 2);
    assert_eq!(snap.auth_failure, 1);
    assert_eq!(snap.refresh_success, 1);
    assert_eq!(snap.refresh_failure, 1);
    assert_eq!(snap.token_expired, 1);
}

#[test]
fn metrics_start_at_zero_and_count_past_earlier_snapshots() {
    let mut metrics = AuthMetrics::new();
    let before = snapshot(&metrics);
    assert_eq!(before.auth_success + before.auth_failure + before.refresh_success + before.refresh_failure + before.token_expired, 0);
    inc_refresh_failure(&mut metrics);
    inc_refresh_failure(&mut metrics);
    inc_token_expired(&mut metrics);
    let after = snapshot(&metrics);
    assert_eq!(after.refresh_failure, before.refresh_failure + 2);
    assert_eq!(after.token_expired, before.token_expired + 1);
    assert_eq!(after.auth_success, before.auth_success);
    let mut full = AuthMetrics { auth_success: u64::MAX, ..metrics };
    inc_auth_success(&mut full);
    assert_eq!(snapshot(&full).auth_success, 0);
}
