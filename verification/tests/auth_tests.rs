use taskhub::auth::jwt::{
    create_jwt, create_jwt_at, verify_jwt, verify_jwt_at, JwtError, JWT_SECRET,
};
use taskhub::auth::middleware::{auth_middleware, auth_middleware_at, bearer_token};
use taskhub::auth::password::{hash_password, verify_password};
use taskhub::ids::{parse_uuid, uuid_to_text};
use taskhub::status::Status;
use taskhub::text::{strip_prefix, text_eq, u32_text};
use taskhub::time::{utc_now, LATEST_SECS};

const USER: u128 = 0x67e5_5044_10b1_426f_9247_bb68_0e5f_e0c8;

#[test]
fn secret_is_the_configured_text() {
    assert_eq!(&JWT_SECRET, b"super_secret_key");
}

#[test]
fn uuid_text_is_hyphenated_and_parses_back() {
    let text = uuid_to_text(USER);
    assert_eq!(text, "67e55044-10b1-426f-9247-bb680e5fe0c8");
    assert_eq!(parse_uuid(&text), Some(USER));
    assert_eq!(parse_uuid("not-a-uuid"), None);
}

#[test]
fn token_issued_at_an_instant_expires_a_day_later() {
    let token = create_jwt_at(USER, "a@b.c".to_string(), "admin".to_string(), 1_700_000_000).unwrap();
    let claims = verify_jwt_at(&token, 1_700_000_000).unwrap();
    assert_eq!(claims.sub, "67e55044-10b1-426f-9247-bb680e5fe0c8");
    assert_eq!(claims.email, "a@b.c");
    assert_eq!(claims.role, "admin");
    assert_eq!(claims.exp, 1_700_086_400);
}

#[test]
fn token_accepted_until_leeway_runs_out() {
    let token = create_jwt_at(USER, "a@b.c".to_string(), "staff".to_string(), 1_700_000_000).unwrap();
    assert!(verify_jwt_at(&token, 1_700_086_400 + 60).is_ok());
    assert_eq!(verify_jwt_at(&token, 1_700_086_400 + 61).unwrap_err(), JwtError::Expired);
}

#[test]
fn tampered_token_is_invalid() {
    let token = create_jwt_at(USER, "a@b.c".to_string(), "staff".to_string(), 1_700_000_000).unwrap();
    let mut bytes = token.into_bytes();
    let last = bytes.len() - 2;
    bytes[last] = if bytes[last] == b'A' { b'B' } else { b'A' };
    let tampered = String::from_utf8(bytes).unwrap();
    assert_eq!(verify_jwt_at(&tampered, 1_700_000_000).unwrap_err(), JwtError::Invalid);
    assert_eq!(verify_jwt_at("garbage", 1_700_000_000).unwrap_err(), JwtError::Invalid);
}

#[test]
fn token_signed_with_another_key_is_invalid() {
    let mut claims = serde_json::Map::new();
    claims.insert("sub".to_string(), serde_json::Value::from("x"));
    claims.insert("email".to_string(), serde_json::Value::from("x"));
    claims.insert("role".to_string(), serde_json::Value::from("admin"));
    claims.insert("exp".to_string(), serde_json::Value::from(4_000_000_000u64));
    let token = jsonwebtoken::encode(
        &jsonwebtoken::Header::default(),
        &serde_json::Value::Object(claims),
        &jsonwebtoken::EncodingKey::from_secret(b"another_key"),
    )
    .unwrap();
    assert_eq!(verify_jwt_at(&token, 1_700_000_000).unwrap_err(), JwtError::Invalid);
}

#[test]
fn token_without_expiry_is_invalid() {
    let mut claims = serde_json::Map::new();
    claims.insert("sub".to_string(), serde_json::Value::from("x"));
    claims.insert("email".to_string(), serde_json::Value::from("x"));
    claims.insert("role".to_string(), serde_json::Value::from("admin"));
    let token = jsonwebtoken::encode(
        &jsonwebtoken::Header::default(),
        &serde_json::Value::Object(claims),
        &jsonwebtoken::EncodingKey::from_secret(&JWT_SECRET),
    )
    .unwrap();
    assert_eq!(verify_jwt_at(&token, 1_700_000_000).unwrap_err(), JwtError::Invalid);
}

#[test]
fn token_cannot_be_issued_past_the_clock_range() {
    let r = create_jwt_at(USER, "a".to_string(), "b".to_string(), LATEST_SECS - 86_399);
    assert_eq!(r.unwrap_err(), JwtError::ClockOutOfRange);
    assert!(create_jwt_at(USER, "a".to_string(), "b".to_string(), LATEST_SECS - 86_400).is_ok());
}

#[test]
fn same_instant_gives_same_token() {
    let a = create_jwt_at(USER, "a@b.c".to_string(), "admin".to_string(), 1_700_000_000).unwrap();
    let b = create_jwt_at(USER, "a@b.c".to_string(), "admin".to_string(), 1_700_000_000).unwrap();
    assert_eq!(a, b);
    assert_eq!(a.split('.').count(), 3);
}

#[test]
fn token_issued_now_verifies_now() {
    let token = create_jwt(USER, "now@x.y".to_string(), "admin".to_string()).unwrap();
    let claims = verify_jwt(&token).unwrap();
    assert_eq!(claims.email, "now@x.y");
    let now = utc_now().secs;
    assert!((claims.exp as i64 - now - 86_400).abs() <= 2);
}

#[test]
fn hashed_password_verifies_and_others_do_not() {
    let hash = hash_password("admin123").unwrap();
    assert!(hash.starts_with("$argon2id$v=19$m=19456,t=2,p=1$"));
    assert_eq!(hash.len(), 31 + 22 + 1 + 43);
    assert_eq!(&hash[53..54], "$");
    assert!(verify_password("admin123", &hash).is_ok());
    assert!(verify_password("admin124", &hash).is_err());
    assert!(verify_password("admin123", "not a hash").is_err());
}

#[test]
fn two_hashes_of_one_password_use_different_salts() {
    let a = hash_password("bond007").unwrap();
    let b = hash_password("bond007").unwrap();
    assert_ne!(a, b);
}

#[test]
fn bearer_token_is_extracted() {
    assert_eq!(bearer_token("Bearer abc.def"), Some("abc.def"));
    assert_eq!(bearer_token("Bearer "), Some(""));
    assert_eq!(bearer_token("Basic abc"), None);
    assert_eq!(bearer_token("bearer abc"), None);
}

#[test]
fn middleware_rejects_missing_or_bad_credentials() {
    assert_eq!(auth_middleware_at(None, 1_700_000_000).unwrap_err(), Status::Unauthorized);
    assert_eq!(auth_middleware_at(Some("Token x"), 1_700_000_000).unwrap_err(), Status::Unauthorized);
    assert_eq!(auth_middleware_at(Some("Bearer x"), 1_700_000_000).unwrap_err(), Status::Unauthorized);
    assert_eq!(auth_middleware(Some("Bearer x")).unwrap_err(), Status::Unauthorized);
    assert_eq!(Status::Unauthorized.code(), 401);
}

#[test]
fn middleware_admits_a_valid_token() {
    let token = create_jwt_at(USER, "a@b.c".to_string(), "admin".to_string(), 1_700_000_000).unwrap();
    let header = format!("Bearer {}", token);
    let claims = auth_middleware_at(Some(&header), 1_700_000_100).unwrap();
    assert_eq!(claims.role, "admin");
    assert_eq!(auth_middleware_at(Some(&header), 1_800_000_000).unwrap_err(), Status::Unauthorized);
}

#[test]
fn text_helpers() {
    assert!(text_eq("admin", "admin"));
    assert!(!text_eq("admin", "Admin"));
    assert_eq!(strip_prefix("Bearer x", "Bearer "), Some("x"));
    assert_eq!(strip_prefix("Bearer é€", "Bearer "), Some("é€"));
    assert_eq!(strip_prefix("Bear", "Bearer "), None);
    assert!(text_eq("héllo", "héllo"));
    assert!(!text_eq("héllo", "hello"));
    assert_eq!(u32_text(123456), "123456");
    assert_eq!(u32_text(0), "0");
}

#[test]
fn status_codes() {
    assert_eq!(Status::Success.code(), 200);
    assert_eq!(Status::Created.code(), 201);
    assert_eq!(Status::BadRequest.code(), 400);
    assert_eq!(Status::Forbidden.code(), 403);
    assert_eq!(Status::NotFound.code(), 404);
    assert_eq!(Status::InternalServerError.code(), 500);
}
