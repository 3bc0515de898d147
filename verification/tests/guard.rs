use cashflow_auth::auth;
use cashflow_auth::auth::jwt::encode_at;
use cashflow_auth::auth::lock_route::{lock, lock_at, strip_bearer};
use cashflow_auth::config;
use cashflow_auth::env::Config as EnvConfig;
use cashflow_auth::io::status::Status;

const EMAIL: &str = "test@test.com";
const USER_ID: &str = "1234";
const ISSUED_AT: i64 = 1_600_000_000;

fn env_config() -> EnvConfig {
    EnvConfig {
        hash_key: "test-hash-key".to_string(),
        hash_salt: "0123456789abcdef".to_string(),
        jwt_key: "test-jwt-signing-key".to_string(),
        jwt_exp: 24,
        db_url: "postgres://localhost/test".to_string(),
        port: 8000,
        log_level: "warn".to_string(),
        twilio_auth_tkn: "SECRET-REDACTED".to_string(),
        twilio_acc_id: "SECRET-REDACTED".to_string(),
        twilio_phone: "+15550000000".to_string(),
        plaid_env: "sandbox".to_string(),
        plaid_client_id: "SECRET-REDACTED".to_string(),
        plaid_secret: "SECRET-REDACTED".to_string(),
        plaid_version: "2020-09-14".to_string(),
        localhost: "http://localhost:8000".to_string(),
    }
}

fn auth_config() -> config::Config {
    config::Config {
        hash_key: "test-hash-key".to_string(),
        hash_salt: "0123456789abcdef".to_string(),
        jwt_key: "test-jwt-signing-key".to_string(),
        jwt_expiration: 24,
        database_url: "postgres://localhost/test".to_string(),
        port: 8000,
    }
}

fn bearer(token: &str) -> String {
    format!("Bearer {}", token)
}

#[test]
fn lock_without_header_reports_no_token_and_no_cookie() {
    let resp = lock(None, &env_config()).unwrap_err();
    assert!(matches!(resp.body.status, Status::NoToken));
    assert_eq!(resp.code, 403);
    assert_eq!(resp.body.error, "No Authorization header found");
    assert!(resp.cookies.is_empty());
    assert!(resp.headers.is_empty());
}

#[test]
fn lock_with_garbage_token_reports_malformed_and_clears_cookie() {
    let resp = lock(Some("Bearer garbage"), &env_config()).unwrap_err();
    assert!(matches!(resp.body.status, Status::MalformedToken));
    assert_eq!(resp.code, 403);
    assert_eq!(resp.cookies.len(), 1);
    assert_eq!(resp.cookies[0].name, "jwt");
    assert_eq!(resp.cookies[0].value, "");
}

#[test]
fn lock_with_expired_token_reports_expiry_and_clears_cookie() {
    let cfg = env_config();
    let token = encode_at(USER_ID, EMAIL, ISSUED_AT, &cfg).unwrap();
    let header = bearer(&token);
    let resp = lock_at(Some(&header), ISSUED_AT + 48 * 3600, &cfg).unwrap_err();
    assert!(matches!(resp.body.status, Status::ExpiredToken));
    assert_eq!(resp.code, 403);
    assert_eq!(resp.body.error, "Token expired, log in again");
    assert_eq!(resp.cookies.len(), 1);
    assert_eq!(resp.cookies[0].name, "jwt");
    assert_eq!(resp.cookies[0].value, "");
}

#[test]
fn lock_with_empty_subject_reports_corrupt_and_clears_cookie() {
    let cfg = env_config();
    let token = encode_at("", EMAIL, ISSUED_AT, &cfg).unwrap();
    let header = bearer(&token);
    let resp = lock_at(Some(&header), ISSUED_AT + 10, &cfg).unwrap_err();
    assert!(matches!(resp.body.status, Status::BadToken));
    assert_eq!(resp.code, 403);
    assert_eq!(resp.body.error, "Token contains invalid fields");
    assert_eq!(resp.cookies.len(), 1);
    assert_eq!(resp.cookies[0].value, "");
}

#[test]
fn lock_with_valid_token_returns_claims() {
    let cfg = env_config();
    let token = encode_at(USER_ID, EMAIL, ISSUED_AT, &cfg).unwrap();
    let header = bearer(&token);
    let claims = lock_at(Some(&header), ISSUED_AT + 10, &cfg).unwrap();
    assert_eq!(claims.user_id, USER_ID);
    assert_eq!(claims.email, EMAIL);
}

#[test]
fn lock_accepts_a_bare_token_without_scheme_prefix() {
    let cfg = env_config();
    let token = encode_at(USER_ID, EMAIL, ISSUED_AT, &cfg).unwrap();
    let claims = lock_at(Some(&token), ISSUED_AT + 10, &cfg).unwrap();
    assert_eq!(claims.user_id, USER_ID);
}

#[test]
fn strip_bearer_removes_only_the_prefix() {
    assert_eq!(strip_bearer("Bearer xyz"), "xyz");
    assert_eq!(strip_bearer("xyz"), "xyz");
    assert_eq!(strip_bearer("bearer xyz"), "bearer xyz");
    assert_eq!(strip_bearer("Bearer "), "");
    assert_eq!(strip_bearer(""), "");
}

#[test]
fn auth_lock_without_header_reports_no_token() {
    let resp = auth::lock(None, &auth_config()).unwrap_err();
    assert_eq!(resp.code, 406);
    assert_eq!(resp.body.error_type, "no_token");
    assert_eq!(resp.body.message, "No jwt was sent");
    assert!(resp.cookies.is_empty());
}

#[test]
fn auth_lock_with_garbage_token_reports_bad_token() {
    let resp = auth::lock(Some("Bearer garbage"), &auth_config()).unwrap_err();
    assert_eq!(resp.code, 406);
    assert_eq!(resp.body.error_type, "bad_token");
    assert_eq!(resp.cookies.len(), 1);
    assert_eq!(resp.cookies[0].name, "jwt");
    assert_eq!(resp.cookies[0].value, "");
}

#[test]
fn auth_lock_with_expired_token_reports_exp_token() {
    let cfg = auth_config();
    let payload = auth::JwtPayload::new_at(USER_ID.to_string(), EMAIL.to_string(), ISSUED_AT, &cfg);
    let token = auth::create_jwt(payload, &cfg).unwrap();
    let header = format!("Bearer {}", token);
    let resp = auth::lock_at(Some(&header), ISSUED_AT + 48 * 3600, &cfg).unwrap_err();
    assert_eq!(resp.code, 406);
    assert_eq!(resp.body.error_type, "exp_token");
    assert_eq!(resp.body.message, "Token is expired");
    assert_eq!(resp.cookies.len(), 1);
}

#[test]
fn auth_lock_with_empty_subject_reports_corrupt_token() {
    let cfg = auth_config();
    let payload = auth::JwtPayload::new_at("".to_string(), EMAIL.to_string(), ISSUED_AT, &cfg);
    let token = auth::create_jwt(payload, &cfg).unwrap();
    let header = format!("Bearer {}", token);
    let resp = auth::lock_at(Some(&header), ISSUED_AT + 10, &cfg).unwrap_err();
    assert_eq!(resp.code, 406);
    assert_eq!(resp.body.error_type, "corrupt_token");
    assert_eq!(resp.body.message, "Token contains bad fields");
    assert_eq!(resp.cookies.len(), 1);
}

#[test]
fn auth_lock_with_valid_token_returns_claims() {
    let cfg = auth_config();
    let payload = auth::JwtPayload::new_at(USER_ID.to_string(), EMAIL.to_string(), ISSUED_AT, &cfg);
    let token = auth::create_jwt(payload, &cfg).unwrap();
    let header = format!("Bearer {}", token);
    let claims = auth::lock_at(Some(&header), ISSUED_AT + 10, &cfg).unwrap();
    assert_eq!(claims.user_id, USER_ID);
    assert_eq!(claims.email, EMAIL);
}
