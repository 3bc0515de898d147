use cashflow_auth::auth;
use cashflow_auth::auth::hash::{check_hash, hash};
use cashflow_auth::config::Config;

const HASH_INPUT1: &str = "test@test.com";
const HASH_INPUT2: &str = "test@test.cob";
const HASH_INPUT3: &str = "te";

fn test_config() -> Config {
    Config {
        hash_key: "test-hash-key".to_string(),
        hash_salt: "0123456789abcdef".to_string(),
        jwt_key: "test-jwt-signing-key".to_string(),
        jwt_expiration: 24,
        database_url: "postgres://localhost/test".to_string(),
        port: 8000,
    }
}

#[test]
fn it_hashes_a_password() {
    let password = "password";
    let hashed = auth::hash(password, &test_config());
    assert_ne!(password, hashed);
}

#[test]
fn it_matches_2_hashed_passwords() {
    let password = "password";
    let cfg = test_config();
    let hashed = auth::hash(password, &cfg);
    let hashed_again = auth::hash(password, &cfg);
    assert_eq!(hashed, hashed_again);
}

#[test]
fn it_hashes() {
    let h = hash(HASH_INPUT1, &test_config());
    assert_ne!(HASH_INPUT1, h);
}

#[test]
fn it_returns_same_hash() {
    let cfg = test_config();
    let h1 = hash(HASH_INPUT1, &cfg);
    let h2 = hash(HASH_INPUT1, &cfg);
    assert_eq!(h1, h2);
}

#[test]
fn it_checks_hashes() {
    let cfg = test_config();
    let h1 = hash(HASH_INPUT1, &cfg);
    let h2 = hash(HASH_INPUT1, &cfg);

    let check = check_hash(&h1, &h2);

    assert_eq!(check, true);
}

#[test]
fn it_fails_hashes() {
    let cfg = test_config();
    let h1 = hash(HASH_INPUT1, &cfg);
    let h2 = hash(HASH_INPUT2, &cfg);

    let check = check_hash(&h1, &h2);

    assert_eq!(check, false);
}

#[test]
fn it_fails_hashes_of_diff_len() {
    let cfg = test_config();
    let h1 = hash(HASH_INPUT1, &cfg);
    let h2 = hash(HASH_INPUT3, &cfg);

    let check = check_hash(&h1, &h2);

    assert_eq!(check, false);
}

#[test]
fn hash_renders_full_length_lowercase_hex() {
    let h = hash(HASH_INPUT1, &test_config());
    assert_eq!(h.len(), 128);
    assert!(h.chars().all(|c| c.is_ascii_hexdigit() && !c.is_ascii_uppercase()));
}

#[test]
fn simple_hash_renders_64_hex_chars() {
    let h = auth::hash("password", &test_config());
    assert_eq!(h.len(), 64);
    assert!(h.chars().all(|c| c.is_ascii_hexdigit() && !c.is_ascii_uppercase()));
}

#[test]
fn check_hash_rejects_truncated_digest() {
    let cfg = test_config();
    let h1 = hash(HASH_INPUT1, &cfg);
    let truncated = &h1[0..10];
    assert_eq!(check_hash(truncated, &h1), false);
    assert_eq!(check_hash(&h1, truncated), false);
}

#[test]
fn check_hash_ignores_positions_past_digest_length() {
    // Only the configured digest length is compared; equal prefixes of that
    // length pass even when the tails differ.
    let prefix = "ab".repeat(32);
    let a = format!("{}{}", prefix, "00");
    let b = format!("{}{}", prefix, "ff");
    assert_eq!(check_hash(&a, &b), true);
}

#[test]
fn check_hash_of_identical_short_strings_fails() {
    // Shorter than the digest length: every missing position counts as a
    // mismatch, even against an identical string.
    assert_eq!(check_hash("abc", "abc"), false);
}

#[test]
fn different_salts_give_different_digests() {
    let cfg1 = test_config();
    let mut cfg2 = test_config();
    cfg2.hash_salt = "fedcba9876543210".to_string();
    assert_ne!(hash(HASH_INPUT1, &cfg1), hash(HASH_INPUT1, &cfg2));
}
