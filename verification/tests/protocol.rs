use cashflow_auth::config::Config;
use cashflow_auth::errors::ServerError;
use cashflow_auth::formatters::PhoneNumber;
use cashflow_auth::io::cookie::Cookie;
use cashflow_auth::io::input;
use cashflow_auth::io::status::Status;
use cashflow_auth::io::{error, success};
use cashflow_auth::services::plaid::link_for_token;

#[test]
fn every_status_maps_to_exactly_one_code() {
    let cases = [
        (Status::BadInput, 400),
        (Status::NoToken, 403),
        (Status::BadToken, 403),
        (Status::MalformedToken, 403),
        (Status::ExpiredToken, 403),
        (Status::DataNotFound, 401),
        (Status::FailedToCreateData, 401),
        (Status::InternalServerError, 500),
        (Status::BadLoginCredentials, 401),
        (Status::CreatedOrganization, 201),
        (Status::OrderedProduts, 201),
        (Status::Okay, 200),
        (Status::GoodLogin, 200),
    ];
    for (status, code) in cases {
        assert_eq!(status.http(), code);
    }
}

#[test]
fn error_builder_accumulates_and_finalizes() {
    let resp = error::new(Status::BadInput, "bad value")
        .input("raw-value")
        .header("x-request-id", "one")
        .cookie(Cookie::new("session", "gone"))
        .finish();
    assert_eq!(resp.code, 400);
    assert!(matches!(resp.body.status, Status::BadInput));
    assert_eq!(resp.body.error, "bad value");
    assert_eq!(resp.body.input.as_deref(), Some("raw-value"));
    assert_eq!(resp.headers, vec![("x-request-id".to_string(), "one".to_string())]);
    assert_eq!(resp.cookies.len(), 1);
    assert_eq!(resp.cookies[0].name, "session");
}

#[test]
fn header_keys_are_unique_and_last_write_wins() {
    let resp = error::new(Status::InternalServerError, "boom")
        .header("x-a", "1")
        .header("x-b", "2")
        .header("x-a", "3")
        .finish();
    assert_eq!(resp.code, 500);
    let mut keys: Vec<&str> = resp.headers.iter().map(|(k, _)| k.as_str()).collect();
    keys.sort();
    assert_eq!(keys, vec!["x-a", "x-b"]);
    let a = resp.headers.iter().find(|(k, _)| k == "x-a").unwrap();
    assert_eq!(a.1, "3");
}

#[test]
fn cookies_are_append_only_with_duplicates_permitted() {
    let resp = error::new(Status::BadToken, "nope")
        .cookie(Cookie::new("jwt", "a"))
        .cookie(Cookie::new("jwt", "b"))
        .finish();
    assert_eq!(resp.cookies.len(), 2);
    assert_eq!(resp.cookies[0].value, "a");
    assert_eq!(resp.cookies[1].value, "b");
}

#[test]
fn success_builder_accumulates_and_finalizes() {
    let resp = success::new(Status::GoodLogin, "ok")
        .data(vec![1u32, 2, 3])
        .header("x-request-id", "two")
        .cookie(Cookie::new("jwt", "token"))
        .finish();
    assert_eq!(resp.code, 200);
    assert!(matches!(resp.body.status, Status::GoodLogin));
    assert_eq!(resp.body.message, "ok");
    assert_eq!(resp.body.data, Some(vec![1u32, 2, 3]));
    assert_eq!(resp.cookies.len(), 1);
}

#[test]
fn success_without_data_keeps_none() {
    let resp = success::new::<String>(Status::CreatedOrganization, "Done").finish();
    assert_eq!(resp.code, 201);
    assert_eq!(resp.body.data, None);
    assert!(resp.headers.is_empty());
    assert!(resp.cookies.is_empty());
}

#[test]
fn server_error_builds_a_finalized_response() {
    let resp = ServerError::new(400, "bad", Some("bad_input".to_string()), Some("raw".to_string()));
    assert_eq!(resp.code, 400);
    assert_eq!(resp.body.message, "bad");
    assert_eq!(resp.body.error.as_deref(), Some("bad_input"));
    assert_eq!(resp.body.input.as_deref(), Some("raw"));
    assert!(resp.headers.is_empty());
    assert!(resp.cookies.is_empty());
}

#[test]
fn input_check_accepts_a_well_formed_number() {
    let ok = input::check("+15551234567".to_string()).unwrap();
    assert_eq!(ok, "+15551234567");
}

#[test]
fn input_check_rejects_an_empty_number() {
    let resp = input::check("".to_string()).unwrap_err();
    assert!(matches!(resp.body.status, Status::BadInput));
    assert_eq!(resp.code, 400);
    assert_eq!(resp.body.error, "Phone number must not be empty");
    assert_eq!(resp.body.input, None);
}

#[test]
fn input_check_rejects_a_missing_plus() {
    let resp = input::check("15551234567".to_string()).unwrap_err();
    assert!(matches!(resp.body.status, Status::BadInput));
    assert_eq!(resp.body.error, "Phone number must begin with '+'");
    assert_eq!(resp.body.input, None);
}

#[test]
fn input_check_rejects_non_digits_and_echoes_the_input() {
    let resp = input::check("+1555abc".to_string()).unwrap_err();
    assert!(matches!(resp.body.status, Status::BadInput));
    assert_eq!(resp.body.error, "Phone number must only contain numbers");
    assert_eq!(resp.body.input.as_deref(), Some("+1555abc"));
}

#[test]
fn input_check_rejects_a_lone_plus_followed_by_space() {
    let resp = input::check("+1 555".to_string()).unwrap_err();
    assert!(matches!(resp.body.status, Status::BadInput));
}

#[test]
fn phone_number_check_accepts_a_well_formed_number() {
    let ok = PhoneNumber::check("+4930123456".to_string()).unwrap();
    assert_eq!(ok, "+4930123456");
}

#[test]
fn phone_number_check_rejects_an_empty_number() {
    let resp = PhoneNumber::check("".to_string()).unwrap_err();
    assert_eq!(resp.code, 400);
    assert_eq!(resp.body.message, "Phone number must not be empty");
    assert_eq!(resp.body.error.as_deref(), Some("bad_input"));
    assert_eq!(resp.body.input, None);
}

#[test]
fn phone_number_check_rejects_a_missing_plus_and_echoes_input() {
    let resp = PhoneNumber::check("4930123456".to_string()).unwrap_err();
    assert_eq!(resp.code, 400);
    assert_eq!(resp.body.message, "Phone number must begin with '+'");
    assert_eq!(resp.body.error, None);
    assert_eq!(resp.body.input.as_deref(), Some("4930123456"));
}

#[test]
fn phone_number_check_rejects_non_digits_with_input_in_message() {
    let resp = PhoneNumber::check("+49x".to_string()).unwrap_err();
    assert_eq!(resp.code, 400);
    assert_eq!(resp.body.message, "Phone number must only contain numbers -- input: '+49x'");
    assert_eq!(resp.body.error.as_deref(), Some("bad_input"));
    assert_eq!(resp.body.input.as_deref(), Some("+49x"));
}

#[test]
fn link_for_token_strips_quotes_and_prefixes_the_link() {
    assert_eq!(link_for_token("\"abc-123\""), "http://localhost:8000/link/abc-123");
    assert_eq!(link_for_token("abc-123"), "http://localhost:8000/link/abc-123");
    assert_eq!(link_for_token(""), "http://localhost:8000/link/");
    assert_eq!(link_for_token("a\"b\"c"), "http://localhost:8000/link/abc");
}

#[test]
fn it_gets_a_config_from_the_lazy_static() {
    let config = Config {
        hash_key: "test-hash-key".to_string(),
        hash_salt: "0123456789abcdef".to_string(),
        jwt_key: "test-jwt-signing-key".to_string(),
        jwt_expiration: 24,
        database_url: "postgres://localhost/test".to_string(),
        port: 8000,
    };
    assert_ne!(config.hash_salt, "".to_string());
}
