use vstd::prelude::*;

verus! {

/// Process-wide configuration, established once at startup and read-only
/// afterwards: hashing secrets, token signing key and expiry window, and the
/// settings of the external collaborators (store, SMS gateway, bank-linking
/// API). The loader that fills it from the environment lives with the
/// process glue.
#[derive(Clone, Debug)]
pub struct Config {
    pub hash_key: String,
    pub hash_salt: String,
    pub jwt_key: String,
    pub jwt_exp: i64,
    pub db_url: String,
    pub port: u16,
    pub log_level: String,
    pub twilio_auth_tkn: String,
    pub twilio_acc_id: String,
    pub twilio_phone: String,
    pub plaid_env: String,
    pub plaid_client_id: String,
    pub plaid_secret: String,
    pub plaid_version: String,
    pub localhost: String,
}

} // verus!
