use vstd::prelude::*;

verus! {

/// Process-wide configuration, established once at startup and read-only
/// afterwards. The loader that fills it from the environment lives with the
/// process glue; this core only consumes the values.
#[derive(Clone, Debug)]
pub struct Config {
    pub hash_key: String,
    pub hash_salt: String,
    pub jwt_key: String,
    pub jwt_expiration: i64,
    pub database_url: String,
    pub port: u16,
}

} // verus!
