pub mod hash;
pub mod jwt;
pub mod lock_route;

use vstd::prelude::*;

use vstd::string::StringSliceAdditionalSpecFns;
use vstd::utf8::encode_utf8;

use argon2rs::argon2i_simple;

use crate::auth::hash::hex_of;
use crate::auth::hash::to_hex;
use crate::auth::jwt::{
    expiry, expiry_at, is_exp_at_spec, jwt_claims_of, jwt_parse, jwt_sign, jwt_token_of, now_ts,
    PayloadView,
};
use crate::auth::lock_route::{clears_session_cookie, raw_token_of, strip_bearer};
use crate::config::Config;
use crate::io::cookie::Cookie;
use crate::io::Response;

verus! {

/// The identity and expiry data carried inside a signed token. Usable by
/// the guard only when `user_id` is non-empty; `exp` is set at issuance and
/// never mutated.
#[derive(Clone, Debug, PartialEq)]
pub struct JwtPayload {
    pub user_id: String,
    pub email: String,
    pub exp: i64,
}

impl View for JwtPayload {
    type V = PayloadView;

    open spec fn view(&self) -> PayloadView {
        PayloadView { user_id: self.user_id@, email: self.email@, exp: self.exp as int }
    }
}

impl JwtPayload {
    /// Claims for this identity, expiring `cfg.jwt_expiration` hours after
    /// `now`.
    pub fn new_at(user_id: String, email: String, now: i64, cfg: &Config) -> (p: JwtPayload)
        ensures
            p@.user_id == user_id@,
            p@.email == email@,
            p@.exp == expiry_at(now, cfg.jwt_expiration) as int,
    {
        JwtPayload { user_id, email, exp: expiry(now, cfg.jwt_expiration) }
    }

    /// Claims for this identity, expiring `cfg.jwt_expiration` hours from
    /// now; the clock is read once.
    pub fn new(user_id: String, email: String, cfg: &Config) -> (p: JwtPayload)
        ensures
            p@.user_id == user_id@,
            p@.email == email@,
            exists|now: i64| p@.exp == expiry_at(now, cfg.jwt_expiration) as int,
    {
        let now = now_ts();
        let p = JwtPayload::new_at(user_id, email, now, cfg);
        proof {
            assert(p@.exp == expiry_at(now, cfg.jwt_expiration) as int);
        }
        p
    }
}

/// Body of the guard's rejection: a stable tag an API client can switch on
/// and a human-readable message.
#[derive(Clone, Debug)]
pub struct AuthError {
    pub error_type: String,
    pub message: String,
}

/// Signs the claims into a token with the configured key under the pinned
/// algorithm: a pure function of the claims and the key.
pub fn create_jwt(payload: JwtPayload, cfg: &Config) -> (r: Result<String, String>)
    ensures
        r is Ok,
        r matches Ok(t) ==> t@ == jwt_token_of(
            payload.user_id@,
            payload.email@,
            payload.exp,
            cfg.jwt_key@,
        ) && (payload.exp >= 0 ==> jwt_claims_of(t@, cfg.jwt_key@) == Some(
            (PayloadView {
                user_id: payload.user_id@,
                email: payload.email@,
                exp: payload.exp as int,
            }),
        )),
{
    jwt_sign(payload.user_id.as_str(), payload.email.as_str(), payload.exp, cfg.jwt_key.as_str())
}

/// Validates a signed token against the configured key and the pinned
/// algorithm and recovers the claims; expiry is not checked here.
pub fn decode_jwt(token: &str, cfg: &Config) -> (r: Result<JwtPayload, String>)
    ensures
        r is Ok <==> jwt_claims_of(token@, cfg.jwt_key@) is Some,
        r matches Ok(p) ==> Some(p@) == jwt_claims_of(token@, cfg.jwt_key@),
{
    match jwt_parse(token, cfg.jwt_key.as_str()) {
        Ok(p) => Ok(JwtPayload { user_id: p.user_id, email: p.email, exp: p.exp }),
        Err(e) => Err(e),
    }
}

/// The digest `hash` derives for a password under a salt: the simple
/// Argon2i form with default cost parameters, rendered as hex.
pub open spec fn hash_spec(password: Seq<char>, salt: Seq<char>) -> Seq<char> {
    hex_of(argon2i_simple_digest(encode_utf8(password), encode_utf8(salt)))
}

/// The 32-byte digest argon2rs's simple Argon2i form produces for a
/// password and salt. Stated only as a name: the primitive is a
/// deterministic function of its arguments.
pub uninterp spec fn argon2i_simple_digest(password: Seq<u8>, salt: Seq<u8>) -> Seq<u8>;

/// Relies on argon2rs::argon2i_simple: a 32-byte digest under the crate's
/// default cost parameters, a deterministic function of password and salt;
/// the requires keep the input lengths in the range it accepts without
/// panicking.
#[verifier::external_body]
fn argon2i_simple_hash(password: &str, salt: &str) -> (r: Vec<u8>)
    requires
        password.spec_bytes().len() <= 0xffffffff,
        8 <= salt.spec_bytes().len() <= 0xffffffff,
    ensures
        r@.len() == 32,
        r@ == argon2i_simple_digest(password.spec_bytes(), salt.spec_bytes()),
{
    argon2i_simple(password, salt).to_vec()
}

/// Derives the digest of a password under the process-wide salt, rendered
/// as lowercase hexadecimal. Deterministic: the same password under the
/// same configuration always yields the same digest.
pub fn hash(password: &str, cfg: &Config) -> (r: String)
    requires
        encode_utf8(password@).len() <= 0xffffffff,
        8 <= encode_utf8(cfg.hash_salt@).len() <= 0xffffffff,
    ensures
        r@ == hash_spec(password@, cfg.hash_salt@),
        r@.len() == 64,
{
    let digest = argon2i_simple_hash(password, cfg.hash_salt.as_str());
    proof {
        crate::auth::hash::lemma_hex_of_ascii_len(digest@);
    }
    to_hex(&digest)
}

/// The guard's decision pipeline at a fixed instant, short-circuiting at
/// the first failure; every rejection is a finalized not-acceptable
/// response with a stable error tag, and every rejection past the missing
/// header clears the session cookie.
pub fn lock_at(token: Option<&str>, now: i64, cfg: &Config) -> (r: Result<
    JwtPayload,
    Response<AuthError>,
>)
    ensures
        token is None ==> (r matches Err(resp) && resp.code == 406 && resp.body.error_type@
            == "no_token"@ && resp.body.message@ == "No jwt was sent"@ && resp.cookies@.len() == 0
            && resp.headers@.len() == 0),
        token matches Some(h) ==> match jwt_claims_of(raw_token_of(h@), cfg.jwt_key@) {
            Option::None => (r matches Err(resp) && resp.code == 406 && resp.body.error_type@
                == "bad_token"@ && clears_session_cookie(resp.cookies@) && resp.headers@.len()
                == 0),
            Option::Some(c) => {
                &&& (is_exp_at_spec(c.exp, now as int) ==> (r matches Err(resp) && resp.code == 406
                    && resp.body.error_type@ == "exp_token"@ && resp.body.message@
                    == "Token is expired"@ && clears_session_cookie(resp.cookies@)
                    && resp.headers@.len() == 0))
                &&& (!is_exp_at_spec(c.exp, now as int) && c.user_id.len() == 0 ==> (r matches Err(
                    resp,
                ) && resp.code == 406 && resp.body.error_type@ == "corrupt_token"@
                    && resp.body.message@ == "Token contains bad fields"@ && clears_session_cookie(
                    resp.cookies@,
                ) && resp.headers@.len() == 0))
                &&& (!is_exp_at_spec(c.exp, now as int) && c.user_id.len() > 0 ==> (r matches Ok(p)
                    && p@ == c))
            },
        },
{
    proof {
        reveal_strlit("");
    }
    match token {
        None => Err(
            Response {
                code: 406,
                body: AuthError {
                    error_type: "no_token".to_owned(),
                    message: "No jwt was sent".to_owned(),
                },
                headers: Vec::new(),
                cookies: Vec::new(),
            },
        ),
        Some(header) => {
            let cookie = strip_bearer(header);
            match decode_jwt(cookie, cfg) {
                Err(error) => {
                    let mut cookies: Vec<Cookie> = Vec::new();
                    cookies.push(Cookie::new("jwt", ""));
                    Err(
                        Response {
                            code: 406,
                            body: AuthError { error_type: "bad_token".to_owned(), message: error },
                            headers: Vec::new(),
                            cookies,
                        },
                    )
                },
                Ok(payload) => {
                    if payload.exp <= now {
                        let mut cookies: Vec<Cookie> = Vec::new();
                        cookies.push(Cookie::new("jwt", ""));
                        return Err(
                            Response {
                                code: 406,
                                body: AuthError {
                                    error_type: "exp_token".to_owned(),
                                    message: "Token is expired".to_owned(),
                                },
                                headers: Vec::new(),
                                cookies,
                            },
                        );
                    }
                    if payload.user_id.as_str().is_empty() {
                        let mut cookies: Vec<Cookie> = Vec::new();
                        cookies.push(Cookie::new("jwt", ""));
                        return Err(
                            Response {
                                code: 406,
                                body: AuthError {
                                    error_type: "corrupt_token".to_owned(),
                                    message: "Token contains bad fields".to_owned(),
                                },
                                headers: Vec::new(),
                                cookies,
                            },
                        );
                    }
                    Ok(payload)
                },
            }
        },
    }
}

/// The guard: reads the clock once and runs the decision pipeline at that
/// instant. Which claims count as expired depends on that reading; all
/// other outcomes are as `lock_at` states them.
pub fn lock(token: Option<&str>, cfg: &Config) -> (r: Result<JwtPayload, Response<AuthError>>)
    ensures
        token is None ==> (r matches Err(resp) && resp.code == 406 && resp.body.error_type@
            == "no_token"@ && resp.body.message@ == "No jwt was sent"@ && resp.cookies@.len() == 0
            && resp.headers@.len() == 0),
        token matches Some(h) ==> match jwt_claims_of(raw_token_of(h@), cfg.jwt_key@) {
            Option::None => (r matches Err(resp) && resp.code == 406 && resp.body.error_type@
                == "bad_token"@ && clears_session_cookie(resp.cookies@) && resp.headers@.len()
                == 0),
            Option::Some(c) => {
                &&& (r matches Ok(p) ==> p@ == c && c.user_id.len() > 0)
                &&& (r matches Err(resp) ==> resp.code == 406 && (resp.body.error_type@
                    == "exp_token"@ || resp.body.error_type@ == "corrupt_token"@)
                    && clears_session_cookie(resp.cookies@) && resp.headers@.len() == 0)
                &&& (r matches Err(resp) && resp.body.error_type@ == "corrupt_token"@
                    ==> c.user_id.len() == 0)
                &&& (c.user_id.len() == 0 ==> r is Err)
            },
        },
{
    let now = now_ts();
    let r = lock_at(token, now, cfg);
    proof {
        reveal_strlit("exp_token");
        reveal_strlit("corrupt_token");
        assert("exp_token"@.len() == 9);
        assert("corrupt_token"@.len() == 13);
    }
    r
}

} // verus!
