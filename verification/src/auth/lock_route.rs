use vstd::prelude::*;

use vstd::string::{StrSliceExecFns, StringExecFns};

use crate::auth::jwt;
use crate::auth::jwt::{is_exp_at_spec, jwt_claims_of, now_ts};
use crate::env::Config;
use crate::io::cookie::Cookie;
use crate::io::error;
use crate::io::error::ServerErrorPayload;
use crate::io::status::Status;
use crate::io::Response;

verus! {

/// The raw token carried by a credential header: the fixed scheme prefix
/// stripped when it is present (case-sensitively), the value unchanged
/// otherwise.
pub open spec fn raw_token_of(header: Seq<char>) -> Seq<char> {
    if header.len() >= 7 && header.subrange(0, 7) == "Bearer "@ {
        header.subrange(7, header.len() as int)
    } else {
        header
    }
}

/// Strips the credential scheme prefix from a header value.
pub fn strip_bearer<'a>(header: &'a str) -> (r: &'a str)
    ensures
        r@ == raw_token_of(header@),
{
    let n = header.unicode_len();
    if n >= 7 {
        let prefix = header.substring_char(0, 7);
        if prefix.to_owned() == String::from_str("Bearer ") {
            let rest = header.substring_char(7, n);
            return rest;
        }
    }
    header
}

/// The response instructs the client to overwrite the session cookie with
/// an empty value, so the stored credential is not retried.
pub open spec fn clears_session_cookie(cookies: Seq<Cookie>) -> bool {
    cookies.len() == 1 && cookies[0].name@ == "jwt"@ && cookies[0].value@.len() == 0
}

/// The guard's decision pipeline at a fixed instant, short-circuiting at
/// the first failure: no credential header, a token whose validation fails,
/// expired claims, claims with an empty subject — each a finalized error
/// response, the session cookie cleared in every case but the first — or
/// the authenticated claims.
pub fn lock_at(token: Option<&str>, now: i64, cfg: &Config) -> (r: Result<
    jwt::Payload,
    Response<ServerErrorPayload>,
>)
    ensures
        token is None ==> (r matches Err(resp) && resp.body.status == Status::NoToken && resp.code
            == 403 && resp.body.error@ == "No Authorization header found"@
            && resp.body.input is None && resp.cookies@.len() == 0 && resp.headers@.len() == 0),
        token matches Some(h) ==> match jwt_claims_of(raw_token_of(h@), cfg.jwt_key@) {
            Option::None => (r matches Err(resp) && resp.body.status == Status::MalformedToken
                && resp.code == 403 && resp.body.input is None && clears_session_cookie(
                resp.cookies@,
            ) && resp.headers@.len() == 0),
            Option::Some(c) => {
                &&& (is_exp_at_spec(c.exp, now as int) ==> (r matches Err(resp)
                    && resp.body.status == Status::ExpiredToken && resp.code == 403
                    && resp.body.error@ == "Token expired, log in again"@
                    && resp.body.input is None && clears_session_cookie(resp.cookies@)
                    && resp.headers@.len() == 0))
                &&& (!is_exp_at_spec(c.exp, now as int) && c.user_id.len() == 0 ==> (r matches Err(
                    resp,
                ) && resp.body.status == Status::BadToken && resp.code == 403 && resp.body.error@
                    == "Token contains invalid fields"@ && resp.body.input is None
                    && clears_session_cookie(resp.cookies@) && resp.headers@.len() == 0))
                &&& (!is_exp_at_spec(c.exp, now as int) && c.user_id.len() > 0 ==> (r matches Ok(p)
                    && p@ == c))
            },
        },
{
    proof {
        reveal_strlit("");
    }
    match token {
        None => Err(error::new(Status::NoToken, "No Authorization header found").finish()),
        Some(header) => {
            let cookie = strip_bearer(header);

            match jwt::decode(cookie, cfg) {
                Err(err) => Err(
                    error::new(Status::MalformedToken, err.as_str()).cookie(
                        Cookie::new("jwt", ""),
                    ).finish(),
                ),
                Ok(payload) => {
                    if payload.is_exp_at(now) {
                        return Err(
                            error::new(Status::ExpiredToken, "Token expired, log in again").cookie(
                                Cookie::new("jwt", ""),
                            ).finish(),
                        );
                    }
                    if payload.user_id.as_str().is_empty() {
                        return Err(
                            error::new(Status::BadToken, "Token contains invalid fields").cookie(
                                Cookie::new("jwt", ""),
                            ).finish(),
                        );
                    }
                    Ok(payload)
                },
            }
        },
    }
}

/// The guard: reads the clock once and runs the decision pipeline at that
/// instant. Which claims count as expired depends on that reading; all
/// other outcomes are as `lock_at` states them.
pub fn lock(token: Option<&str>, cfg: &Config) -> (r: Result<
    jwt::Payload,
    Response<ServerErrorPayload>,
>)
    ensures
        token is None ==> (r matches Err(resp) && resp.body.status == Status::NoToken && resp.code
            == 403 && resp.body.error@ == "No Authorization header found"@
            && resp.body.input is None && resp.cookies@.len() == 0 && resp.headers@.len() == 0),
        token matches Some(h) ==> match jwt_claims_of(raw_token_of(h@), cfg.jwt_key@) {
            Option::None => (r matches Err(resp) && resp.body.status == Status::MalformedToken
                && resp.code == 403 && resp.body.input is None && clears_session_cookie(
                resp.cookies@,
            ) && resp.headers@.len() == 0),
            Option::Some(c) => {
                &&& (r matches Ok(p) ==> p@ == c && c.user_id.len() > 0)
                &&& (r matches Err(resp) ==> (resp.body.status == Status::ExpiredToken
                    || resp.body.status == Status::BadToken) && resp.code == 403
                    && clears_session_cookie(resp.cookies@) && resp.headers@.len() == 0
                    && resp.body.input is None)
                &&& (r matches Err(resp) && resp.body.status == Status::BadToken ==> c.user_id.len()
                    == 0)
                &&& (c.user_id.len() == 0 ==> r is Err)
            },
        },
{
    let now = now_ts();
    lock_at(token, now, cfg)
}

} // verus!
