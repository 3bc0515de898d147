use vstd::prelude::*;

use jsonwebtoken::{Algorithm, DecodingKey, EncodingKey, Header, Validation};
use serde_json::Value;

use crate::env::Config;
use crate::io::cookie::Cookie;

verus! {

/// The identity and expiry data carried inside a signed token. Usable by a
/// guard only when `user_id` is non-empty; `exp` is set at issuance and
/// never mutated.
#[derive(Clone, Debug, PartialEq)]
pub struct Payload {
    pub user_id: String,
    pub email: String,
    pub exp: i64,
}

/// The mathematical value of a [`Payload`].
pub ghost struct PayloadView {
    pub user_id: Seq<char>,
    pub email: Seq<char>,
    pub exp: int,
}

impl View for Payload {
    type V = PayloadView;

    open spec fn view(&self) -> PayloadView {
        PayloadView { user_id: self.user_id@, email: self.email@, exp: self.exp as int }
    }
}

/// The signed token that issuance produces for these claims under this
/// key. Stated only as a name: the token is a deterministic function of the
/// claims and the key, and nothing more is assumed of its text.
pub uninterp spec fn jwt_token_of(
    user_id: Seq<char>,
    email: Seq<char>,
    exp: i64,
    key: Seq<char>,
) -> Seq<char>;

/// What validation recovers from a token under a key: the claims when the
/// token carries the pinned algorithm, its signature verifies and the
/// required claim fields are present; nothing otherwise. A function of the
/// token and the key alone — expiry is deliberately not part of it.
pub uninterp spec fn jwt_claims_of(token: Seq<char>, key: Seq<char>) -> Option<PayloadView>;

/// Relies on jsonwebtoken::encode with the pinned HS512 algorithm and an
/// HMAC secret key: the token is a deterministic function of the claims and
/// the key; HMAC signing accepts any key and message, so the call returns
/// Ok; and jsonwebtoken::decode under the same key recovers exactly these
/// claims when the expiry is non-negative (a negative one fails the
/// decoder's required-claim parse).
#[verifier::external_body]
pub(crate) fn jwt_sign(user_id: &str, email: &str, exp: i64, key: &str) -> (r: Result<String, String>)
    ensures
        r is Ok,
        r matches Ok(t) ==> t@ == jwt_token_of(user_id@, email@, exp, key@) && (exp >= 0
            ==> jwt_claims_of(t@, key@) == Some(
            (PayloadView { user_id: user_id@, email: email@, exp: exp as int }),
        )),
{
    let mut claims = serde_json::Map::new();
    claims.insert("email".to_string(), Value::from(email));
    claims.insert("exp".to_string(), Value::from(exp));
    claims.insert("user_id".to_string(), Value::from(user_id));
    let ek = EncodingKey::from_secret(key.as_bytes());
    match jsonwebtoken::encode(&Header::new(Algorithm::HS512), &Value::Object(claims), &ek) {
        Ok(t) => Ok(t),
        Err(e) => Err(e.to_string()),
    }
}

/// Relies on jsonwebtoken::decode pinned to HS512 (a token asserting any
/// other or no algorithm is rejected), verifying the signature against the
/// HMAC secret key, with expiry validation switched off so that expired but
/// otherwise valid claims are still returned; and on serde_json::Value
/// accessors to move the claim fields out. The whole outcome is a
/// deterministic function of the token and the key, named `jwt_claims_of`.
#[verifier::external_body]
pub(crate) fn jwt_parse(token: &str, key: &str) -> (r: Result<Payload, String>)
    ensures
        r is Ok <==> jwt_claims_of(token@, key@) is Some,
        r matches Ok(p) ==> Some(p@) == jwt_claims_of(token@, key@),
{
    let mut validation = Validation::new(Algorithm::HS512);
    validation.validate_exp = false;
    let dk = DecodingKey::from_secret(key.as_bytes());
    let data = match jsonwebtoken::decode::<Value>(token, &dk, &validation) {
        Ok(d) => d.claims,
        Err(e) => return Err(e.to_string()),
    };
    match (data.get("user_id"), data.get("email"), data.get("exp").and_then(Value::as_i64)) {
        (Some(Value::String(u)), Some(Value::String(m)), Some(exp)) => {
            Ok(Payload { user_id: u.clone(), email: m.clone(), exp })
        },
        _ => Err(String::from("token claims are missing required fields")),
    }
}

/// Relies on chrono::Utc::now for the current time, as seconds since the
/// epoch; nothing is assumed of the value it returns.
#[verifier::external_body]
pub(crate) fn now_ts() -> i64 {
    chrono::Utc::now().timestamp()
}

/// Clamps a mathematical integer to the representable range.
pub open spec fn clamp_to_i64(x: int) -> i64 {
    if x > i64::MAX {
        i64::MAX
    } else if x < i64::MIN {
        i64::MIN
    } else {
        x as i64
    }
}

/// The expiry instant of a token issued at `now` with a lifetime of `hours`
/// hours, clamped to the representable range.
pub open spec fn expiry_at(now: i64, hours: i64) -> i64 {
    clamp_to_i64(now + hours * 3600)
}

/// Computes the expiry instant for a token issued at `now` with a lifetime
/// of `hours` hours, saturating at the representable range.
pub fn expiry(now: i64, hours: i64) -> (r: i64)
    ensures
        r == expiry_at(now, hours),
{
    let total: i128 = (now as i128) + (hours as i128) * 3600;
    if total > i64::MAX as i128 {
        i64::MAX
    } else if total < i64::MIN as i128 {
        i64::MIN
    } else {
        total as i64
    }
}

/// True iff claims with this expiry are expired at this instant.
pub open spec fn is_exp_at_spec(exp: int, now: int) -> bool {
    exp <= now
}

impl Payload {
    /// Claims for this identity, expiring `cfg.jwt_exp` hours after `now`.
    pub fn new_at(user_id: String, email: String, now: i64, cfg: &Config) -> (p: Payload)
        ensures
            p@.user_id == user_id@,
            p@.email == email@,
            p@.exp == expiry_at(now, cfg.jwt_exp) as int,
    {
        Payload { user_id, email, exp: expiry(now, cfg.jwt_exp) }
    }

    /// Claims for this identity, expiring `cfg.jwt_exp` hours from now; the
    /// clock is read once.
    fn new(user_id: String, email: String, cfg: &Config) -> (p: Payload)
        ensures
            p@.user_id == user_id@,
            p@.email == email@,
            exists|now: i64| p@.exp == expiry_at(now, cfg.jwt_exp) as int,
    {
        let now = now_ts();
        let p = Payload::new_at(user_id, email, now, cfg);
        proof {
            assert(p@.exp == expiry_at(now, cfg.jwt_exp) as int);
        }
        p
    }

    /// Whether the claims are expired at the given instant.
    pub fn is_exp_at(&self, now: i64) -> (r: bool)
        ensures
            r == is_exp_at_spec(self@.exp, now as int),
    {
        self.exp <= now
    }

    /// Whether the claims are expired now; the clock is read once and the
    /// answer is what `is_exp_at` returns for its value.
    pub fn is_exp(&self) -> (r: bool)
        ensures
            exists|now: int| r == is_exp_at_spec(self@.exp, now),
    {
        let now = now_ts();
        let r = self.is_exp_at(now);
        proof {
            assert(r == is_exp_at_spec(self@.exp, now as int));
        }
        r
    }
}

/// Issues a signed token whose claims expire `cfg.jwt_exp` hours after
/// `now`: a pure function of the claims and the configured key.
pub fn encode_at(user_id: &str, email: &str, now: i64, cfg: &Config) -> (r: Result<String, String>)
    ensures
        r is Ok,
        r matches Ok(t) ==> t@ == jwt_token_of(
            user_id@,
            email@,
            expiry_at(now, cfg.jwt_exp),
            cfg.jwt_key@,
        ) && (expiry_at(now, cfg.jwt_exp) >= 0 ==> jwt_claims_of(t@, cfg.jwt_key@) == Some(
            (PayloadView {
                user_id: user_id@,
                email: email@,
                exp: expiry_at(now, cfg.jwt_exp) as int,
            }),
        )),
{
    let exp = expiry(now, cfg.jwt_exp);
    jwt_sign(user_id, email, exp, cfg.jwt_key.as_str())
}

/// Issues a signed token for this identity, expiring `cfg.jwt_exp` hours
/// from now; the clock is read once at issuance.
pub fn encode(user_id: &str, email: &str, cfg: &Config) -> (r: Result<String, String>)
    ensures
        r is Ok,
        r matches Ok(t) ==> (exists|exp: i64|
            t@ == jwt_token_of(user_id@, email@, exp, cfg.jwt_key@) && (exp >= 0
                ==> jwt_claims_of(t@, cfg.jwt_key@) == Some(
                (PayloadView { user_id: user_id@, email: email@, exp: exp as int }),
            ))),
{
    let payload = Payload::new(user_id.to_owned(), email.to_owned(), cfg);
    let exp = payload.exp;
    let r = jwt_sign(payload.user_id.as_str(), payload.email.as_str(), exp, cfg.jwt_key.as_str());
    proof {
        match r {
            Ok(ref t) => {
                assert(t@ == jwt_token_of(user_id@, email@, exp, cfg.jwt_key@) && (exp >= 0
                    ==> jwt_claims_of(t@, cfg.jwt_key@) == Some(
                    (PayloadView { user_id: user_id@, email: email@, exp: exp as int }),
                )));
            },
            Err(_) => {},
        }
    }
    r
}

/// Validates a signed token: rejects one whose algorithm is not the pinned
/// one or whose signature does not verify, and recovers the claims
/// otherwise. Expiry is not checked here — callers ask `is_exp`, so that
/// expired but otherwise valid claims stay accessible.
pub fn decode(token: &str, cfg: &Config) -> (r: Result<Payload, String>)
    ensures
        r is Ok <==> jwt_claims_of(token@, cfg.jwt_key@) is Some,
        r matches Ok(p) ==> Some(p@) == jwt_claims_of(token@, cfg.jwt_key@),
{
    jwt_parse(token, cfg.jwt_key.as_str())
}

/// Builds the session cookie holding a fresh signed token for this
/// identity, scoped to the root path.
pub fn gen_cookie(id: &str, email: &str, cfg: &Config) -> (c: Cookie)
    ensures
        c.name@ == "jwt"@,
        c.path matches Some(p) && p@ == "/"@,
        exists|exp: i64| c.value@ == jwt_token_of(id@, email@, exp, cfg.jwt_key@),
{
    let token = encode(id, email, cfg).unwrap();
    Cookie::new("jwt", token.as_str()).path("/")
}

/// Claims issued with a positive expiry window are not expired at their own
/// issuing instant (when the window does not overflow the clock's range).
pub proof fn lemma_fresh_claims_not_expired(now: i64, hours: i64)
    requires
        1 <= hours,
        now + hours * 3600 <= i64::MAX,
    ensures
        !is_exp_at_spec(expiry_at(now, hours) as int, now as int),
{
}

/// Claims issued with a zero expiry window are expired at their own issuing
/// instant and at every later one.
pub proof fn lemma_zero_ttl_expired(now: i64, later: i64)
    requires
        now <= later,
    ensures
        is_exp_at_spec(expiry_at(now, 0) as int, later as int),
{
}

} // verus!
