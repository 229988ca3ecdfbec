use vstd::prelude::*;

use crate::auth::error::AuthError;
use crate::clock::unix_now;

verus! {

/// The claims carried by a session token: the local user it is bound to and
/// the absolute expiry instant (seconds since the Unix epoch).
#[derive(Debug, Clone, Copy, PartialEq, Eq, Structural)]
pub struct Claims {
    pub sub: i32,
    pub exp: i64,
}

/// Number of seconds an issued session token is marked valid for.
pub const SESSION_TTL_SECONDS: i64 = 3600;

/// The compact signed token that the codec produces for a given signing
/// secret, subject and expiry. HMAC-SHA256 signing and the JSON encoding of
/// the claims are deterministic, so the token is a function of these three
/// values alone; its exact text is left unspecified.
pub uninterp spec fn jwt_token_of(secret: Seq<char>, sub: int, exp: int) -> Seq<char>;

/// Relies on jsonwebtoken::encode with algorithm HS256 and a key from
/// EncodingKey::from_secret: it serializes the `sub`/`exp` claims map,
/// base64url-encodes header and claims, and signs with HMAC-SHA256. For an
/// HMAC key this path never fails, and the output is a deterministic
/// function of the secret and the claims.
#[verifier::external_body]
fn jwt_encode(secret: &str, sub: i32, exp: i64) -> (r: Result<String, String>)
    ensures
        r is Ok,
        r matches Ok(t) ==> t@ == jwt_token_of(secret@, sub as int, exp as int),
{
    let mut claims = serde_json::Map::new();
    claims.insert("sub".to_string(), serde_json::Value::from(sub));
    claims.insert("exp".to_string(), serde_json::Value::from(exp));
    let header = jsonwebtoken::Header::new(jsonwebtoken::Algorithm::HS256);
    let key = jsonwebtoken::EncodingKey::from_secret(secret.as_bytes());
    jsonwebtoken::encode(&header, &serde_json::Value::Object(claims), &key)
        .map_err(|e| e.to_string())
}

/// Holds when `r` is what decoding `token` under `secret` must return:
/// whenever the token is one that `jwt_encode` produces under this secret
/// for in-range claims with a nonnegative expiry, the result is those
/// claims, read back out of the claims map.
pub open spec fn decoded_claims_of(
    secret: Seq<char>,
    token: Seq<char>,
    r: Result<(Option<i64>, Option<i64>), String>,
) -> bool {
    forall|sub: int, exp: int|
        i32::MIN <= sub <= i32::MAX && 0 <= exp <= i64::MAX && token == #[trigger] jwt_token_of(
            secret,
            sub,
            exp,
        ) ==> r == Ok::<(Option<i64>, Option<i64>), String>((Some(sub as i64), Some(exp as i64)))
}

/// Relies on jsonwebtoken::decode::<serde_json::Value> with algorithm HS256,
/// a key from DecodingKey::from_secret, and expiry validation switched off:
/// for a token produced by `jwt_encode` under the same secret, signature
/// verification recomputes the same HMAC, the claims deserialize to the same
/// map, and the only claim check left is that a nonnegative `exp` is
/// present; `sub` and `exp` are then read back out of the claims map. Of any
/// other token nothing is promised.
#[verifier::external_body]
fn jwt_decode(secret: &str, token: &str) -> (r: Result<(Option<i64>, Option<i64>), String>)
    ensures
        decoded_claims_of(secret@, token@, r),
{
    let mut validation = jsonwebtoken::Validation::new(jsonwebtoken::Algorithm::HS256);
    validation.validate_exp = false;
    let key = jsonwebtoken::DecodingKey::from_secret(secret.as_bytes());
    match jsonwebtoken::decode::<serde_json::Value>(token, &key, &validation) {
        Ok(data) => {
            let sub = data.claims.get("sub").and_then(|v| v.as_i64());
            let exp = data.claims.get("exp").and_then(|v| v.as_i64());
            Ok((sub, exp))
        },
        Err(e) => Err(e.to_string()),
    }
}

/// Issues and verifies the compact session tokens that prove a bearer is an
/// authenticated local user. Trust is stateless: any holder of the shared
/// secret can verify a token without a store round trip.
#[derive(Debug, Clone)]
pub struct JwtManager {
    pub secret: String,
}

impl JwtManager {
    pub fn new(secret: String) -> (m: JwtManager)
        ensures
            m.secret == secret,
    {
        JwtManager { secret }
    }

    /// Issues a session token for `user_id` expiring `SESSION_TTL_SECONDS`
    /// after the given instant.
    pub fn create_jwt_at(&self, user_id: i32, now: i64) -> (r: Result<String, AuthError>)
        requires
            0 <= now <= i64::MAX - SESSION_TTL_SECONDS,
        ensures
            r matches Ok(t) && t@ == jwt_token_of(
                self.secret@,
                user_id as int,
                now + SESSION_TTL_SECONDS,
            ),
    {
        let exp = now + SESSION_TTL_SECONDS;
        match jwt_encode(self.secret.as_str(), user_id, exp) {
            Ok(t) => Ok(t),
            Err(m) => Err(AuthError::JwtCreationFailed(m)),
        }
    }

    /// Issues a session token for `user_id` expiring `SESSION_TTL_SECONDS`
    /// from now. Fails only if the clock reports an instant outside the
    /// encodable range.
    pub fn create_jwt(&self, user_id: i32) -> (r: Result<String, AuthError>)
        ensures
            r matches Ok(t) ==> exists|exp: int|
                SESSION_TTL_SECONDS <= exp <= i64::MAX
                    && t@ == #[trigger] jwt_token_of(self.secret@, user_id as int, exp),
            r matches Err(e) ==> e is JwtCreationFailed,
    {
        let now = unix_now();
        if 0 <= now && now <= i64::MAX - SESSION_TTL_SECONDS {
            let r = self.create_jwt_at(user_id, now);
            proof {
                if r is Ok {
                    assert(SESSION_TTL_SECONDS <= now + SESSION_TTL_SECONDS <= i64::MAX);
                }
            }
            r
        } else {
            Err(AuthError::JwtCreationFailed("clock outside the encodable range".to_owned()))
        }
    }

    /// Law: verifying an issued token returns the claims it was issued
    /// with. For every subject and every instant in the encodable range,
    /// issuing a session token and verifying it under the same secret
    /// yields claims whose subject is the issuing subject and whose expiry
    /// is the issuing instant plus the fixed TTL.
    pub fn issue_then_verify(&self, user_id: i32, now: i64) -> (c: Claims)
        requires
            0 <= now <= i64::MAX - SESSION_TTL_SECONDS,
        ensures
            c.sub == user_id,
            c.exp == now + SESSION_TTL_SECONDS,
    {
        let token = match self.create_jwt_at(user_id, now) {
            Ok(t) => t,
            Err(_) => unreached(),
        };
        match self.verify_jwt(token.as_str()) {
            Ok(c) => c,
            Err(_) => unreached(),
        }
    }

    /// Verifies a session token against the shared secret and returns its
    /// claims. Every token issued by `create_jwt_at` or `create_jwt` under
    /// the same secret with a nonnegative expiry verifies to the subject
    /// and expiry it was issued with.
    ///
    /// Known risk: the encoded expiry is deliberately not enforced, so an
    /// issued token verifies even past its `exp` claim. Enforcing it would
    /// be a behavior change to this contract and is deliberately not done
    /// silently; a caller that wants expiry must compare `exp` to its own
    /// clock.
    pub fn verify_jwt(&self, token: &str) -> (r: Result<Claims, AuthError>)
        ensures
            forall|sub: int, exp: int|
                i32::MIN <= sub <= i32::MAX && 0 <= exp <= i64::MAX
                    && token@ == #[trigger] jwt_token_of(self.secret@, sub, exp)
                    ==> (r matches Ok(c) && c.sub == sub && c.exp == exp),
            r matches Err(e) ==> (e is JwtError || e is InvalidToken),
    {
        match jwt_decode(self.secret.as_str(), token) {
            Ok((Some(sub64), Some(exp))) => {
                if i32::MIN as i64 <= sub64 && sub64 <= i32::MAX as i64 {
                    Ok(Claims { sub: sub64 as i32, exp })
                } else {
                    Err(AuthError::InvalidToken)
                }
            },
            Ok(_) => Err(AuthError::InvalidToken),
            Err(m) => Err(AuthError::JwtError(m)),
        }
    }
}

} // verus!
