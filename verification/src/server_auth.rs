//! Tokens of the signaling server: what a token claims, and for how long.
//!
//! A token is a JSON Web Token signed with the server's secret (HMAC with
//! SHA-256). It names a device and is valid for 24 hours from the moment it
//! is issued. Encoding and checking the signature are done by the
//! `jsonwebtoken` crate on the claims as a JSON object; this module holds
//! the secret, computes the claims, and issues and checks tokens.

use jsonwebtoken::{DecodingKey, EncodingKey, Header, Validation};
use serde_json::Value;
use vstd::prelude::*;

verus! {

broadcast use vstd::string::group_string_axioms;

/// Hours during which a token is valid.
pub const TOKEN_LIFETIME_HOURS: i64 = 24;

/// Seconds during which a token is valid.
pub const TOKEN_LIFETIME_SECS: i64 = 24 * 3600;

/// Largest distance from the Unix epoch, in seconds, of any time `chrono`
/// represents: its day count is an `i32`, so the distance stays under 2^48.
pub const TIMESTAMP_BOUND: i64 = 281_474_976_710_656;

/// Calls `chrono::Utc::now().timestamp()`: the seconds since the Unix
/// epoch now. Which second it is depends on the clock; the source computes
/// it from an `i32` count of days, which keeps it within `TIMESTAMP_BOUND`.
/// `Utc::now` panics for a system clock set before 1970 or beyond the range
/// of dates that `chrono` represents.
#[verifier::external_body]
fn utc_timestamp_now() -> (t: i64)
    ensures
        -TIMESTAMP_BOUND < t < TIMESTAMP_BOUND,
{
    chrono::Utc::now().timestamp()
}

/// The device a token names, when the token is signed with HMAC-SHA-256
/// under `secret` and its claims hold a text `device_id` and unsigned
/// `exp` and `iat` times; `None` otherwise. Whether the token has expired
/// is not part of it.
pub uninterp spec fn jwt_device_claim(token: Seq<char>, secret: Seq<char>) -> Option<Seq<char>>;

/// The token that signs, with HMAC-SHA-256 under `secret`, the claims
/// `device_id`, `exp` and `iat`, written as a JSON object in that order
/// under the default header.
pub uninterp spec fn jwt_encoding(device_id: Seq<char>, iat: usize, exp: usize, secret: Seq<char>) -> Seq<char>;

/// Calls `jsonwebtoken::decode` with the default validation (HS256, an
/// `exp` claim that has not passed) into a JSON object, and picks its
/// `device_id`, `exp` and `iat` claims. A token it accepts is one whose
/// device claim is `jwt_device_claim`; which unexpired tokens it accepts
/// depends on the clock, so the converse is not stated. It panics only for a
/// system clock set before 1970.
#[verifier::external_body]
fn jwt_decode_device(token: &str, secret: &str) -> (r: Option<String>)
    ensures
        r matches Some(d) ==> jwt_device_claim(token@, secret@) == Some(d@),
{
    let key = DecodingKey::from_secret(secret.as_bytes());
    let data = jsonwebtoken::decode::<serde_json::Map<String, Value>>(token, &key, &Validation::default()).ok()?;
    let device = data.claims.get("device_id")?.as_str()?.to_string();
    data.claims.get("exp")?.as_u64()?;
    data.claims.get("iat")?.as_u64()?;
    Some(device)
}

/// Calls `jsonwebtoken::encode` with the default header (HS256) on the
/// claims written as a JSON object (`device_id`, `exp`, `iat`). The token it
/// gives is `jwt_encoding` of the claims and the secret, and it is signed
/// under that secret with a text device claim and unsigned times, so its
/// device claim is the claims' device. The encoding of such claims under
/// HMAC does not fail, but that is not stated.
#[verifier::external_body]
fn jwt_encode(c: &Claims, secret: &str) -> (r: Option<String>)
    ensures
        r matches Some(t) ==> t@ == jwt_encoding(c.device_id@, c.iat, c.exp, secret@),
        r matches Some(t) ==> jwt_device_claim(t@, secret@) == Some(c.device_id@),
{
    let mut claims = serde_json::Map::new();
    claims.insert("device_id".to_string(), Value::from(c.device_id.clone()));
    claims.insert("exp".to_string(), Value::from(c.exp));
    claims.insert("iat".to_string(), Value::from(c.iat));
    let key = EncodingKey::from_secret(secret.as_bytes());
    jsonwebtoken::encode(&Header::default(), &claims, &key).ok()
}

/// Why a token could not be issued or was refused.
#[derive(Debug, Clone, Copy, PartialEq, Eq, Structural)]
pub enum AuthError {
    /// The token is not signed with the server's secret, has expired, or
    /// does not hold the claims of a device.
    InvalidToken,
    /// The token could not be encoded.
    Encoding,
}

/// What a token claims.
#[derive(Debug, Clone)]
pub struct Claims {
    /// The device the token was issued to.
    pub device_id: String,
    /// When the token expires, in seconds since the Unix epoch.
    pub exp: usize,
    /// When the token was issued, in seconds since the Unix epoch.
    pub iat: usize,
}

/// The claims of a token issued to `device_id` at second `now`, valid for
/// `lifetime` seconds; times are stored as the unsigned machine word that
/// the signed second count converts to.
pub open spec fn claims_spec(c: Claims, device_id: Seq<char>, now: int, lifetime: int) -> bool {
    &&& c.device_id@ == device_id
    &&& c.iat == now as usize
    &&& c.exp == (now + lifetime) as usize
}

/// Issues and checks the tokens of the signaling server.
pub struct AuthManager {
    secret: String,
    token_duration_hours: i64,
}

impl AuthManager {
    #[verifier::type_invariant]
    spec fn lifetime_in_range(self) -> bool {
        0 <= self.token_duration_hours <= TOKEN_LIFETIME_HOURS
    }

    /// The signing secret.
    pub closed spec fn spec_secret(&self) -> Seq<char> {
        self.secret@
    }

    /// How long a token stays valid, in hours.
    pub closed spec fn spec_duration_hours(&self) -> int {
        self.token_duration_hours as int
    }

    /// A manager signing with `secret`, issuing tokens valid for 24 hours.
    pub fn new(secret: &str) -> (m: Self)
        ensures
            m.spec_secret() == secret@,
            m.spec_duration_hours() == TOKEN_LIFETIME_HOURS,
    {
        AuthManager { secret: secret.to_string(), token_duration_hours: TOKEN_LIFETIME_HOURS }
    }

    /// The signing secret.
    pub fn secret(&self) -> (s: &str)
        ensures
            s@ == self.spec_secret(),
    {
        self.secret.as_str()
    }

    /// How long a token stays valid, in hours.
    pub fn token_duration_hours(&self) -> (h: i64)
        ensures
            h == self.spec_duration_hours(),
    {
        self.token_duration_hours
    }

    /// The claims of a token issued to `device_id` at second `now`.
    pub fn claims_at(&self, device_id: &str, now: i64) -> (c: Claims)
        requires
            -TIMESTAMP_BOUND < now < TIMESTAMP_BOUND,
        ensures
            claims_spec(c, device_id@, now as int, self.spec_duration_hours() * 3600),
    {
        proof {
            use_type_invariant(self);
        }
        let lifetime: i64 = self.token_duration_hours * 3600;
        let expires: i64 = now + lifetime;
        Claims { device_id: device_id.to_string(), exp: expires as usize, iat: now as usize }
    }

    /// The claims of a token issued to `device_id` now. The second of
    /// issue is read from the clock, so only its shape is known.
    pub fn issue_claims(&self, device_id: &str) -> (c: Claims)
        ensures
            exists|now: int|
                -TIMESTAMP_BOUND < now < TIMESTAMP_BOUND && #[trigger] claims_spec(
                    c,
                    device_id@,
                    now,
                    self.spec_duration_hours() * 3600,
                ),
    {
        let now = utc_timestamp_now();
        let c = self.claims_at(device_id, now);
        assert(claims_spec(c, device_id@, now as int, self.spec_duration_hours() * 3600));
        c
    }

    /// A token for `device_id`, issued now and valid for the manager's
    /// lifetime, signed with its secret.
    pub fn generate_token(&self, device_id: &str) -> (r: Result<String, AuthError>)
        ensures
            r matches Ok(t) ==> exists|now: int|
                -TIMESTAMP_BOUND < now < TIMESTAMP_BOUND && t@ == #[trigger] jwt_encoding(
                    device_id@,
                    now as usize,
                    (now + self.spec_duration_hours() * 3600) as usize,
                    self.spec_secret(),
                ),
            r matches Ok(t) ==> jwt_device_claim(t@, self.spec_secret()) == Some(device_id@),
            r is Err ==> r == Err::<String, AuthError>(AuthError::Encoding),
    {
        let claims = self.issue_claims(device_id);
        match jwt_encode(&claims, self.secret.as_str()) {
            Some(token) => {
                proof {
                    let lifetime = self.spec_duration_hours() * 3600;
                    let now = choose|now: int|
                        -TIMESTAMP_BOUND < now < TIMESTAMP_BOUND && #[trigger] claims_spec(
                            claims,
                            device_id@,
                            now,
                            lifetime,
                        );
                    assert(token@ == jwt_encoding(
                        device_id@,
                        now as usize,
                        (now + lifetime) as usize,
                        self.spec_secret(),
                    ));
                }
                Ok(token)
            },
            None => Err(AuthError::Encoding),
        }
    }

    /// The device a token names, once its signature under the secret and
    /// its expiry are checked; `InvalidToken` when either fails.
    pub fn verify_token(&self, token: &str) -> (r: Result<String, AuthError>)
        ensures
            r matches Ok(d) ==> jwt_device_claim(token@, self.spec_secret()) == Some(d@),
            r is Err ==> r == Err::<String, AuthError>(AuthError::InvalidToken),
    {
        match jwt_decode_device(token, self.secret.as_str()) {
            Some(device) => Ok(device),
            None => Err(AuthError::InvalidToken),
        }
    }
}

/// Law: a token issued at a second on or after the epoch expires exactly
/// its lifetime later than it was issued, wherever the machine word holds
/// the second of expiry.
pub proof fn law_token_expires_after_lifetime(c: Claims, device_id: Seq<char>, now: int, lifetime: int)
    requires
        0 <= now < TIMESTAMP_BOUND,
        0 <= lifetime <= TOKEN_LIFETIME_SECS,
        now + lifetime <= usize::MAX,
        claims_spec(c, device_id, now, lifetime),
    ensures
        c.exp == c.iat + lifetime,
        c.device_id@ == device_id,
{
}

} // verus!
