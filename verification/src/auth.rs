//! Bearer credentials: signed tokens that name a user and an expiry.

use vstd::prelude::*;
use std::collections::BTreeMap;
use hmac::Mac;
use jwt::VerifyWithKey;
use crate::ids::{parse_object_id, spec_parse_object_id, ObjectId};
use crate::time::{utc_in_range, UtcDateTime};

verus! {

/// The claims of a token: the user it names, and when it was issued and
/// expires, in seconds since the Unix epoch.
#[derive(Clone, Debug, PartialEq, Eq)]
pub struct JWTClaims {
    pub sub: String,
    pub issued_at_epoch_secs: i64,
    pub expiration_epoch_secs: i64,
}

pub struct JWTClaimsSpec {
    pub sub: Seq<char>,
    pub issued_at_epoch_secs: i64,
    pub expiration_epoch_secs: i64,
}

impl View for JWTClaims {
    type V = JWTClaimsSpec;

    open spec fn view(&self) -> JWTClaimsSpec {
        JWTClaimsSpec {
            sub: self.sub@,
            issued_at_epoch_secs: self.issued_at_epoch_secs,
            expiration_epoch_secs: self.expiration_epoch_secs,
        }
    }
}

/// The three claims as a token holds them, each absent where the token has
/// no claim of that name or one of another type.
#[derive(Clone, Debug, PartialEq, Eq)]
pub struct RawClaims {
    pub sub: Option<String>,
    pub iat: Option<i64>,
    pub exp: Option<i64>,
}

pub struct RawClaimsSpec {
    pub sub: Option<Seq<char>>,
    pub iat: Option<i64>,
    pub exp: Option<i64>,
}

impl View for RawClaims {
    type V = RawClaimsSpec;

    open spec fn view(&self) -> RawClaimsSpec {
        RawClaimsSpec {
            sub: match self.sub {
                Some(s) => Some(s@),
                None => None,
            },
            iat: self.iat,
            exp: self.exp,
        }
    }
}

/// What the jwt crate reads from the token `token` under the HMAC-SHA-256
/// key `secret`: nothing where the token is malformed, is signed with
/// another algorithm or key, or carries claims that are no JSON object;
/// else its claims `sub` (a text), `iat` and `exp` (integers of 64 bits),
/// each where present with that type.
pub uninterp spec fn verified_claims(token: Seq<char>, secret: Seq<char>) -> Option<
    (Option<Seq<char>>, Option<i64>, Option<i64>),
>;

/// The claims read from a token, as the three plain values that
/// `verified_claims` speaks of.
pub open spec fn raw_claims_parts(raw: Option<RawClaims>) -> Option<
    (Option<Seq<char>>, Option<i64>, Option<i64>),
> {
    match raw {
        Some(c) => Some((c@.sub, c@.iat, c@.exp)),
        None => None,
    }
}

/// `verify_with_key` of the jwt crate on the token text, with the key that
/// `Hmac::<Sha256>::new_from_slice` makes of the secret's bytes, read into a
/// map from claim names to JSON values; of that map the claims `sub`, `iat`
/// and `exp`.
#[verifier::external_body]
pub(crate) fn verify_token(token_s: &str, secret: &str) -> (r: Option<RawClaims>)
    ensures
        raw_claims_parts(r) == verified_claims(token_s@, secret@),
{
    let key: hmac::Hmac<sha2::Sha256> = hmac::Hmac::new_from_slice(secret.as_bytes()).ok()?;
    let token: jwt::Token<jwt::Header, BTreeMap<String, serde_json::Value>, _> =
        token_s.verify_with_key(&key).ok()?;
    let claims = token.claims();
    Some(
        RawClaims {
            sub: claims.get("sub").and_then(|v| v.as_str()).map(String::from),
            iat: claims.get("iat").and_then(|v| v.as_i64()),
            exp: claims.get("exp").and_then(|v| v.as_i64()),
        },
    )
}

/// A token that expired, with the instant of its expiry where chrono can
/// hold it.
#[derive(Clone, Copy, Debug, PartialEq, Eq)]
pub struct JWTExpiredError {
    pub expiration_dt_utc: Option<UtcDateTime>,
}

impl JWTExpiredError {
    /// Whether the error tells of an expiry `timestamp` seconds after the
    /// Unix epoch.
    pub open spec fn tells(self, timestamp: i64) -> bool {
        match self.expiration_dt_utc {
            Some(t) => utc_in_range(timestamp, 0) && t.spec_timestamp() == timestamp
                && t.spec_subsec_nanos() == 0,
            None => !utc_in_range(timestamp, 0),
        }
    }

    pub fn new(timestamp: i64) -> (r: JWTExpiredError)
        ensures
            r.tells(timestamp),
    {
        JWTExpiredError { expiration_dt_utc: UtcDateTime::from_timestamp(timestamp, 0) }
    }
}

/// Why a credential names no user.
#[derive(Clone, Copy, Debug, PartialEq, Eq)]
pub enum TokenError {
    /// The token is malformed, wrongly signed, or lacks a claim.
    Rejected,
    /// The token has expired.
    Expired(JWTExpiredError),
    /// The subject is not the text of a durable id.
    InvalidSubject,
}

/// The claims of a token, where all three are there.
pub open spec fn complete_claims(
    parts: Option<(Option<Seq<char>>, Option<i64>, Option<i64>)>,
) -> Option<JWTClaimsSpec> {
    match parts {
        Some((Some(sub), Some(iat), Some(exp))) => Some(
            JWTClaimsSpec { sub, issued_at_epoch_secs: iat, expiration_epoch_secs: exp },
        ),
        _ => None,
    }
}

/// Whether `r` is what the claims `claims` give at the instant `now`,
/// seconds since the Unix epoch: expired from the second of expiry on; else
/// the user that the subject names, where it is the text of a durable id.
pub open spec fn claims_outcome(
    claims: JWTClaimsSpec,
    now: i64,
    r: Result<ObjectId, TokenError>,
) -> bool {
    match r {
        Ok(id) => now < claims.expiration_epoch_secs && spec_parse_object_id(claims.sub) == Some(id),
        Err(TokenError::Expired(e)) => now >= claims.expiration_epoch_secs && e.tells(
            claims.expiration_epoch_secs,
        ),
        Err(TokenError::InvalidSubject) => now < claims.expiration_epoch_secs
            && spec_parse_object_id(claims.sub) is None,
        Err(TokenError::Rejected) => false,
    }
}

/// Whether `r` is what a token gives at the instant `now`, where `parts`
/// is what was read from it.
pub open spec fn token_outcome(
    parts: Option<(Option<Seq<char>>, Option<i64>, Option<i64>)>,
    now: i64,
    r: Result<ObjectId, TokenError>,
) -> bool {
    match complete_claims(parts) {
        Some(claims) => claims_outcome(claims, now, r),
        None => r == Err::<ObjectId, TokenError>(TokenError::Rejected),
    }
}

/// The claims of a token, where all three are there.
pub fn claims_from_raw(raw: Option<RawClaims>) -> (r: Option<JWTClaims>)
    ensures
        match complete_claims(raw_claims_parts(raw)) {
            Some(claims) => r is Some && r->Some_0@ == claims,
            None => r is None,
        },
{
    match raw {
        Some(RawClaims { sub: Some(sub), iat: Some(iat), exp: Some(exp) }) => Some(
            JWTClaims { sub, issued_at_epoch_secs: iat, expiration_epoch_secs: exp },
        ),
        _ => None,
    }
}

/// The user that the claims name at the instant `now`.
pub fn user_id_from_claims(claims: &JWTClaims, now: i64) -> (r: Result<ObjectId, TokenError>)
    ensures
        claims_outcome(claims@, now, r),
{
    if now >= claims.expiration_epoch_secs {
        Err(TokenError::Expired(JWTExpiredError::new(claims.expiration_epoch_secs)))
    } else {
        match parse_object_id(claims.sub.as_str()) {
            Ok(id) => Ok(id),
            Err(_) => Err(TokenError::InvalidSubject),
        }
    }
}

/// The user that a token names at the instant `now`, where `raw` is what
/// was read from the token.
pub fn user_id_from_raw_claims(raw: Option<RawClaims>, now: i64) -> (r: Result<
    ObjectId,
    TokenError,
>)
    ensures
        token_outcome(raw_claims_parts(raw), now, r),
{
    match claims_from_raw(raw) {
        Some(claims) => user_id_from_claims(&claims, now),
        None => Err(TokenError::Rejected),
    }
}

/// The user that the token `token_s` names, under the key `secret`, at
/// the present instant. The clock decides whether the token has expired,
/// so the contract holds for whichever instant it showed.
pub fn get_user_id_from_jwt(token_s: &str, secret: &str) -> (r: Result<ObjectId, TokenError>)
    ensures
        exists|now: i64| #[trigger] token_outcome(verified_claims(token_s@, secret@), now, r),
{
    let raw = verify_token(token_s, secret);
    let now: i64 = UtcDateTime::now().timestamp();
    let r = user_id_from_raw_claims(raw, now);
    assert(token_outcome(verified_claims(token_s@, secret@), now, r));
    r
}

} // verus!
