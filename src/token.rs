//! Session tokens: signed, time-bounded proofs of a principal's identity, and
//! where a request carries one.

use vstd::prelude::*;
use crate::error::ErrorKind;
use crate::text::{has_prefix, starts_with};

verus! {

/// Seconds a session token stays valid after it is issued.
pub const TOKEN_LIFETIME: i64 = 3600;

/// The token that signing the claims `sub`, `iat`, `exp` with `secret` gives.
pub uninterp spec fn signed_token(secret: Seq<u8>, sub: int, iat: int, exp: int) -> Seq<char>;

/// The claims `(sub, iat, exp)` read from `token`, when its structure is sound
/// and its signature holds under `secret`.
pub uninterp spec fn token_claims(secret: Seq<u8>, token: Seq<char>) -> Option<(i64, i64, i64)>;

/// Relies on jsonwebtoken::encode with the default header (HS256): signs the
/// claims `sub`, `iat` and `exp` with `secret`. The claims go in as an ordered
/// map, so the token depends on the secret and the claims alone. With an
/// HMAC key and a map of integers the call cannot fail: the key matches the
/// algorithm, the map always serialises, and HMAC signing returns `Ok`.
#[verifier::external_body]
fn encode_claims(secret: &[u8], sub: i32, iat: i64, exp: i64) -> (r: Option<String>)
    ensures
        r is Some,
        r matches Some(t) ==> t@ == signed_token(secret@, sub as int, iat as int, exp as int),
{
    let claims = std::collections::BTreeMap::from([("sub", sub as i64), ("iat", iat), ("exp", exp)]);
    let key = jsonwebtoken::EncodingKey::from_secret(secret);
    jsonwebtoken::encode(&jsonwebtoken::Header::default(), &claims, &key).ok()
}

/// Relies on jsonwebtoken::decode with HS256 and its own expiry check turned
/// off (expiry is decided here, against a given time): checks the signature
/// under `secret` and reads the integer claims `sub`, `iat` and `exp`. A token
/// that `encode_claims` made with the same secret and an `exp` that is not
/// negative (decode requires `exp` as an unsigned number) reads back as its
/// claims.
#[verifier::external_body]
fn decode_claims(secret: &[u8], token: &str) -> (r: Option<(i64, i64, i64)>)
    ensures
        r == token_claims(secret@, token@),
        forall|sub: i32, iat: i64, exp: i64|
            #![trigger signed_token(secret@, sub as int, iat as int, exp as int)]
            0 <= exp && token@ == signed_token(secret@, sub as int, iat as int, exp as int) ==> r
                == Some((sub as i64, iat, exp)),
{
    let mut validation = jsonwebtoken::Validation::new(jsonwebtoken::Algorithm::HS256);
    validation.validate_exp = false;
    let key = jsonwebtoken::DecodingKey::from_secret(secret);
    let data = jsonwebtoken::decode::<std::collections::BTreeMap<String, i64>>(token, &key, &validation).ok()?;
    Some((*data.claims.get("sub")?, *data.claims.get("iat")?, *data.claims.get("exp")?))
}

/// The last second, counted from the Unix epoch, that chrono can represent
/// (the end of year 262143).
pub const LATEST_CLOCK: i64 = 8_210_298_412_799;

/// Relies on chrono::Utc::now: the current time, in whole seconds since the
/// Unix epoch. It panics on a clock set before the epoch and on one past the
/// last date chrono represents, so what it returns lies between the two.
#[verifier::external_body]
fn now_seconds() -> (r: i64)
    ensures
        0 <= r <= LATEST_CLOCK,
{
    chrono::Utc::now().timestamp()
}

/// Issues a token for `user_id`, issued at `now` and expiring
/// `TOKEN_LIFETIME` seconds later. Fails only when the expiry does not fit in
/// an `i64`.
pub fn issue_token(secret: &[u8], user_id: i32, now: i64) -> (r: Result<String, ErrorKind>)
    ensures
        now <= i64::MAX - TOKEN_LIFETIME ==> (r matches Ok(t) && t@ == signed_token(
            secret@,
            user_id as int,
            now as int,
            now + TOKEN_LIFETIME,
        )),
        now > i64::MAX - TOKEN_LIFETIME ==> r == Err::<String, ErrorKind>(ErrorKind::Internal),
{
    if now > i64::MAX - TOKEN_LIFETIME {
        return Err(ErrorKind::Internal);
    }
    match encode_claims(secret, user_id, now, now + TOKEN_LIFETIME) {
        Some(t) => Ok(t),
        None => Err(ErrorKind::Internal),
    }
}

/// Issues a token for `user_id`, issued at the current time and expiring
/// `TOKEN_LIFETIME` seconds later.
pub fn create_new_auth_token(jwt_secret: String, user_id: i32) -> (r: Result<String, ErrorKind>)
    ensures
        r matches Ok(t) && exists|now: int|
            0 <= now <= LATEST_CLOCK && t@ == #[trigger] signed_token(
                vstd::utf8::encode_utf8(jwt_secret@),
                user_id as int,
                now,
                now + TOKEN_LIFETIME,
            ),
{
    let now = now_seconds();
    issue_token(jwt_secret.as_str().as_bytes(), user_id, now)
}

/// What verification makes of the claims read from a token at time `now`:
/// the subject, while `now` is before the expiry.
pub open spec fn token_verdict(claims: Option<(i64, i64, i64)>, now: int) -> Result<i32, ErrorKind> {
    match claims {
        None => Err(ErrorKind::Unauthenticated),
        Some((sub, _iat, exp)) => if exp <= now || sub < i32::MIN || sub > i32::MAX {
            Err(ErrorKind::Unauthenticated)
        } else {
            Ok(sub as i32)
        },
    }
}

/// Verifies a token at time `now` and returns its subject. A malformed or
/// badly signed token, and one whose expiry is not after `now`, is refused.
/// A token issued for `uid` under the same secret gives `uid` back until it
/// expires.
pub fn verify_token(secret: &[u8], token: &str, now: i64) -> (r: Result<i32, ErrorKind>)
    ensures
        r == token_verdict(token_claims(secret@, token@), now as int),
        forall|uid: i32, iat: i64, exp: i64|
            #![trigger signed_token(secret@, uid as int, iat as int, exp as int)]
            0 <= exp && token@ == signed_token(secret@, uid as int, iat as int, exp as int) ==> r
                == (if now < exp {
                Ok::<i32, ErrorKind>(uid)
            } else {
                Err::<i32, ErrorKind>(ErrorKind::Unauthenticated)
            }),
{
    match decode_claims(secret, token) {
        None => Err(ErrorKind::Unauthenticated),
        Some((sub, _iat, exp)) => {
            if exp <= now || sub < i32::MIN as i64 || sub > i32::MAX as i64 {
                Err(ErrorKind::Unauthenticated)
            } else {
                Ok(sub as i32)
            }
        },
    }
}

/// The token that an `Authorization` header value carries: what follows
/// `Bearer `.
pub open spec fn bearer_token(header: Seq<char>) -> Option<Seq<char>> {
    if has_prefix(header, "Bearer "@) {
        Some(header.subrange("Bearer "@.len() as int, header.len() as int))
    } else {
        None
    }
}

/// Reads the token from an `Authorization: Bearer <token>` header value.
pub fn extract_token_from_header(authorization: Option<&str>) -> (r: Option<String>)
    ensures
        match authorization {
            None => r is None,
            Some(h) => match bearer_token(h@) {
                None => r is None,
                Some(t) => r matches Some(s) && s@ == t,
            },
        },
{
    match authorization {
        None => None,
        Some(h) => {
            let prefix = "Bearer ";
            if starts_with(h, prefix) {
                let start = prefix.unicode_len();
                let end = h.unicode_len();
                Some(h.substring_char(start, end).to_string())
            } else {
                None
            }
        },
    }
}

/// The candidate token of a request: the session cookie if there is one,
/// else the bearer header.
pub open spec fn candidate_token(cookie: Option<Seq<char>>, authorization: Option<Seq<char>>) -> Option<
    Seq<char>,
> {
    match cookie {
        Some(c) => Some(c),
        None => match authorization {
            None => None,
            Some(h) => bearer_token(h),
        },
    }
}

/// The view of an optional text.
pub open spec fn opt_view(s: Option<&str>) -> Option<Seq<char>> {
    match s {
        Some(t) => Some(t@),
        None => None,
    }
}

/// Picks the token of a request: the session cookie first, else the bearer
/// header.
pub fn select_token(cookie: Option<&str>, authorization: Option<&str>) -> (r: Option<String>)
    ensures
        match candidate_token(opt_view(cookie), opt_view(authorization)) {
            None => r is None,
            Some(t) => r matches Some(s) && s@ == t,
        },
{
    match cookie {
        Some(c) => Some(c.to_string()),
        None => extract_token_from_header(authorization),
    }
}

/// The principal id that a request's credentials name at time `now`: a
/// request without a token, or with a token that does not verify, is
/// unauthenticated.
pub fn session_subject(secret: &[u8], cookie: Option<&str>, authorization: Option<&str>, now: i64) -> (r:
    Result<i32, ErrorKind>)
    ensures
        match candidate_token(opt_view(cookie), opt_view(authorization)) {
            None => r == Err::<i32, ErrorKind>(ErrorKind::Unauthenticated),
            Some(t) => r == token_verdict(token_claims(secret@, t), now as int),
        },
{
    match select_token(cookie, authorization) {
        None => Err(ErrorKind::Unauthenticated),
        Some(t) => verify_token(secret, t.as_str(), now),
    }
}

} // verus!
