//! Stateless session tokens: signed `{user_id, exp}` claims (HS256) whose
//! validity depends only on the signature, the secret and the clock.
//!
//! Signing and signature checking are done by `jsonwebtoken`; expiry is
//! decided here against the caller's clock (seconds since the Unix epoch).

use jsonwebtoken::errors::ErrorKind;
use jsonwebtoken::{Algorithm, DecodingKey, EncodingKey, Header, Validation};
use serde_json::Value;
use vstd::prelude::*;

use crate::UserID;

verus! {

/// How long a session token stays valid, in seconds.
pub const TOKEN_LIFETIME_SECS: u64 = 1500;

/// Why a session token was refused.
#[derive(Debug, Clone, Copy, PartialEq, Eq, Structural)]
pub enum TokenError {
    /// Not a well-formed token, or its claims lack a user or an expiry.
    Malformed,
    /// The signature does not match the secret.
    BadSignature,
    /// The token was valid but its expiry has passed.
    Expired,
}

/// The HS256 token that `jsonwebtoken` makes of the claims
/// `{"exp": exp, "user_id": user_id}` under `secret`.
pub uninterp spec fn hs256_token(user_id: UserID, exp: u64, secret: Seq<u8>) -> Seq<char>;

/// What `jsonwebtoken` reads from `token` under `secret` when it checks the
/// signature but not the expiry: the `user_id` and `exp` claims where they are
/// integers of the right range, or why the token was refused.
pub uninterp spec fn hs256_claims(token: Seq<char>, secret: Seq<u8>) -> Result<
    (Option<UserID>, Option<u64>),
    TokenError,
>;

/// What decoding a token made of the claims `{user_id, exp}` reads back.
pub open spec fn issued_claims(user_id: UserID, exp: u64) -> Result<
    (Option<UserID>, Option<u64>),
    TokenError,
> {
    Ok((Some(user_id), Some(exp)))
}

/// Relies on `jsonwebtoken::encode` with the default header (HS256) and an HMAC
/// key made from `secret`: the signed token, a function of the claims and the
/// secret alone. Signing cannot fail here: the key and the header are both
/// HMAC, the header and a map of two numbers always serialise, and HMAC
/// signing always succeeds. Decoding the token under the same secret checks
/// the signature and reads both claims back unchanged.
#[verifier::external_body]
fn sign_claims(user_id: UserID, exp: u64, secret: &[u8]) -> (r: Option<String>)
    ensures
        r is Some,
        r matches Some(t) ==> t@ == hs256_token(user_id, exp, secret@) && hs256_claims(
            t@,
            secret@,
        ) == issued_claims(user_id, exp),
{
    let mut claims = serde_json::Map::new();
    claims.insert("user_id".to_string(), Value::from(user_id));
    claims.insert("exp".to_string(), Value::from(exp));
    jsonwebtoken::encode(&Header::default(), &claims, &EncodingKey::from_secret(secret)).ok()
}

/// Relies on `jsonwebtoken::decode` with an HS256 key made from `secret` and
/// expiry checking off, so that the outcome depends on the token and the
/// secret alone. A signature mismatch is told apart from every other refusal.
#[verifier::external_body]
fn read_claims(token: &str, secret: &[u8]) -> (r: Result<(Option<UserID>, Option<u64>), TokenError>)
    ensures
        r == hs256_claims(token@, secret@),
{
    let mut validation = Validation::new(Algorithm::HS256);
    validation.validate_exp = false;
    let key = DecodingKey::from_secret(secret);
    match jsonwebtoken::decode::<serde_json::Map<String, Value>>(token, &key, &validation) {
        Ok(data) => Ok((
            data.claims.get("user_id").and_then(Value::as_i64),
            data.claims.get("exp").and_then(Value::as_u64),
        )),
        Err(e) => Err(match e.kind() {
            ErrorKind::InvalidSignature => TokenError::BadSignature,
            _ => TokenError::Malformed,
        }),
    }
}

/// Expiry of a token issued at `now` for `lifetime` seconds, saturating at
/// `u64::MAX`.
pub open spec fn expiry(now: u64, lifetime: u64) -> u64 {
    if now + lifetime <= u64::MAX {
        (now + lifetime) as u64
    } else {
        u64::MAX
    }
}

/// The verdict on decoded claims at `now`: the user if both claims are there
/// and `now` lies strictly before the expiry.
pub open spec fn claims_verdict(
    decoded: Result<(Option<UserID>, Option<u64>), TokenError>,
    now: u64,
) -> Result<UserID, TokenError> {
    match decoded {
        Err(e) => Err(e),
        Ok((Some(user_id), Some(exp))) => if now < exp {
            Ok(user_id)
        } else {
            Err(TokenError::Expired)
        },
        Ok(_) => Err(TokenError::Malformed),
    }
}

/// Decides on claims decoded from a token whose signature was checked.
pub fn check_claims(decoded: Result<(Option<UserID>, Option<u64>), TokenError>, now: u64) -> (r:
    Result<UserID, TokenError>)
    ensures
        r == claims_verdict(decoded, now),
{
    match decoded {
        Err(e) => Err(e),
        Ok((Some(user_id), Some(exp))) => {
            if now < exp {
                Ok(user_id)
            } else {
                Err(TokenError::Expired)
            }
        },
        Ok(_) => Err(TokenError::Malformed),
    }
}

/// The claims of a session token.
#[derive(Debug, Clone, Copy, PartialEq, Eq, Structural)]
pub struct JWToken {
    pub user_id: UserID,
    /// Expiry, in seconds since the Unix epoch.
    pub exp: u64,
}

impl JWToken {
    /// Claims for `user_id`, issued at `now`, valid for `TOKEN_LIFETIME_SECS`.
    pub fn new(user_id: UserID, now: u64) -> (r: Self)
        ensures
            r.user_id == user_id,
            r.exp == expiry(now, TOKEN_LIFETIME_SECS),
    {
        JWToken::with_lifetime(user_id, now, TOKEN_LIFETIME_SECS)
    }

    /// Claims for `user_id`, issued at `now`, valid for `lifetime` seconds.
    pub fn with_lifetime(user_id: UserID, now: u64, lifetime: u64) -> (r: Self)
        ensures
            r.user_id == user_id,
            r.exp == expiry(now, lifetime),
    {
        JWToken { user_id, exp: now.saturating_add(lifetime) }
    }

    /// The signed token carrying these claims. Verifying it under the same
    /// secret gives back the user strictly before the expiry, and `Expired`
    /// from then on.
    pub fn encode(&self, secret: &[u8]) -> (r: String)
        ensures
            r@ == hs256_token(self.user_id, self.exp, secret@),
            hs256_claims(r@, secret@) == issued_claims(self.user_id, self.exp),
            forall|now: u64|
                #![auto]
                claims_verdict(hs256_claims(r@, secret@), now) == if now < self.exp {
                    Ok::<UserID, TokenError>(self.user_id)
                } else {
                    Err::<UserID, TokenError>(TokenError::Expired)
                },
    {
        match sign_claims(self.user_id, self.exp, secret) {
            Some(t) => t,
            None => String::new(),
        }
    }

    /// The user that `token` speaks for, if its signature matches `secret`
    /// and it has not expired at `now`. No state is consulted.
    pub fn verify(token: &str, secret: &[u8], now: u64) -> (r: Result<UserID, TokenError>)
        ensures
            r == claims_verdict(hs256_claims(token@, secret@), now),
    {
        check_claims(read_claims(token, secret), now)
    }
}

/// Why a request was not authorised.
#[derive(Debug, Clone, Copy, PartialEq, Eq, Structural)]
pub enum AuthorizationError {
    /// The request carries no authorization header.
    MissingHeader,
    /// The header holds a token that was refused.
    InvalidToken(TokenError),
}

/// The user that a request's authorization header speaks for: the header
/// holds the token itself.
pub fn authorize(header: Option<&str>, secret: &[u8], now: u64) -> (r: Result<
    UserID,
    AuthorizationError,
>)
    ensures
        header is None ==> r == Err::<UserID, AuthorizationError>(AuthorizationError::MissingHeader),
        header matches Some(h) ==> r == match claims_verdict(hs256_claims(h@, secret@), now) {
            Ok(u) => Ok(u),
            Err(e) => Err(AuthorizationError::InvalidToken(e)),
        },
{
    match header {
        None => Err(AuthorizationError::MissingHeader),
        Some(token) => match JWToken::verify(token, secret, now) {
            Ok(user_id) => Ok(user_id),
            Err(e) => Err(AuthorizationError::InvalidToken(e)),
        },
    }
}

/// Issuing then verifying gives back the user until the expiry, and `Expired`
/// from then on: stated of the claims `{user_id, exp}` of a token issued at
/// `issued_at` for `lifetime` seconds, which `JWToken::encode` guarantees
/// decoding hands back (`issued_claims`).
pub proof fn lemma_issued_claims_verify(user_id: UserID, issued_at: u64, lifetime: u64, now: u64)
    ensures
        ({
            let exp = expiry(issued_at, lifetime);
            let decoded = issued_claims(user_id, exp);
            &&& issued_at + lifetime <= u64::MAX ==> exp == issued_at + lifetime
            &&& now < exp ==> claims_verdict(decoded, now) == Ok::<UserID, TokenError>(user_id)
            &&& now >= exp ==> claims_verdict(decoded, now) == Err::<UserID, TokenError>(
                TokenError::Expired,
            )
        }),
{
}

} // verus!
