//! The token service: issues signed bearer tokens and validates them.
//!
//! Signing, encoding and signature checking are the work of the
//! `jsonwebtoken` crate. Which claims a token carries and until when it is
//! valid is decided here.

use crate::config::{AuthConfig, AuthConfigView};
use crate::error::{result_view, AppError, AppErrorView};
use crate::ids::{uuid_from_text, uuid_text, uuid_to_string};
use vstd::prelude::*;
use vstd::string::*;
use vstd::utf8::encode_utf8;

verus! {

/// The signed payload of a token.
#[derive(Debug, Clone, PartialEq, Eq)]
pub struct Claims {
    /// Subject: the admin's identifier, as text.
    pub sub: String,
    /// The admin's role.
    pub role: String,
    /// Expiry, in seconds since the epoch.
    pub exp: u64,
    /// Time of issue, in seconds since the epoch.
    pub iat: u64,
}

/// The mathematical value of [`Claims`].
pub struct ClaimsView {
    pub sub: Seq<char>,
    pub role: Seq<char>,
    pub exp: u64,
    pub iat: u64,
}

impl View for Claims {
    type V = ClaimsView;

    open spec fn view(&self) -> ClaimsView {
        ClaimsView { sub: self.sub@, role: self.role@, exp: self.exp, iat: self.iat }
    }
}

/// The token `jsonwebtoken::encode` makes of the claims under HS256 with
/// the given secret, or nothing where it reports an error.
pub uninterp spec fn hs256_token(claims: ClaimsView, secret: Seq<u8>) -> Option<Seq<char>>;

/// The claims `jsonwebtoken::decode` reads from a token whose HS256
/// signature matches the secret, or nothing where the token is malformed,
/// signed otherwise, or lacks one of the four claims.
pub uninterp spec fn signed_claims(token: Seq<char>, secret: Seq<u8>) -> Option<ClaimsView>;

/// Signs the claims with `jsonwebtoken::encode`, under the default header
/// (HS256) and the secret as an HMAC key.
///
/// Not proved: the result is the crate's, known here by name only, and the
/// crate's `decode` reads a token that `encode` made with the same secret
/// back as the same claims.
#[verifier::external_body]
fn encode_claims(claims: &Claims, secret: &[u8]) -> (token: Result<String, String>)
    ensures
        match token {
            Ok(t) => {
                &&& hs256_token(claims@, secret@) == Some(t@)
                &&& signed_claims(t@, secret@) == Some(claims@)
            },
            Err(_) => hs256_token(claims@, secret@) is None,
        },
{
    let mut payload = serde_json::Map::new();
    payload.insert("sub".to_string(), serde_json::Value::from(claims.sub.as_str()));
    payload.insert("role".to_string(), serde_json::Value::from(claims.role.as_str()));
    payload.insert("exp".to_string(), serde_json::Value::from(claims.exp));
    payload.insert("iat".to_string(), serde_json::Value::from(claims.iat));
    let key = jsonwebtoken::EncodingKey::from_secret(secret);
    let header = jsonwebtoken::Header::default();
    jsonwebtoken::encode(&header, &payload, &key).map_err(|e| e.to_string())
}

/// Checks a token's HS256 signature against the secret with
/// `jsonwebtoken::decode` and reads its four claims. The crate's own checks
/// of expiry, audience and required claims are switched off, so that the
/// answer depends on the token and the secret alone.
///
/// Not proved: the result is the crate's, known here by name only.
#[verifier::external_body]
fn decode_claims(token: &str, secret: &[u8]) -> (claims: Option<Claims>)
    ensures
        match claims {
            Some(c) => signed_claims(token@, secret@) == Some(c@),
            None => signed_claims(token@, secret@) is None,
        },
{
    let mut validation = jsonwebtoken::Validation::default();
    validation.validate_exp = false;
    validation.validate_aud = false;
    validation.required_spec_claims.clear();
    let key = jsonwebtoken::DecodingKey::from_secret(secret);
    let data = jsonwebtoken::decode::<serde_json::Value>(token, &key, &validation).ok()?;
    Some(Claims {
        sub: data.claims.get("sub")?.as_str()?.to_string(),
        role: data.claims.get("role")?.as_str()?.to_string(),
        exp: data.claims.get("exp")?.as_u64()?,
        iat: data.claims.get("iat")?.as_u64()?,
    })
}

/// The bytes of the signing secret.
pub open spec fn secret_bytes(config: AuthConfigView) -> Seq<u8> {
    encode_utf8(config.jwt_secret)
}

/// The claims of a token issued to `admin_id` at `now` with a lifetime of
/// `ttl` seconds; nothing where the expiry does not fit a timestamp.
pub open spec fn issued_claims(
    admin_id: u128,
    role: Seq<char>,
    now: u64,
    ttl: u64,
) -> Option<ClaimsView> {
    if now + ttl <= u64::MAX {
        Some(ClaimsView { sub: uuid_text(admin_id), role, exp: (now + ttl) as u64, iat: now })
    } else {
        None
    }
}

/// The token [`generate_token`] issues, where it issues one.
pub open spec fn issued_token(
    admin_id: u128,
    role: Seq<char>,
    now: u64,
    config: AuthConfigView,
) -> Option<Seq<char>> {
    match issued_claims(admin_id, role, now, config.jwt_expires_in) {
        Some(claims) => hs256_token(claims, secret_bytes(config)),
        None => None,
    }
}

/// That `token` is one that [`generate_token`] issued to `admin_id` at
/// `now`: it is the signed form of the issued claims, reads back as those
/// claims under the same secret, and its subject reads back as `admin_id`.
pub open spec fn is_issued_token(
    token: Seq<char>,
    admin_id: u128,
    role: Seq<char>,
    now: u64,
    config: AuthConfigView,
) -> bool {
    &&& issued_token(admin_id, role, now, config) == Some(token)
    &&& signed_claims(token, secret_bytes(config)) == issued_claims(
        admin_id,
        role,
        now,
        config.jwt_expires_in,
    )
    &&& uuid_from_text(uuid_text(admin_id)) == Some(admin_id)
}

/// The verdict on a token whose signature check gave `decoded`: the claims
/// while `now` is before their expiry, and one and the same error for a
/// token that did not pass the signature check and for one that expired.
pub open spec fn checked_claims(
    decoded: Option<ClaimsView>,
    now: u64,
) -> Result<ClaimsView, AppErrorView> {
    match decoded {
        Some(claims) => if now < claims.exp {
            Ok(claims)
        } else {
            Err(AppErrorView::Auth("invalid token"@))
        },
        None => Err(AppErrorView::Auth("invalid token"@)),
    }
}

/// Builds the claims of a token issued to `admin_id` at `now`, valid for
/// `ttl` seconds.
pub fn new_claims(admin_id: u128, role: &str, now: u64, ttl: u64) -> (claims: Option<Claims>)
    ensures
        match claims {
            Some(c) => {
                &&& issued_claims(admin_id, role@, now, ttl) == Some(c@)
                &&& uuid_from_text(c@.sub) == Some(admin_id)
            },
            None => issued_claims(admin_id, role@, now, ttl) is None,
        },
{
    match now.checked_add(ttl) {
        Some(exp) => Some(
            Claims { sub: uuid_to_string(admin_id), role: String::from_str(role), exp, iat: now },
        ),
        None => None,
    }
}

/// Issues a token for `admin_id` with the given role at time `now`, signed
/// with the configured secret and valid for the configured lifetime.
///
/// Fails with an internal error where the expiry does not fit a timestamp
/// or the signing reports a fault.
pub fn generate_token(
    admin_id: u128,
    role: &str,
    now: u64,
    config: &AuthConfig,
) -> (token: Result<String, AppError>)
    ensures
        match token {
            Ok(t) => is_issued_token(t@, admin_id, role@, now, config@),
            Err(e) => {
                &&& issued_token(admin_id, role@, now, config@) is None
                &&& e@ matches AppErrorView::Internal(m)
                &&& "Failed to generate JWT: "@.is_prefix_of(m)
            },
        },
{
    let claims = match new_claims(admin_id, role, now, config.jwt_expires_in) {
        Some(claims) => claims,
        None => {
            let message = String::from_str("Failed to generate JWT: ").concat(
                "expiry out of range",
            );
            return Err(AppError::Internal(message));
        },
    };
    match encode_claims(&claims, config.jwt_secret.as_str().as_bytes()) {
        Ok(token) => Ok(token),
        Err(cause) => {
            let message = String::from_str("Failed to generate JWT: ").concat(cause.as_str());
            Err(AppError::Internal(message))
        },
    }
}

/// Decides on a token from the outcome of its signature check: the claims
/// are handed on only while `now` is before their expiry.
pub fn check_claims(decoded: Option<Claims>, now: u64) -> (verdict: Result<Claims, AppError>)
    ensures
        result_view(verdict) == checked_claims(
            match decoded {
                Some(c) => Some(c@),
                None => None,
            },
            now,
        ),
{
    match decoded {
        Some(claims) => {
            if now < claims.exp {
                Ok(claims)
            } else {
                Err(AppError::Auth(String::from_str("invalid token")))
            }
        },
        None => Err(AppError::Auth(String::from_str("invalid token"))),
    }
}

/// Validates a token at time `now`: it must carry a signature made with the
/// configured secret and must not have expired. Every failure is the same
/// error.
pub fn validate_token(
    token: &str,
    now: u64,
    config: &AuthConfig,
) -> (verdict: Result<Claims, AppError>)
    ensures
        result_view(verdict) == checked_claims(signed_claims(token@, secret_bytes(config@)), now),
        verdict is Ok <==> {
            &&& signed_claims(token@, secret_bytes(config@)) matches Some(claims)
            &&& now < claims.exp
        },
{
    let decoded = decode_claims(token, config.jwt_secret.as_str().as_bytes());
    check_claims(decoded, now)
}

/// A token that was issued at `now` is accepted, under the secret it was
/// signed with, at exactly the times before `now` plus the configured
/// lifetime, and then with the claims it was issued with. So a token with
/// a lifetime of zero is refused from the moment of its issue on.
pub proof fn lemma_issued_token_valid_until_expiry(
    token: Seq<char>,
    admin_id: u128,
    role: Seq<char>,
    now: u64,
    config: AuthConfigView,
    later: u64,
)
    requires
        is_issued_token(token, admin_id, role, now, config),
    ensures
        checked_claims(signed_claims(token, secret_bytes(config)), later) is Ok
            <==> later < now + config.jwt_expires_in,
        later < now + config.jwt_expires_in ==> checked_claims(
            signed_claims(token, secret_bytes(config)),
            later,
        ) == Ok::<ClaimsView, AppErrorView>(
            issued_claims(admin_id, role, now, config.jwt_expires_in)->0,
        ),
        later >= now + config.jwt_expires_in ==> checked_claims(
            signed_claims(token, secret_bytes(config)),
            later,
        ) == Err::<ClaimsView, AppErrorView>(AppErrorView::Auth("invalid token"@)),
{
}

} // verus!
