//! The authentication step of protected routes: reads the bearer token of
//! a request, has it validated, and yields the identity that the handlers
//! of this one request may read.
//!
//! The step holds no state of its own and remembers nothing between
//! requests. Forwarding the request to the wrapped service is the caller's
//! part.

use crate::auth::jwt::{
    checked_claims, is_issued_token, secret_bytes, signed_claims, validate_token, Claims,
    ClaimsView,
};
use crate::config::{AuthConfig, AuthConfigView};
use crate::error::{result_view, AppError, AppErrorView};
use crate::ids::{parse_uuid, uuid_from_text};
use crate::text::{optional_str, str_equal};
use vstd::prelude::*;
use vstd::string::*;

verus! {

/// The verified identity of the admin who sent a request.
#[derive(Debug, Clone, PartialEq, Eq)]
pub struct AuthenticatedAdmin {
    pub admin_id: u128,
    pub role: String,
}

pub struct AuthenticatedAdminView {
    pub admin_id: u128,
    pub role: Seq<char>,
}

impl View for AuthenticatedAdmin {
    type V = AuthenticatedAdminView;

    open spec fn view(&self) -> AuthenticatedAdminView {
        AuthenticatedAdminView { admin_id: self.admin_id, role: self.role@ }
    }
}

/// The token of an `Authorization` header: what follows the prefix
/// `Bearer `, written exactly so; nothing where the header does not start
/// with it.
pub open spec fn bearer_part(header: Seq<char>) -> Option<Seq<char>> {
    if "Bearer "@.is_prefix_of(header) {
        Some(header.skip("Bearer "@.len() as int))
    } else {
        None
    }
}

/// The error for a request without a usable `Authorization` header.
pub open spec fn missing_token() -> AppErrorView {
    AppErrorView::Auth("missing authorization token"@)
}

/// The identity that validated claims stand for: their role, and the admin
/// whose identifier the subject is; an error where the subject is no
/// identifier.
pub open spec fn identity_of(claims: ClaimsView) -> Result<AuthenticatedAdminView, AppErrorView> {
    match uuid_from_text(claims.sub) {
        Some(admin_id) => Ok(AuthenticatedAdminView { admin_id, role: claims.role }),
        None => Err(AppErrorView::Auth("invalid admin id in token"@)),
    }
}

/// The outcome of the authentication step for a request with the given
/// `Authorization` header at time `now`.
pub open spec fn authenticated(
    authorization: Option<Seq<char>>,
    now: u64,
    config: AuthConfigView,
) -> Result<AuthenticatedAdminView, AppErrorView> {
    match authorization {
        None => Err(missing_token()),
        Some(header) => match bearer_part(header) {
            None => Err(missing_token()),
            Some(token) => match checked_claims(signed_claims(token, secret_bytes(config)), now) {
                Err(e) => Err(e),
                Ok(claims) => identity_of(claims),
            },
        },
    }
}

/// Takes the token out of an `Authorization` header.
pub fn bearer_token(header: &str) -> (token: Option<&str>)
    ensures
        match token {
            Some(t) => bearer_part(header@) == Some(t@),
            None => bearer_part(header@) is None,
        },
{
    proof {
        reveal_strlit("Bearer ");
    }
    let n: usize = header.unicode_len();
    if n < 7 {
        return None;
    }
    let head = header.substring_char(0, 7);
    if str_equal(head, "Bearer ") {
        Some(header.substring_char(7, n))
    } else {
        None
    }
}

/// Builds the identity from validated claims and from what parsing their
/// subject as an identifier gave.
pub fn identify(
    claims: Claims,
    subject: Option<u128>,
) -> (identity: Result<AuthenticatedAdmin, AppError>)
    ensures
        match subject {
            Some(admin_id) => result_view(identity) == Ok::<AuthenticatedAdminView, AppErrorView>(
                AuthenticatedAdminView { admin_id, role: claims@.role },
            ),
            None => result_view(identity) == Err::<AuthenticatedAdminView, AppErrorView>(
                AppErrorView::Auth("invalid admin id in token"@),
            ),
        },
{
    match subject {
        Some(admin_id) => Ok(AuthenticatedAdmin { admin_id, role: claims.role }),
        None => Err(AppError::Auth(String::from_str("invalid admin id in token"))),
    }
}

/// Authenticates a request from its `Authorization` header, if it has one
/// that is text, at time `now`.
///
/// The header must start with `Bearer `; the rest must be a token that
/// [`validate_token`] accepts, and its subject an admin's identifier.
pub fn authenticate(
    authorization: Option<&str>,
    now: u64,
    config: &AuthConfig,
) -> (identity: Result<AuthenticatedAdmin, AppError>)
    ensures
        result_view(identity) == authenticated(optional_str(authorization), now, config@),
{
    let header = match authorization {
        Some(header) => header,
        None => {
            return Err(AppError::Auth(String::from_str("missing authorization token")));
        },
    };
    let token = match bearer_token(header) {
        Some(token) => token,
        None => {
            return Err(AppError::Auth(String::from_str("missing authorization token")));
        },
    };
    let claims = match validate_token(token, now, config) {
        Ok(claims) => claims,
        Err(e) => {
            return Err(e);
        },
    };
    let subject = parse_uuid(claims.sub.as_str());
    identify(claims, subject)
}

/// Marks a group of routes as protected: wrapping a service with it gives
/// the service an authentication step in front.
#[derive(Debug, Clone, Copy, PartialEq, Eq)]
pub struct Authentication;

/// A service with the authentication step in front of it.
#[derive(Debug, Clone, PartialEq, Eq)]
pub struct AuthenticationMiddleware<S> {
    pub service: S,
}

impl Authentication {
    /// Puts the authentication step in front of `service`.
    pub fn new_transform<S>(&self, service: S) -> (wrapped: AuthenticationMiddleware<S>)
        ensures
            wrapped.service == service,
    {
        AuthenticationMiddleware { service }
    }
}

impl<S> AuthenticationMiddleware<S> {
    /// Decides on a request before the wrapped service sees it: the
    /// identity to attach to the request, or the error to answer with.
    /// Only a request that got an identity is forwarded.
    pub fn call(
        &self,
        authorization: Option<&str>,
        now: u64,
        config: &AuthConfig,
    ) -> (identity: Result<AuthenticatedAdmin, AppError>)
        ensures
            result_view(identity) == authenticated(optional_str(authorization), now, config@),
    {
        authenticate(authorization, now, config)
    }

    /// The wrapped service.
    pub fn service(&self) -> (service: &S)
        ensures
            *service == self.service,
    {
        &self.service
    }
}

/// The `Authorization` header that carries a token.
pub open spec fn bearer_header(token: Seq<char>) -> Seq<char> {
    "Bearer "@ + token
}

/// A request that presents an issued token before its expiry is
/// authenticated as the admin the token was issued to, with the role it
/// was issued with; from the expiry on it is refused.
pub proof fn lemma_issued_token_authenticates(
    token: Seq<char>,
    admin_id: u128,
    role: Seq<char>,
    now: u64,
    config: AuthConfigView,
    later: u64,
)
    requires
        is_issued_token(token, admin_id, role, now, config),
    ensures
        later < now + config.jwt_expires_in ==> authenticated(
            Some(bearer_header(token)),
            later,
            config,
        ) == Ok::<AuthenticatedAdminView, AppErrorView>(AuthenticatedAdminView { admin_id, role }),
        later >= now + config.jwt_expires_in ==> authenticated(
            Some(bearer_header(token)),
            later,
            config,
        ) == Err::<AuthenticatedAdminView, AppErrorView>(AppErrorView::Auth("invalid token"@)),
{
    let header = bearer_header(token);
    assert(header.skip("Bearer "@.len() as int) =~= token);
}

} // verus!
