//! Login, registration and the admin's own account.

use crate::auth::jwt::{
    generate_token, is_issued_token, issued_token, secret_bytes, signed_claims,
};
use crate::auth::password::{bcrypt_verdict, hash_password_with_cost, verify_password, HASH_COST};
use crate::config::{AuthConfig, AuthConfigView};
use crate::db::{
    admin_with_email, admin_with_id, create_admin, duplicate_admin, find_admin_by_email,
    find_admin_by_id, lemma_admin_appended, AdminDirectory,
};
use crate::error::{AppError, AppErrorView};
use crate::ids::uuid_from_text;
use crate::middleware::auth::AuthenticatedAdmin;
use crate::models::admin::{
    Admin, AdminLogin, AdminLoginView, AdminResponse, AdminResponseView, AdminView, LoginResponse,
    LoginResponseView,
};
use crate::reply::{Reply, CREATED, OK};
use vstd::prelude::*;
use vstd::string::*;

verus! {

/// The error for a login that names no account or gives the wrong
/// password. It is the same in both cases.
pub open spec fn invalid_credentials() -> AppErrorView {
    AppErrorView::Auth("Invalid email or password"@)
}

/// The error for a registration under an address that is in use.
pub open spec fn email_in_use() -> AppErrorView {
    AppErrorView::Validation("Email already in use"@)
}

/// The error for an admin whose account is not on record.
pub open spec fn admin_not_found() -> AppErrorView {
    AppErrorView::NotFound("Admin not found"@)
}

/// The error for a token that could not be made: an internal error that
/// says so and names the cause.
pub open spec fn token_failure(e: AppErrorView) -> bool {
    e matches AppErrorView::Internal(m) && "Failed to generate JWT: "@.is_prefix_of(m)
}

/// The error for a password that could not be hashed: an internal error
/// that says so and names the cause.
pub open spec fn hashing_failure(e: AppErrorView) -> bool {
    e matches AppErrorView::Internal(m) && "Failed to hash password: "@.is_prefix_of(m)
}

/// Whether `outcome` is what a login with `password` at `now` gives, where
/// looking the e-mail address up found `found`.
///
/// No account and a wrong password give the same error. A stored hash that
/// the hashing library rejects gives an internal error. With the right
/// password the login succeeds with a freshly issued token and what is
/// shown of the account, unless no token could be made, which gives an
/// internal error.
pub open spec fn is_login_outcome(
    found: Option<AdminView>,
    password: Seq<char>,
    now: u64,
    config: AuthConfigView,
    outcome: Result<LoginResponseView, AppErrorView>,
) -> bool {
    match found {
        None => outcome == Err::<LoginResponseView, AppErrorView>(invalid_credentials()),
        Some(admin) => match bcrypt_verdict(password, admin.hashed_password) {
            None => outcome == Err::<LoginResponseView, AppErrorView>(
                AppErrorView::Internal("Failed to verify password"@),
            ),
            Some(false) => outcome == Err::<LoginResponseView, AppErrorView>(
                invalid_credentials(),
            ),
            Some(true) => match outcome {
                Ok(response) => {
                    &&& is_issued_token(response.token, admin.id, admin.role, now, config)
                    &&& response.admin == admin.response()
                },
                Err(e) => {
                    &&& issued_token(admin.id, admin.role, now, config) is None
                    &&& token_failure(e)
                },
            },
        },
    }
}

/// A login response taken by its view.
pub open spec fn login_view(
    outcome: Result<Reply<LoginResponse>, AppError>,
) -> Result<LoginResponseView, AppErrorView> {
    match outcome {
        Ok(reply) => Ok(reply.body@),
        Err(e) => Err(e@),
    }
}

/// Decides on a login from what looking the e-mail address up found.
pub fn check_login(
    found: Option<Admin>,
    password: &str,
    now: u64,
    config: &AuthConfig,
) -> (outcome: Result<Reply<LoginResponse>, AppError>)
    ensures
        is_login_outcome(
            match found {
                Some(a) => Some(a@),
                None => None,
            },
            password@,
            now,
            config@,
            login_view(outcome),
        ),
        outcome matches Ok(reply) ==> reply.status == OK,
{
    let admin = match found {
        Some(admin) => admin,
        None => {
            return Err(AppError::Auth(String::from_str("Invalid email or password")));
        },
    };
    match verify_password(password, admin.hashed_password.as_str()) {
        Ok(true) => {},
        Ok(false) => {
            return Err(AppError::Auth(String::from_str("Invalid email or password")));
        },
        Err(e) => {
            return Err(e);
        },
    }
    let token = match generate_token(admin.id, admin.role.as_str(), now, config) {
        Ok(token) => token,
        Err(e) => {
            return Err(e);
        },
    };
    let response = LoginResponse { token, admin: admin.to_response() };
    Ok(Reply { status: OK, body: response })
}

/// Logs an admin in: looks the account up by the e-mail address, checks
/// the password against the stored hash, and issues a token at `now`.
pub fn login(
    db_pool: &AdminDirectory,
    config: &AuthConfig,
    login_data: &AdminLogin,
    now: u64,
) -> (outcome: Result<Reply<LoginResponse>, AppError>)
    ensures
        is_login_outcome(
            admin_with_email(db_pool@, login_data@.email),
            login_data@.password,
            now,
            config@,
            login_view(outcome),
        ),
        outcome matches Ok(reply) ==> reply.status == OK,
{
    let found = find_admin_by_email(db_pool, login_data.email.as_str());
    check_login(found, login_data.password.as_str(), now, config)
}

/// The account of a new admin before it is on record.
#[derive(Debug, Clone, PartialEq, Eq)]
pub struct NewAdmin {
    pub email: String,
    pub hashed_password: String,
    pub role: String,
}

/// Prepares a registration from what looking the e-mail address up found:
/// refuses an address that is in use, hashes the password at the given
/// cost, and gives the account the role `admin`.
pub fn prepare_registration(
    existing: Option<Admin>,
    login_data: &AdminLogin,
    cost: u32,
) -> (prepared: Result<NewAdmin, AppError>)
    ensures
        match prepared {
            Ok(account) => {
                &&& existing is None
                &&& account.email@ == login_data@.email
                &&& account.role@ == "admin"@
                &&& bcrypt_verdict(login_data@.password, account.hashed_password@) == Some(true)
            },
            Err(e) => if existing is Some {
                e@ == email_in_use()
            } else {
                hashing_failure(e@)
            },
        },
{
    if existing.is_some() {
        return Err(AppError::Validation(String::from_str("Email already in use")));
    }
    let hashed_password = match hash_password_with_cost(login_data.password.as_str(), cost) {
        Ok(hash) => hash,
        Err(e) => {
            return Err(e);
        },
    };
    Ok(
        NewAdmin {
            email: login_data.email.clone(),
            hashed_password,
            role: String::from_str("admin"),
        },
    )
}

/// That the account `admin` is the one registered for the credentials
/// `login` under the identifier `admin_id`: it has the address and the
/// role `admin`, and its stored hash matches the password.
pub open spec fn is_registered(admin: AdminView, login: AdminLoginView, admin_id: u128) -> bool {
    &&& admin.id == admin_id
    &&& admin.email == login.email
    &&& admin.role == "admin"@
    &&& bcrypt_verdict(login.password, admin.hashed_password) == Some(true)
}

/// Whether `outcome` is what registering the credentials `login` under the
/// identifier `new_id` gives, and `after` the directory it leaves, where
/// `before` is the directory it found.
///
/// The registration is refused with a validation error if and only if the
/// e-mail address is in use. Where it succeeds, the directory is the one
/// before with the new account at its end, which is then the account found
/// by the address; its stored hash matches the password. It fails, too,
/// where the hashing reports a fault or the identifier is taken. Where it
/// fails the directory is as before.
pub open spec fn is_registration_outcome(
    before: Seq<AdminView>,
    after: Seq<AdminView>,
    login: AdminLoginView,
    new_id: u128,
    outcome: Result<AdminResponseView, AppErrorView>,
) -> bool {
    &&& admin_with_email(before, login.email) is Some <==> outcome == Err::<
        AdminResponseView,
        AppErrorView,
    >(email_in_use())
    &&& match outcome {
        Ok(shown) => {
            &&& shown == (AdminResponseView { id: new_id, email: login.email, role: "admin"@ })
            &&& admin_with_id(before, new_id) is None
            &&& after.len() == before.len() + 1
            &&& after.drop_last() == before
            &&& is_registered(after.last(), login, new_id)
            &&& admin_with_email(after, login.email) == Some(after.last())
        },
        Err(e) => {
            &&& after == before
            &&& {
                ||| e == email_in_use()
                ||| hashing_failure(e)
                ||| e == duplicate_admin() && admin_with_id(before, new_id) is Some
            }
        },
    }
}

/// The answer to a registration taken by its view.
pub open spec fn registration_view(
    outcome: Result<Reply<AdminResponse>, AppError>,
) -> Result<AdminResponseView, AppErrorView> {
    match outcome {
        Ok(reply) => Ok(reply.body@),
        Err(e) => Err(e@),
    }
}

/// Registers a new admin under the identifier `new_id`, with the password
/// hashed at the given cost.
///
/// An e-mail address that is in use is refused with a validation error.
/// Where the hashing reports a fault or the identifier is taken the
/// registration fails too. Where it fails nothing is put on record.
pub fn register_admin_with_cost(
    db_pool: &mut AdminDirectory,
    login_data: &AdminLogin,
    new_id: u128,
    cost: u32,
) -> (outcome: Result<Reply<AdminResponse>, AppError>)
    ensures
        is_registration_outcome(
            old(db_pool)@,
            final(db_pool)@,
            login_data@,
            new_id,
            registration_view(outcome),
        ),
        outcome matches Ok(reply) ==> reply.status == CREATED,
{
    let existing_admin = find_admin_by_email(db_pool, login_data.email.as_str());
    let account = match prepare_registration(existing_admin, login_data, cost) {
        Ok(account) => account,
        Err(e) => {
            return Err(e);
        },
    };
    let ghost before = db_pool@;
    match create_admin(
        db_pool,
        new_id,
        account.email.as_str(),
        account.hashed_password.as_str(),
        account.role.as_str(),
    ) {
        Ok(admin) => {
            proof {
                assert(before.push(admin@).drop_last() =~= before);
                lemma_admin_appended(before, admin@, login_data@.email);
            }
            Ok(Reply { status: CREATED, body: admin.to_response() })
        },
        Err(e) => Err(e),
    }
}

/// Registers a new admin under the identifier `new_id`, with the password
/// hashed at the standard cost.
pub fn register_admin(
    db_pool: &mut AdminDirectory,
    login_data: &AdminLogin,
    new_id: u128,
) -> (outcome: Result<Reply<AdminResponse>, AppError>)
    ensures
        is_registration_outcome(
            old(db_pool)@,
            final(db_pool)@,
            login_data@,
            new_id,
            registration_view(outcome),
        ),
        outcome matches Ok(reply) ==> reply.status == CREATED,
{
    register_admin_with_cost(db_pool, login_data, new_id, HASH_COST)
}

/// The account that a lookup found, as it is shown, or the error for one
/// that it did not find.
pub fn current_admin(found: Option<Admin>) -> (outcome: Result<Reply<AdminResponse>, AppError>)
    ensures
        match found {
            Some(admin) => outcome matches Ok(reply) && reply.status == OK && reply.body@
                == admin@.response(),
            None => outcome matches Err(e) && e@ == admin_not_found(),
        },
{
    match found {
        Some(admin) => Ok(Reply { status: OK, body: admin.to_response() }),
        None => Err(AppError::NotFound(String::from_str("Admin not found"))),
    }
}

/// Shows the authenticated admin's own account, or answers that it is not
/// on record any more.
pub fn get_current_admin(
    db_pool: &AdminDirectory,
    auth_admin: &AuthenticatedAdmin,
) -> (outcome: Result<Reply<AdminResponse>, AppError>)
    ensures
        match admin_with_id(db_pool@, auth_admin.admin_id) {
            Some(admin) => outcome matches Ok(reply) && reply.status == OK && reply.body@
                == admin.response(),
            None => outcome matches Err(e) && e@ == admin_not_found(),
        },
{
    current_admin(find_admin_by_id(db_pool, auth_admin.admin_id))
}

/// An admin who registered once logs in with the same credentials: the
/// login is never refused for its credentials, and where it succeeds, as
/// it does whenever a token can be made, the token is one issued to the
/// registered identifier, so that its subject reads back as that
/// identifier.
pub proof fn lemma_registered_admin_logs_in(
    before: Seq<AdminView>,
    after: Seq<AdminView>,
    login: AdminLoginView,
    admin_id: u128,
    shown: AdminResponseView,
    now: u64,
    config: AuthConfigView,
    outcome: Result<LoginResponseView, AppErrorView>,
)
    requires
        is_registration_outcome(
            before,
            after,
            login,
            admin_id,
            Ok::<AdminResponseView, AppErrorView>(shown),
        ),
        is_login_outcome(
            admin_with_email(after, login.email),
            login.password,
            now,
            config,
            outcome,
        ),
    ensures
        outcome is Ok <==> issued_token(admin_id, "admin"@, now, config) is Some,
        outcome matches Ok(response) ==> {
            &&& is_issued_token(response.token, admin_id, "admin"@, now, config)
            &&& signed_claims(response.token, secret_bytes(config)) matches Some(claims)
            &&& uuid_from_text(claims.sub) == Some(admin_id)
            &&& response.admin == shown
        },
        outcome matches Err(e) ==> token_failure(e),
{
}

} // verus!
