use admin_backend::auth::jwt::validate_token;
use admin_backend::auth::password::hash_password_with_cost;
use admin_backend::config::AuthConfig;
use admin_backend::db::{
    create_admin, find_admin_by_email, find_admin_by_id, AdminDirectory,
};
use admin_backend::error::AppError;
use admin_backend::handlers::auth::{
    check_login, current_admin, get_current_admin, login, prepare_registration, register_admin,
    register_admin_with_cost,
};
use admin_backend::middleware::auth::{authenticate, AuthenticatedAdmin};
use admin_backend::models::admin::{Admin, AdminLogin, AdminResponse};

const FIRST: u128 = 0x550e8400_e29b_41d4_a716_446655440000;
const SECOND: u128 = 0x936da01f_9abd_4d9d_80c7_02af85c822a8;

fn config() -> AuthConfig {
    AuthConfig { jwt_secret: "secret".to_string(), jwt_expires_in: 86400 }
}

fn credentials(email: &str, password: &str) -> AdminLogin {
    AdminLogin { email: email.to_string(), password: password.to_string() }
}

fn invalid_credentials() -> AppError {
    AppError::Auth("Invalid email or password".to_string())
}

#[test]
fn register_login_me_and_truncated_token() {
    let mut directory = AdminDirectory::new();
    let now = 1_700_000_000;

    let registered = register_admin(&mut directory, &credentials("a@x.com", "pw123456"), FIRST)
        .unwrap();
    assert_eq!(registered.status, 201);
    assert_eq!(
        registered.body,
        AdminResponse { id: FIRST, email: "a@x.com".to_string(), role: "admin".to_string() }
    );

    let logged_in =
        login(&directory, &config(), &credentials("a@x.com", "pw123456"), now).unwrap();
    assert_eq!(logged_in.status, 200);
    assert_eq!(logged_in.body.admin, registered.body);
    let token = logged_in.body.token;

    let header = format!("Bearer {}", token);
    let identity = authenticate(Some(&header), now + 1, &config()).unwrap();
    let me = get_current_admin(&directory, &identity).unwrap();
    assert_eq!(me.status, 200);
    assert_eq!(me.body.email, "a@x.com");
    assert_eq!(me.body.id, FIRST);

    let truncated = &header[..header.len() - 1];
    let refused = authenticate(Some(truncated), now + 1, &config()).unwrap_err();
    assert_eq!(refused.status_code(), 401);
    assert_eq!(refused, AppError::Auth("invalid token".to_string()));
}

#[test]
fn login_token_subject_is_the_registered_identifier() {
    let mut directory = AdminDirectory::new();
    for (id, email, password) in
        [(FIRST, "a@x.com", "pw123456"), (SECOND, "b@x.com", "another one"), (3, "c@x.com", "")]
    {
        register_admin_with_cost(&mut directory, &credentials(email, password), id, 4).unwrap();
    }
    for (id, email, password) in
        [(FIRST, "a@x.com", "pw123456"), (SECOND, "b@x.com", "another one"), (3, "c@x.com", "")]
    {
        let reply = login(&directory, &config(), &credentials(email, password), 50).unwrap();
        assert_eq!(reply.body.admin.id, id);
        let claims = validate_token(&reply.body.token, 50, &config()).unwrap();
        assert_eq!(uuid::Uuid::parse_str(&claims.sub).unwrap().as_u128(), id);
        assert_eq!(claims.role, "admin");
        assert_eq!(claims.iat, 50);
        assert_eq!(claims.exp, 50 + 86400);
    }
}

#[test]
fn login_refuses_unknown_address_and_wrong_password_alike() {
    let mut directory = AdminDirectory::new();
    register_admin_with_cost(&mut directory, &credentials("a@x.com", "pw123456"), FIRST, 4)
        .unwrap();
    assert_eq!(
        login(&directory, &config(), &credentials("b@x.com", "pw123456"), 1),
        Err(invalid_credentials())
    );
    assert_eq!(
        login(&directory, &config(), &credentials("a@x.com", "pw1234567"), 1),
        Err(invalid_credentials())
    );
    assert_eq!(
        login(&directory, &config(), &credentials("A@x.com", "pw123456"), 1),
        Err(invalid_credentials())
    );
    assert_eq!(invalid_credentials().status_code(), 401);
}

#[test]
fn login_decides_from_what_the_lookup_found() {
    let hash = hash_password_with_cost("pw123456", 4).unwrap();
    let admin = Admin {
        id: FIRST,
        email: "a@x.com".to_string(),
        hashed_password: hash,
        role: "admin".to_string(),
    };
    assert_eq!(check_login(None, "pw123456", 1, &config()), Err(invalid_credentials()));
    assert_eq!(
        check_login(Some(admin.clone()), "nope", 1, &config()),
        Err(invalid_credentials())
    );
    let reply = check_login(Some(admin.clone()), "pw123456", 1, &config()).unwrap();
    assert_eq!(reply.status, 200);
    assert_eq!(reply.body.admin.email, "a@x.com");

    let broken = Admin { hashed_password: "garbage".to_string(), ..admin.clone() };
    let refused = check_login(Some(broken), "pw123456", 1, &config()).unwrap_err();
    assert_eq!(refused, AppError::Internal("Failed to verify password".to_string()));
    assert_eq!(refused.status_code(), 500);

    let overflow = check_login(Some(admin), "pw123456", u64::MAX, &config()).unwrap_err();
    assert_eq!(overflow.status_code(), 500);
}

#[test]
fn registration_refuses_an_address_in_use() {
    let mut directory = AdminDirectory::new();
    register_admin_with_cost(&mut directory, &credentials("a@x.com", "pw123456"), FIRST, 4)
        .unwrap();
    let again =
        register_admin_with_cost(&mut directory, &credentials("a@x.com", "other"), SECOND, 4);
    assert_eq!(again, Err(AppError::Validation("Email already in use".to_string())));
    assert_eq!(again.unwrap_err().status_code(), 400);
    assert_eq!(directory.len(), 1);
    assert_eq!(login(&directory, &config(), &credentials("a@x.com", "other"), 1),
        Err(invalid_credentials()));
    assert!(login(&directory, &config(), &credentials("a@x.com", "pw123456"), 1).is_ok());
}

#[test]
fn registration_refuses_an_identifier_in_use() {
    let mut directory = AdminDirectory::new();
    register_admin_with_cost(&mut directory, &credentials("a@x.com", "pw123456"), FIRST, 4)
        .unwrap();
    let again =
        register_admin_with_cost(&mut directory, &credentials("b@x.com", "pw123456"), FIRST, 4);
    assert_eq!(
        again,
        Err(AppError::Database("duplicate key value violates unique constraint".to_string()))
    );
    assert_eq!(directory.len(), 1);
    assert!(find_admin_by_email(&directory, "b@x.com").is_none());
}

#[test]
fn registration_is_prepared_from_what_the_lookup_found() {
    let taken = Admin {
        id: FIRST,
        email: "a@x.com".to_string(),
        hashed_password: "h".to_string(),
        role: "admin".to_string(),
    };
    assert_eq!(
        prepare_registration(Some(taken), &credentials("a@x.com", "pw"), 4),
        Err(AppError::Validation("Email already in use".to_string()))
    );
    let account = prepare_registration(None, &credentials("a@x.com", "pw"), 4).unwrap();
    assert_eq!(account.email, "a@x.com");
    assert_eq!(account.role, "admin");
    assert_ne!(account.hashed_password, "pw");
    assert!(bcrypt::verify("pw", &account.hashed_password).unwrap());
    match prepare_registration(None, &credentials("a@x.com", "pw"), 99) {
        Err(AppError::Internal(_)) => {}
        other => panic!("expected an internal error, got {:?}", other),
    }
}

#[test]
fn stored_hash_is_never_the_password_and_never_shown() {
    let mut directory = AdminDirectory::new();
    register_admin_with_cost(&mut directory, &credentials("a@x.com", "pw123456"), FIRST, 4)
        .unwrap();
    let stored = find_admin_by_email(&directory, "a@x.com").unwrap();
    assert_ne!(stored.hashed_password, "pw123456");
    assert!(stored.hashed_password.starts_with("$2b$04$"));
    let shown = stored.to_response();
    assert_eq!(
        shown,
        AdminResponse { id: FIRST, email: "a@x.com".to_string(), role: "admin".to_string() }
    );
}

#[test]
fn directory_finds_by_address_and_by_identifier() {
    let mut directory = AdminDirectory::new();
    assert_eq!(directory.len(), 0);
    assert_eq!(find_admin_by_email(&directory, "a@x.com"), None);
    assert_eq!(find_admin_by_id(&directory, FIRST), None);

    let first = create_admin(&mut directory, FIRST, "a@x.com", "hash-a", "admin").unwrap();
    let second = create_admin(&mut directory, SECOND, "b@x.com", "hash-b", "auditor").unwrap();
    assert_eq!(
        first,
        Admin {
            id: FIRST,
            email: "a@x.com".to_string(),
            hashed_password: "hash-a".to_string(),
            role: "admin".to_string(),
        }
    );
    assert_eq!(directory.len(), 2);
    assert_eq!(find_admin_by_email(&directory, "a@x.com"), Some(first.clone()));
    assert_eq!(find_admin_by_email(&directory, "b@x.com"), Some(second.clone()));
    assert_eq!(find_admin_by_id(&directory, FIRST), Some(first));
    assert_eq!(find_admin_by_id(&directory, SECOND), Some(second));
    assert_eq!(find_admin_by_email(&directory, "c@x.com"), None);
    assert_eq!(find_admin_by_id(&directory, 1), None);

    let duplicate = Err(AppError::Database(
        "duplicate key value violates unique constraint".to_string(),
    ));
    assert_eq!(create_admin(&mut directory, 1, "a@x.com", "h", "admin"), duplicate);
    assert_eq!(create_admin(&mut directory, FIRST, "c@x.com", "h", "admin"), duplicate);
    assert_eq!(directory.len(), 2);
}

#[test]
fn own_account_is_shown_or_found_gone() {
    let mut directory = AdminDirectory::new();
    create_admin(&mut directory, FIRST, "a@x.com", "hash-a", "admin").unwrap();
    let present = AuthenticatedAdmin { admin_id: FIRST, role: "admin".to_string() };
    let reply = get_current_admin(&directory, &present).unwrap();
    assert_eq!(reply.status, 200);
    assert_eq!(
        reply.body,
        AdminResponse { id: FIRST, email: "a@x.com".to_string(), role: "admin".to_string() }
    );

    let gone = AuthenticatedAdmin { admin_id: SECOND, role: "admin".to_string() };
    let refused = get_current_admin(&directory, &gone).unwrap_err();
    assert_eq!(refused, AppError::NotFound("Admin not found".to_string()));
    assert_eq!(refused.status_code(), 404);
    assert_eq!(current_admin(None), Err(AppError::NotFound("Admin not found".to_string())));
}
