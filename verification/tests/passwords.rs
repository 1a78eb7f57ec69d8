use admin_backend::auth::password::{
    hash_password, hash_password_with_cost, password_verdict, verify_password,
};
use admin_backend::error::AppError;

#[test]
fn hashed_password_verifies_and_another_does_not() {
    let hash = hash_password_with_cost("pw123456", 4).unwrap();
    assert_ne!(hash, "pw123456");
    assert!(hash.starts_with("$2b$04$"));
    assert_eq!(hash.len(), 60);
    assert_eq!(verify_password("pw123456", &hash), Ok(true));
    assert_eq!(verify_password("pw1234567", &hash), Ok(false));
    assert_eq!(verify_password("", &hash), Ok(false));
}

#[test]
fn salt_makes_two_hashes_of_one_password_differ() {
    let first = hash_password_with_cost("pw123456", 4).unwrap();
    let second = hash_password_with_cost("pw123456", 4).unwrap();
    assert_ne!(first, second);
    assert_eq!(verify_password("pw123456", &first), Ok(true));
    assert_eq!(verify_password("pw123456", &second), Ok(true));
}

#[test]
fn standard_cost_is_twelve() {
    let hash = hash_password("correct horse").unwrap();
    assert!(hash.starts_with("$2b$12$"));
    assert_eq!(verify_password("correct horse", &hash), Ok(true));
}

#[test]
fn known_hash_verifies() {
    let hash = "$2b$04$EGdrhbKUv8Oc9vGiXX0HQOxSg445d458Muh7DAHskb6QbtCvdxcie";
    assert_eq!(verify_password("correctbatteryhorsestapler", hash), Ok(true));
    assert_eq!(verify_password("wrong", hash), Ok(false));
}

#[test]
fn malformed_hash_is_an_internal_error_not_a_mismatch() {
    let internal = Err(AppError::Internal("Failed to verify password".to_string()));
    assert_eq!(verify_password("pw", "not a hash"), internal);
    assert_eq!(verify_password("pw", ""), internal);
    assert_eq!(verify_password("pw", "$2b$04$tooshort"), internal);
}

#[test]
fn cost_out_of_range_is_an_internal_error() {
    for cost in [0u32, 3, 32] {
        match hash_password_with_cost("pw", cost) {
            Err(AppError::Internal(message)) => {
                assert!(message.starts_with("Failed to hash password: "))
            }
            other => panic!("expected an internal error, got {:?}", other),
        }
    }
}

#[test]
fn verdict_passes_the_answer_on() {
    assert_eq!(password_verdict(Some(true)), Ok(true));
    assert_eq!(password_verdict(Some(false)), Ok(false));
    assert_eq!(
        password_verdict(None),
        Err(AppError::Internal("Failed to verify password".to_string()))
    );
}
