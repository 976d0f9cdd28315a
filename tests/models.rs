use venja::models::password::{hash, verify, PasswordError};
use venja::models::user::NewUser;

#[test]
fn password_hash_verifies() {
    let h = hash("password").unwrap();
    assert_ne!(h, "password");
    assert_eq!(h.len(), 60);
    assert_eq!(verify("password", &h), Ok(true));
    assert_eq!(verify("passw0rd", &h), Ok(false));
}

#[test]
fn password_verify_refuses_malformed_hash() {
    assert_eq!(verify("password", "password"), Err(PasswordError::InvalidHash));
}

#[test]
fn new_user_holds_its_values() {
    let email = String::from("test@example.com");
    let encrypted = hash("password").unwrap();
    let u = NewUser::new(&email, &encrypted);
    assert_eq!(u.get_email(), "test@example.com");
    assert_eq!(u.get_encrypted_password(), &encrypted);
}
