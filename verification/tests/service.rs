use userauth::errors::{InsertOutcome, LookupOutcome, NotFoundError};
use userauth::handlers::{
    login_response_for, login_user, register_response_for, register_user, User,
};
use userauth::hashing::{hash_password, hash_password_with_cost, verify_password, HASH_COST};
use userauth::messages::{
    duplicate_username_message, internal_error_message, invalid_credentials_message,
    login_success_message, register_success_message,
};
use userauth::store::CredentialStore;

fn user(name: &str, password: &str) -> User {
    User {
        username: name.to_string(),
        password: password.to_string(),
    }
}

#[test]
fn hash_then_verify_same_password() {
    let digest = hash_password("s3cret").expect("hashing with the fixed cost succeeds");
    assert_eq!(verify_password("s3cret", &digest), Ok(true));
}

#[test]
fn verify_rejects_different_password() {
    let digest = hash_password("s3cret").expect("hashing with the fixed cost succeeds");
    assert_eq!(verify_password("wrong", &digest), Ok(false));
    assert_eq!(verify_password("s3cret ", &digest), Ok(false));
    assert_eq!(verify_password("", &digest), Ok(false));
}

#[test]
fn verify_errors_on_malformed_digest() {
    assert!(verify_password("s3cret", "").is_err());
    assert!(verify_password("s3cret", "not-a-bcrypt-digest").is_err());
    assert!(verify_password("s3cret", "$2b$04$short").is_err());
}

#[test]
fn hashing_error_on_rejected_cost() {
    assert!(hash_password_with_cost("s3cret", 0).is_err());
    assert!(hash_password_with_cost("s3cret", 3).is_err());
    assert!(hash_password_with_cost("s3cret", 32).is_err());
    assert!(hash_password_with_cost("s3cret", HASH_COST).is_ok());
}

#[test]
fn hash_of_empty_password_verifies() {
    let digest = hash_password("").expect("hashing the empty password succeeds");
    assert_eq!(verify_password("", &digest), Ok(true));
    assert_eq!(verify_password("x", &digest), Ok(false));
}

#[test]
fn register_same_username_twice() {
    let mut store = CredentialStore::new();
    let first = register_user(&user("alice", "s3cret"), &mut store);
    assert_eq!(first, "User alice registered successfully!");
    let second = register_user(&user("alice", "other"), &mut store);
    assert_eq!(
        second,
        "Failed to register user: username is already taken"
    );
    assert_eq!(store.record_count(&"alice".to_string()), 1);
}

#[test]
fn duplicate_insert_keeps_first_digest() {
    let mut store = CredentialStore::new();
    assert!(store.insert("alice".to_string(), "digest-one".to_string()).is_ok());
    assert!(store.insert("alice".to_string(), "digest-two".to_string()).is_err());
    assert_eq!(
        store.find_password_hash(&"alice".to_string()),
        Ok("digest-one".to_string())
    );
}

#[test]
fn find_password_hash_on_missing_username() {
    let store = CredentialStore::new();
    assert_eq!(
        store.find_password_hash(&"nobody".to_string()),
        Err(NotFoundError)
    );
}

#[test]
fn contains_username_reports_presence() {
    let mut store = CredentialStore::new();
    assert!(!store.contains_username(&"alice".to_string()));
    assert!(store.insert("alice".to_string(), "d".to_string()).is_ok());
    assert!(store.contains_username(&"alice".to_string()));
    assert!(!store.contains_username(&"bob".to_string()));
}

#[test]
fn failed_logins_share_one_message() {
    let mut store = CredentialStore::new();
    let _ = register_user(&user("alice", "s3cret"), &mut store);
    let unknown_username = login_user(&user("bob", "x"), &store);
    let wrong_password = login_user(&user("alice", "wrong"), &store);
    assert_eq!(unknown_username, wrong_password);
    assert_eq!(unknown_username, "Invalid credentials!");
}

#[test]
fn register_and_login_scenario() {
    let mut store = CredentialStore::new();

    let registered = register_user(&user("alice", "s3cret"), &mut store);
    assert_eq!(registered, "User alice registered successfully!");
    assert!(registered.contains("alice"));

    let logged_in = login_user(&user("alice", "s3cret"), &store);
    assert_eq!(logged_in, "User alice logged in successfully!");
    assert!(logged_in.contains("alice"));

    let wrong_password = login_user(&user("alice", "wrong"), &store);
    assert_eq!(wrong_password, "Invalid credentials!");

    let never_registered = login_user(&user("bob", "x"), &store);
    assert_eq!(never_registered, "Invalid credentials!");
    assert_eq!(wrong_password, never_registered);
}

#[test]
fn racing_registrations_one_success_each_order() {
    let digest_one = hash_password("first").unwrap();
    let digest_two = hash_password("second").unwrap();

    let mut store = CredentialStore::new();
    let first = store.insert("alice".to_string(), digest_one.clone());
    let second = store.insert("alice".to_string(), digest_two.clone());
    assert!(first.is_ok());
    assert!(second.is_err());
    assert_eq!(store.record_count(&"alice".to_string()), 1);

    let mut store = CredentialStore::new();
    let first = store.insert("alice".to_string(), digest_two);
    let second = store.insert("alice".to_string(), digest_one);
    assert!(first.is_ok());
    assert!(second.is_err());
    assert_eq!(store.record_count(&"alice".to_string()), 1);
}

#[test]
fn outcome_responses_for_register() {
    assert_eq!(
        register_response_for("alice", &InsertOutcome::Inserted),
        "User alice registered successfully!"
    );
    assert_eq!(
        register_response_for("alice", &InsertOutcome::Duplicate),
        "Failed to register user: username is already taken"
    );
    assert_eq!(
        register_response_for("alice", &InsertOutcome::StoreError),
        "Internal server error"
    );
}

#[test]
fn outcome_responses_for_login() {
    let digest = hash_password("s3cret").unwrap();
    assert_eq!(
        login_response_for("alice", "s3cret", &LookupOutcome::Found(digest.clone())),
        "User alice logged in successfully!"
    );
    assert_eq!(
        login_response_for("alice", "wrong", &LookupOutcome::Found(digest)),
        "Invalid credentials!"
    );
    assert_eq!(
        login_response_for("alice", "s3cret", &LookupOutcome::Found("corrupt".to_string())),
        "Invalid credentials!"
    );
    assert_eq!(
        login_response_for("alice", "s3cret", &LookupOutcome::NotFound),
        "Invalid credentials!"
    );
    assert_eq!(
        login_response_for("alice", "s3cret", &LookupOutcome::StoreError),
        "Internal server error"
    );
}

#[test]
fn message_builders_exact_text() {
    assert_eq!(
        register_success_message("alice"),
        "User alice registered successfully!"
    );
    assert_eq!(
        login_success_message("alice"),
        "User alice logged in successfully!"
    );
    assert_eq!(invalid_credentials_message(), "Invalid credentials!");
    assert_eq!(
        duplicate_username_message(),
        "Failed to register user: username is already taken"
    );
    assert_eq!(internal_error_message(), "Internal server error");
}

#[test]
fn register_with_empty_fields() {
    let mut store = CredentialStore::new();
    let response = register_user(&user("", ""), &mut store);
    assert_eq!(response, "User  registered successfully!");
    assert_eq!(login_user(&user("", ""), &store), "User  logged in successfully!");
    assert_eq!(login_user(&user("", "x"), &store), "Invalid credentials!");
}
