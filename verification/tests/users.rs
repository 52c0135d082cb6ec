//! The user service: registration with real email validation and password
//! hashing, email uniqueness, coalescing updates and deactivation.

use ledger::dto::{CreateUserRequest, UpdateUserRequest};
use ledger::models::UserResponse;
use ledger::services::user::{
    create_user, deactivate_user, get_user_by_email, get_user_by_id, list_users, update_user,
};
use ledger::store::Ledger;

const LATER: i64 = 9_000;
const NOW: i64 = 8_000;

fn request(email: &str) -> CreateUserRequest {
    CreateUserRequest {
        auth_provider_id: "prov-1".to_string(),
        auth_provider_type: "EMAIL_PASSWORD".to_string(),
        email: email.to_string(),
        password: Some("correct horse battery staple".to_string()),
        first_name: "Ada".to_string(),
        last_name: "Lovelace".to_string(),
    }
}

#[test]
fn registration_stores_a_hash_never_the_password() {
    let mut store = Ledger::new();
    let u = create_user(&mut store, NOW, request("ada@example.com")).unwrap();
    assert_eq!(u.email, "ada@example.com");
    assert!(u.is_active);
    assert_eq!(u.created_at, NOW);
    let hash = u.password_hash.expect("a supplied password must yield a hash");
    assert_ne!(hash, "correct horse battery staple");
    assert!(hash.starts_with("$argon2"));
}

#[test]
fn registration_without_password_stores_none() {
    let mut store = Ledger::new();
    let mut req = request("sso@example.com");
    req.password = None;
    let u = create_user(&mut store, NOW, req).unwrap();
    assert!(u.password_hash.is_none());
}

#[test]
fn invalid_email_is_rejected_by_the_real_validator() {
    let mut store = Ledger::new();
    for bad in ["", "not-an-email", "a@", "@b.com", "a b@c.com"] {
        let err = create_user(&mut store, NOW, request(bad)).unwrap_err();
        assert!(err.is_validation(), "email {:?} should be rejected", bad);
    }
    assert!(store.users.is_empty());
    assert!(create_user(&mut store, NOW, request("fine@example.com")).is_ok());
}

#[test]
fn short_names_are_rejected() {
    let mut store = Ledger::new();
    let mut req = request("ada@example.com");
    req.first_name = "A".to_string();
    assert!(create_user(&mut store, NOW, req).unwrap_err().is_validation());
    let mut req = request("ada@example.com");
    req.last_name = "L".to_string();
    assert!(create_user(&mut store, NOW, req).unwrap_err().is_validation());
}

#[test]
fn duplicate_email_is_a_database_error() {
    let mut store = Ledger::new();
    create_user(&mut store, NOW, request("ada@example.com")).unwrap();
    let err = create_user(&mut store, LATER, request("ada@example.com")).unwrap_err();
    assert!(err.is_database_error());
    assert_eq!(
        err.message().as_str(),
        "User with email 'ada@example.com' already exists"
    );
    assert_eq!(store.users.len(), 1);
}

#[test]
fn update_coalesces_and_rehashes() {
    let mut store = Ledger::new();
    let u = create_user(&mut store, NOW, request("ada@example.com")).unwrap();
    let old_hash = u.password_hash.clone().unwrap();
    let patched = update_user(
        &mut store,
        u.id,
        LATER,
        UpdateUserRequest {
            email: None,
            password: None,
            first_name: Some("Augusta".to_string()),
            last_name: None,
        },
    )
    .unwrap();
    assert_eq!(patched.first_name, "Augusta");
    assert_eq!(patched.last_name, "Lovelace");
    assert_eq!(patched.email, "ada@example.com");
    assert_eq!(patched.password_hash.as_deref(), Some(old_hash.as_str()));
    assert_eq!(patched.updated_at, LATER);
    assert_eq!(patched.created_at, NOW);
    let rehashed = update_user(
        &mut store,
        u.id,
        LATER + 1,
        UpdateUserRequest {
            email: None,
            password: Some("a new passphrase".to_string()),
            first_name: None,
            last_name: None,
        },
    )
    .unwrap();
    assert_ne!(rehashed.password_hash.as_deref(), Some(old_hash.as_str()));
}

#[test]
fn empty_user_update_is_rejected() {
    let mut store = Ledger::new();
    let u = create_user(&mut store, NOW, request("ada@example.com")).unwrap();
    let before = store.users.clone();
    let err = update_user(
        &mut store,
        u.id,
        LATER,
        UpdateUserRequest { email: None, password: None, first_name: None, last_name: None },
    )
    .unwrap_err();
    assert!(err.is_validation());
    assert_eq!(err.message().as_str(), "No fields provided for update");
    assert_eq!(store.users, before);
}

#[test]
fn update_cannot_steal_an_email() {
    let mut store = Ledger::new();
    let _a = create_user(&mut store, NOW, request("ada@example.com")).unwrap();
    let b = create_user(&mut store, NOW, request("grace@example.com")).unwrap();
    let err = update_user(
        &mut store,
        b.id,
        LATER,
        UpdateUserRequest {
            email: Some("ada@example.com".to_string()),
            password: None,
            first_name: None,
            last_name: None,
        },
    )
    .unwrap_err();
    assert!(err.is_database_error());
    assert_eq!(store.users[1].email, "grace@example.com");
}

#[test]
fn lookups_and_deactivation() {
    let mut store = Ledger::new();
    let u = create_user(&mut store, NOW, request("ada@example.com")).unwrap();
    assert_eq!(get_user_by_id(&store, u.id).unwrap().email, "ada@example.com");
    assert_eq!(get_user_by_email(&store, "ada@example.com").unwrap().id, u.id);
    let err = get_user_by_email(&store, "nobody@example.com").unwrap_err();
    assert!(err.is_not_found());
    assert_eq!(
        err.message().as_str(),
        "User with email 'nobody@example.com' not found"
    );
    assert_eq!(list_users(&store).len(), 1);
    deactivate_user(&mut store, u.id, LATER).unwrap();
    assert!(!store.users[0].is_active);
    assert_eq!(store.users[0].updated_at, LATER);
    assert!(list_users(&store).is_empty());
    assert!(get_user_by_id(&store, u.id).unwrap_err().is_not_found());
    // Deactivating again, or a missing id, is NotFound.
    assert!(deactivate_user(&mut store, u.id, LATER).unwrap_err().is_not_found());
    assert!(deactivate_user(&mut store, 999, LATER).unwrap_err().is_not_found());
}

#[test]
fn response_shape_drops_the_hash() {
    let mut store = Ledger::new();
    let u = create_user(&mut store, NOW, request("ada@example.com")).unwrap();
    let email = u.email.clone();
    let resp = UserResponse::from(u);
    assert_eq!(resp.email, email);
    assert_eq!(resp.first_name, "Ada");
    assert!(resp.is_active);
}
