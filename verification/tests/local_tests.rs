use std::hash::{DefaultHasher, Hash, Hasher};

use subway_core::errors::AuthError;
use subway_core::local::{Account, Credential, LocalAuthenticator, LOCAL_SESSION_TTL_SECS};

fn password_credential(value: &str) -> Credential {
    Credential {
        cred_type: "password".to_string(),
        value: value.to_string(),
    }
}

fn bob() -> Account {
    Account {
        username: "bob".to_string(),
        realm_roles: vec!["user".to_string()],
        credentials: vec![password_credential("bob")],
    }
}

fn alice() -> Account {
    Account {
        username: "alice".to_string(),
        realm_roles: vec!["user".to_string(), "admin".to_string()],
        credentials: vec![password_credential("alice")],
    }
}

fn accounts() -> Vec<Account> {
    vec![bob(), alice()]
}

#[test]
fn scenario_bob_logs_in_and_session_expires_after_ttl() {
    let t: u64 = 1_000_000;
    let mut auth = LocalAuthenticator::new();
    let token = auth
        .login(&accounts(), "bob", "bob", t)
        .expect("login should succeed");
    assert_eq!(auth.store.len(), 1);

    let user = auth
        .store
        .get_user(&token, t + 1)
        .expect("session should be live one second in");
    assert_eq!(user.name, "bob");
    assert_eq!(user.roles, vec!["user".to_string()]);
    assert_eq!(user.expires_at, t + LOCAL_SESSION_TTL_SECS);

    assert!(auth.store.get_user(&token, t + 31).is_none());
    assert_eq!(auth.store.len(), 0);
    assert!(auth.store.get_user(&token, t + 32).is_none());
}

#[test]
fn wrong_password_and_unknown_user_are_indistinguishable() {
    let mut auth = LocalAuthenticator::new();
    let wrong_password = auth
        .login(&accounts(), "bob", "not-bobs-password", 0)
        .unwrap_err();
    let unknown_user = auth.login(&accounts(), "nobody", "bob", 0).unwrap_err();
    assert_eq!(wrong_password, AuthError::InvalidCredentials);
    assert_eq!(unknown_user, AuthError::InvalidCredentials);
    assert_eq!(wrong_password, unknown_user);
    assert_eq!(wrong_password.message(), unknown_user.message());
    assert_eq!(wrong_password.message(), "username or password incorrect");
    assert_eq!(auth.store.len(), 0);
}

#[test]
fn same_account_yields_same_identifier_across_logins() {
    let mut auth = LocalAuthenticator::new();
    let first = auth.login(&accounts(), "bob", "bob", 100).unwrap();
    let second = auth.login(&accounts(), "bob", "bob", 200).unwrap();
    let u1 = auth.store.get_user(&first, 101).unwrap();
    let u2 = auth.store.get_user(&second, 201).unwrap();
    assert_eq!(u1.id, u2.id);

    let third = auth.login(&accounts(), "alice", "alice", 100).unwrap();
    let u3 = auth.store.get_user(&third, 101).unwrap();
    assert_ne!(u1.id, u3.id);
}

#[test]
fn derived_identifier_is_the_namespace_uuid_of_the_account_hash() {
    let mut auth = LocalAuthenticator::new();
    let token = auth.login(&accounts(), "bob", "bob", 100).unwrap();
    let user = auth.store.get_user(&token, 101).unwrap();

    let mut hasher = DefaultHasher::new();
    bob().hash(&mut hasher);
    let expected =
        uuid::Uuid::new_v3(&uuid::Uuid::NAMESPACE_DNS, &hasher.finish().to_be_bytes()).as_u128();
    assert_eq!(user.id, expected);
}

#[test]
fn first_matching_account_wins() {
    let twin_one = Account {
        username: "dup".to_string(),
        realm_roles: vec!["first".to_string()],
        credentials: vec![password_credential("pw")],
    };
    let twin_two = Account {
        username: "dup".to_string(),
        realm_roles: vec!["second".to_string()],
        credentials: vec![password_credential("pw")],
    };
    let mut auth = LocalAuthenticator::new();
    let token = auth
        .login(&vec![twin_one, twin_two], "dup", "pw", 0)
        .unwrap();
    let user = auth.store.get_user(&token, 1).unwrap();
    assert_eq!(user.roles, vec!["first".to_string()]);
}

#[test]
fn credential_must_be_of_password_type() {
    let account = Account {
        username: "carol".to_string(),
        realm_roles: vec!["user".to_string()],
        credentials: vec![Credential {
            cred_type: "otp".to_string(),
            value: "carol".to_string(),
        }],
    };
    let mut auth = LocalAuthenticator::new();
    let err = auth
        .login(&vec![account], "carol", "carol", 0)
        .unwrap_err();
    assert_eq!(err, AuthError::InvalidCredentials);
}

#[test]
fn username_match_is_case_sensitive() {
    let mut auth = LocalAuthenticator::new();
    let err = auth.login(&accounts(), "Bob", "bob", 0).unwrap_err();
    assert_eq!(err, AuthError::InvalidCredentials);
}
