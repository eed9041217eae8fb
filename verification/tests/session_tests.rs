use subway_core::session::{SessionStore, Token, User};

fn sample_user(expires_at: u64) -> User {
    User {
        name: "bob".to_string(),
        id: 42,
        roles: vec!["user".to_string()],
        expires_at,
    }
}

#[test]
fn issued_token_validates_to_same_user_before_expiry() {
    let mut store = SessionStore::new();
    let token = store.issue(sample_user(100));
    let got = store.get_user(&token, 99).expect("session should be live");
    assert_eq!(got.name, "bob");
    assert_eq!(got.id, 42);
    assert_eq!(got.roles, vec!["user".to_string()]);
    assert_eq!(got.expires_at, 100);
    assert_eq!(store.len(), 1);
}

#[test]
fn expired_validate_removes_entry_exactly_once() {
    let mut store = SessionStore::new();
    let token = store.issue(sample_user(100));
    let other = store.issue(sample_user(200));
    assert_eq!(store.len(), 2);
    assert!(store.get_user(&token, 100).is_none());
    assert_eq!(store.len(), 1);
    assert!(store.get_user(&token, 100).is_none());
    assert!(store.get_user(&token, 150).is_none());
    assert_eq!(store.len(), 1);
    assert!(store.get_user(&other, 150).is_some());
    assert_eq!(store.len(), 1);
}

#[test]
fn unknown_token_rejected_without_change() {
    let mut store = SessionStore::new();
    let _token = store.issue(sample_user(100));
    let unknown = Token::new("no-such-token".to_string());
    assert!(store.get_user(&unknown, 1).is_none());
    assert_eq!(store.len(), 1);
}

#[test]
fn two_issues_yield_distinct_tokens() {
    let mut store = SessionStore::new();
    let first = store.issue(sample_user(100));
    let second = store.issue(sample_user(100));
    assert_ne!(first.as_str(), second.as_str());
    assert_eq!(store.len(), 2);
}

#[test]
fn tokens_are_forty_four_base64_characters() {
    let mut store = SessionStore::new();
    let token = store.issue(sample_user(100));
    assert_eq!(token.as_str().len(), 44);
    assert!(token
        .as_str()
        .chars()
        .all(|c| c.is_ascii_alphanumeric() || c == '+' || c == '/' || c == '='));
}
