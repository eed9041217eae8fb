use subway_core::access::{AccessDecision, Auth};
use subway_core::errors::AuthError;
use subway_core::facade::Authenticator;
use subway_core::local::{Account, Credential, LocalAuthenticator};
use subway_core::session::Token;

fn bob_account() -> Account {
    Account {
        username: "bob".to_string(),
        realm_roles: vec!["user".to_string()],
        credentials: vec![Credential {
            cred_type: "password".to_string(),
            value: "bob".to_string(),
        }],
    }
}

fn logged_in_bob(now: u64) -> (Authenticator, Token) {
    let mut facade = Authenticator::new("in-memory").expect("mode is supported");
    let token = match &mut facade {
        Authenticator::Local(local) => local
            .login(&vec![bob_account()], "bob", "bob", now)
            .expect("login should succeed"),
        Authenticator::Oidc(_) => panic!("in-memory mode must select the local variant"),
    };
    (facade, token)
}

fn guard(roles: &[&str]) -> Auth {
    Auth::new(roles.iter().map(|r| r.to_string()).collect())
}

#[test]
fn user_is_forbidden_on_admin_only_route() {
    let now: u64 = 1_000;
    let (mut facade, token) = logged_in_bob(now);
    let decision = guard(&["admin"]).check(&mut facade, Some(&token), now + 1);
    assert!(matches!(decision, AccessDecision::Forbidden));
}

#[test]
fn user_is_granted_where_user_role_is_allowed() {
    let now: u64 = 1_000;
    let (mut facade, token) = logged_in_bob(now);
    let decision = guard(&["user", "admin"]).check(&mut facade, Some(&token), now + 1);
    match decision {
        AccessDecision::Granted { name, id: _ } => assert_eq!(name, "bob"),
        _ => panic!("expected access to be granted"),
    }
}

#[test]
fn missing_token_is_unauthenticated() {
    let now: u64 = 1_000;
    let (mut facade, _token) = logged_in_bob(now);
    let decision = guard(&["user"]).check(&mut facade, None, now + 1);
    assert!(matches!(decision, AccessDecision::Unauthenticated));
}

#[test]
fn unknown_token_is_unauthenticated() {
    let now: u64 = 1_000;
    let (mut facade, _token) = logged_in_bob(now);
    let stranger = Token::new("made-up".to_string());
    let decision = guard(&["user"]).check(&mut facade, Some(&stranger), now + 1);
    assert!(matches!(decision, AccessDecision::Unauthenticated));
}

#[test]
fn expired_session_is_unauthenticated_and_purged() {
    let now: u64 = 1_000;
    let (mut facade, token) = logged_in_bob(now);
    let decision = guard(&["user"]).check(&mut facade, Some(&token), now + 31);
    assert!(matches!(decision, AccessDecision::Unauthenticated));
    let remaining = match &facade {
        Authenticator::Local(local) => local.store.len(),
        Authenticator::Oidc(oidc) => oidc.store.len(),
    };
    assert_eq!(remaining, 0);
}

#[test]
fn facade_validates_tokens_regardless_of_variant() {
    let now: u64 = 1_000;
    let (mut facade, token) = logged_in_bob(now);
    let user = facade.get_user(&token, now + 1).expect("session is live");
    assert_eq!(user.name, "bob");
}

#[test]
fn facade_mode_selection() {
    assert!(matches!(
        Authenticator::new("keycloak"),
        Ok(Authenticator::Oidc(_))
    ));
    assert!(matches!(
        Authenticator::new("in-memory"),
        Ok(Authenticator::Local(_))
    ));
    assert_eq!(
        Authenticator::new("ldap").map(|_| ()).unwrap_err(),
        AuthError::ConfigurationError
    );
}

#[test]
fn local_authenticator_panics_nowhere_on_empty_store() {
    let mut auth = LocalAuthenticator::new();
    assert_eq!(auth.store.len(), 0);
    let stranger = Token::new("anything".to_string());
    assert!(auth.store.get_user(&stranger, 5).is_none());
}
