//! The authenticator facade: exactly one of the two variants, chosen once at
//! startup and fixed for the process lifetime.
//!
//! Login goes through the configured variant — the closed enum makes an
//! exhaustive match at the call site, so relaying provider tokens to a
//! locally configured authenticator cannot happen silently — while token
//! validation always delegates to the session store, since tokens from
//! either mode share one store shape.

use vstd::prelude::*;
use crate::errors::AuthError;
use crate::local::LocalAuthenticator;
use crate::oidc::OidcAuthenticator;
use crate::session::{SessionStore, Token, User, UserView, validate_outcome};

verus! {

/// The configured authentication variant.
pub enum Authenticator {
    /// Local username/password checking against a static account list.
    Local(LocalAuthenticator),
    /// Delegated validation of provider-signed tokens.
    Oidc(OidcAuthenticator),
}

impl Authenticator {
    /// The session store of whichever variant is configured.
    pub open spec fn store(self) -> SessionStore {
        match self {
            Authenticator::Local(a) => a.store,
            Authenticator::Oidc(a) => a.store,
        }
    }

    /// Select the variant for a configured mode string.  Any other mode is
    /// a fatal configuration error: no half-configured process may start.
    pub fn new(mode: &str) -> (r: Result<Authenticator, AuthError>)
        ensures
            mode@ == "keycloak"@ ==> r is Ok && r.unwrap() is Oidc,
            mode@ == "in-memory"@ ==> r is Ok && r.unwrap() is Local,
            !(mode@ == "keycloak"@ || mode@ == "in-memory"@) ==> r == Err::<
                Authenticator,
                AuthError,
            >(AuthError::ConfigurationError),
            r is Ok ==> r.unwrap().store().wf() && r.unwrap().store().sessions() == Map::<
                Seq<char>,
                UserView,
            >::empty(),
    {
        proof {
            // the two mode literals differ, so at most one branch can match
            reveal_strlit("keycloak");
            reveal_strlit("in-memory");
            assert("keycloak"@.len() == 8);
            assert("in-memory"@.len() == 9);
        }
        let m: String = mode.to_owned();
        let keycloak: String = "keycloak".to_owned();
        let in_memory: String = "in-memory".to_owned();
        if m == keycloak {
            Ok(Authenticator::Oidc(OidcAuthenticator::new()))
        } else if m == in_memory {
            Ok(Authenticator::Local(LocalAuthenticator::new()))
        } else {
            Err(AuthError::ConfigurationError)
        }
    }

    /// Borrow the session store, whichever variant owns it.
    fn store_mut(&mut self) -> (s: &mut SessionStore)
        ensures
            *s == old(self).store(),
            final(self).store() == *final(s),
            (*final(self)) is Local <==> (*old(self)) is Local,
    {
        match self {
            Authenticator::Local(a) => &mut a.store,
            Authenticator::Oidc(a) => &mut a.store,
        }
    }

    /// Validate a session token at time `now`, regardless of which variant
    /// issued it.  The outcome is the session store's: a live session's
    /// user, nothing for an expired or unknown token, expired entries
    /// purged.
    pub fn get_user(&mut self, token: &Token, now: u64) -> (r: Option<User>)
        requires
            old(self).store().wf(),
        ensures
            final(self).store().wf(),
            (*final(self)) is Local <==> (*old(self)) is Local,
            r.deep_view() == validate_outcome(old(self).store().sessions(), token@, now).0,
            final(self).store().sessions() == validate_outcome(
                old(self).store().sessions(),
                token@,
                now,
            ).1,
    {
        let store = self.store_mut();
        store.get_user(token, now)
    }
}

} // verus!
