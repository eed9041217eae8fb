//! The access-control middleware decision: stateless per request, it gates a
//! request by the session token it bears and the route's statically declared
//! set of allowed roles.  The only state that crosses requests lives in the
//! session store.

use vstd::prelude::*;
use crate::facade::Authenticator;
use crate::session::{Token, UserView, validate_outcome};

verus! {

/// Whether any of a user's roles is among the allowed roles.
pub open spec fn roles_intersect(user_roles: Seq<Seq<char>>, allowed: Seq<Seq<char>>) -> bool {
    exists|i: int, j: int|
        0 <= i < user_roles.len() && 0 <= j < allowed.len() && user_roles[i] == allowed[j]
}

/// The three outcomes of gating one request.
pub enum AccessDecision {
    /// Proceed; the user's name and identifier become request-scoped
    /// context for downstream handlers.  The stored user is never mutated.
    Granted { name: String, id: u128 },
    /// The token was absent, unknown, or expired; the caller cannot tell
    /// which.
    Unauthenticated,
    /// A live session whose roles include none of the allowed ones.
    Forbidden,
}

/// Whether a decision grants access as user `u`: it is `Granted` and
/// exposes exactly that user's name and identifier.
pub open spec fn granted_for(d: AccessDecision, u: UserView) -> bool {
    match d {
        AccessDecision::Granted { name, id } => name@ == u.name && id == u.id,
        _ => false,
    }
}

/// A route's guard: the roles allowed through to its handler.
pub struct Auth {
    pub roles: Vec<String>,
}

impl Auth {
    /// Guard a route with this set of allowed roles.
    pub fn new(roles: Vec<String>) -> (a: Auth)
        ensures
            a.roles.deep_view() == roles.deep_view(),
    {
        Auth { roles }
    }

    /// Decide one request at time `now`.  No token is `Unauthenticated`; a
    /// token the store does not validate is `Unauthenticated` too, an
    /// expired entry being purged on the way; a validated user with no
    /// allowed role is `Forbidden`; otherwise access is granted as that
    /// user.
    pub fn check(&self, auth: &mut Authenticator, token: Option<&Token>, now: u64) -> (d:
        AccessDecision)
        requires
            old(auth).store().wf(),
        ensures
            final(auth).store().wf(),
            match token {
                None => d is Unauthenticated && *final(auth) == *old(auth),
                Some(t) => {
                    final(auth).store().sessions() == validate_outcome(
                        old(auth).store().sessions(),
                        t@,
                        now,
                    ).1 && match validate_outcome(old(auth).store().sessions(), t@, now).0 {
                        None => d is Unauthenticated,
                        Some(u) => if roles_intersect(u.roles, self.roles.deep_view()) {
                            granted_for(d, u)
                        } else {
                            d is Forbidden
                        },
                    }
                },
            },
    {
        match token {
            None => AccessDecision::Unauthenticated,
            Some(t) => match auth.get_user(t, now) {
                None => AccessDecision::Unauthenticated,
                Some(user) => {
                    if any_role_allowed(&user.roles, &self.roles) {
                        AccessDecision::Granted { name: user.name, id: user.id }
                    } else {
                        AccessDecision::Forbidden
                    }
                },
            },
        }
    }
}

/// Whether any of the user's roles equals any allowed role.
pub fn any_role_allowed(user_roles: &Vec<String>, allowed: &Vec<String>) -> (r: bool)
    ensures
        r == roles_intersect(user_roles.deep_view(), allowed.deep_view()),
{
    let mut i: usize = 0;
    while i < user_roles.len()
        invariant
            i <= user_roles@.len(),
            forall|p: int, q: int|
                0 <= p < i && 0 <= q < allowed@.len() ==> user_roles@[p]@ != allowed@[q]@,
        decreases user_roles@.len() - i,
    {
        let mut j: usize = 0;
        while j < allowed.len()
            invariant
                i < user_roles@.len(),
                j <= allowed@.len(),
                forall|q: int| 0 <= q < j ==> user_roles@[i as int]@ != allowed@[q]@,
                forall|p: int, q: int|
                    0 <= p < i && 0 <= q < allowed@.len() ==> user_roles@[p]@ != allowed@[q]@,
            decreases allowed@.len() - j,
        {
            if user_roles[i] == allowed[j] {
                proof {
                    assert(user_roles.deep_view()[i as int] == allowed.deep_view()[j as int]);
                }
                return true;
            }
            j += 1;
        }
        i += 1;
    }
    proof {
        assert forall|p: int, q: int|
            0 <= p < user_roles.deep_view().len() && 0 <= q
                < allowed.deep_view().len() implies user_roles.deep_view()[p]
            != allowed.deep_view()[q] by {
            assert(user_roles@[p]@ != allowed@[q]@);
        }
    }
    false
}

} // verus!
