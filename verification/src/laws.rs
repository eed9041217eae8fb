//! Properties that relate the operations of the session store, stated over
//! its mathematical model and proved once here.

use vstd::prelude::*;
use crate::session::{UserView, validate_outcome};

verus! {

/// A session issued for user `u` under token `t` validates back to exactly
/// `u`, and leaves the store unchanged, at every time before `u`'s expiry.
pub proof fn lemma_validate_after_issue(
    m: Map<Seq<char>, UserView>,
    t: Seq<char>,
    u: UserView,
    now: u64,
)
    requires
        now < u.expires_at,
    ensures
        validate_outcome(m.insert(t, u), t, now).0 == Some(u),
        validate_outcome(m.insert(t, u), t, now).1 == m.insert(t, u),
{
}

/// Once `now` has reached a session's expiry, the next validation of its
/// token returns nothing and removes the entry, shrinking the store by
/// exactly one; every later validation of the same token keeps returning
/// nothing and changes nothing.
pub proof fn lemma_expired_validate_removes_once(
    m: Map<Seq<char>, UserView>,
    t: Seq<char>,
    now: u64,
    later: u64,
)
    requires
        m.dom().finite(),
        m.contains_key(t),
        now >= m[t].expires_at,
    ensures
        validate_outcome(m, t, now).0 is None,
        validate_outcome(m, t, now).1 == m.remove(t),
        m.remove(t).dom().len() == m.dom().len() - 1,
        validate_outcome(m.remove(t), t, later).0 is None,
        validate_outcome(m.remove(t), t, later).1 == m.remove(t),
{
    assert(m.remove(t).dom() =~= m.dom().remove(t));
    assert(m.remove(t).remove(t) =~= m.remove(t));
}

} // verus!
