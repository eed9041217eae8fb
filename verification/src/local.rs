//! The local credential authenticator: checks a username and password
//! against a static account list, read fresh by the caller on every attempt,
//! and opens a session on success.
//!
//! Passwords are compared in plain text, an accepted weakness of this
//! demo-grade mode.  Accounts carry no native identifier, so a stable one is
//! derived by hashing the account into a deterministic name-based UUID: the
//! same account yields the same identifier across restarts.

use vstd::prelude::*;
use std::hash::{DefaultHasher, Hash, Hasher};
use crate::errors::AuthError;
use crate::session::{SessionStore, Token, User, UserView, clone_strings};

verus! {

/// One credential of an account: a type tag, such as "password", and a value.
#[derive(Hash)]
pub struct Credential {
    pub cred_type: String,
    pub value: String,
}

/// Mathematical value of a credential.
#[verifier::ext_equal]
pub ghost struct CredentialView {
    pub cred_type: Seq<char>,
    pub value: Seq<char>,
}

impl View for Credential {
    type V = CredentialView;

    open spec fn view(&self) -> CredentialView {
        CredentialView { cred_type: self.cred_type@, value: self.value@ }
    }
}

impl DeepView for Credential {
    type V = CredentialView;

    open spec fn deep_view(&self) -> CredentialView {
        self@
    }
}

/// One account of the static, read-only credential source.
#[derive(Hash)]
pub struct Account {
    pub username: String,
    pub realm_roles: Vec<String>,
    pub credentials: Vec<Credential>,
}

/// Mathematical value of an account.
#[verifier::ext_equal]
pub ghost struct AccountView {
    pub username: Seq<char>,
    pub realm_roles: Seq<Seq<char>>,
    pub credentials: Seq<CredentialView>,
}

impl View for Account {
    type V = AccountView;

    open spec fn view(&self) -> AccountView {
        AccountView {
            username: self.username@,
            realm_roles: self.realm_roles.deep_view(),
            credentials: self.credentials.deep_view(),
        }
    }
}

impl DeepView for Account {
    type V = AccountView;

    open spec fn deep_view(&self) -> AccountView {
        self@
    }
}

/// How long a locally opened session lives, in seconds.  Short by design:
/// this mode is meant to force frequent re-login.
pub const LOCAL_SESSION_TTL_SECS: u64 = 30;

/// The first account whose username matches exactly, if any.
pub open spec fn find_account(accounts: Seq<AccountView>, username: Seq<char>) -> Option<
    AccountView,
>
    decreases accounts.len(),
{
    if accounts.len() == 0 {
        None
    } else if accounts.first().username == username {
        Some(accounts.first())
    } else {
        find_account(accounts.drop_first(), username)
    }
}

/// Whether the account holds a credential of type "password" whose value
/// equals the supplied password exactly.
pub open spec fn has_password(a: AccountView, password: Seq<char>) -> bool {
    exists|i: int|
        0 <= i < a.credentials.len() && a.credentials[i].cred_type == "password"@
            && a.credentials[i].value == password
}

/// What a local login decides: the matched account, or nothing.  An unknown
/// username and a wrong password are indistinguishable here by design.
pub open spec fn local_login_outcome(
    accounts: Seq<AccountView>,
    username: Seq<char>,
    password: Seq<char>,
) -> Option<AccountView> {
    match find_account(accounts, username) {
        None => None,
        Some(a) => if has_password(a, password) {
            Some(a)
        } else {
            None
        },
    }
}

/// The digest std's `DefaultHasher` computes over an account's fields.
pub uninterp spec fn account_hash_of(a: AccountView) -> u64;

/// Relies on std's `DefaultHasher`, which is created with fixed keys: the
/// digest is a function of the hashed fields alone, the same in every
/// process of one build.
#[verifier::external_body]
fn hash_account(account: &Account) -> (h: u64)
    ensures
        h == account_hash_of(account@),
{
    let mut hasher = DefaultHasher::new();
    account.hash(&mut hasher);
    hasher.finish()
}

/// The 128-bit value of the version-3 UUID derived in the DNS namespace from
/// the big-endian bytes of `h`.
pub uninterp spec fn uuid_v3_dns_of(h: u64) -> u128;

/// Relies on uuid's `Uuid::new_v3`: a name-based UUID is an MD5 digest of
/// the namespace and the name bytes, a function of its arguments alone.
#[verifier::external_body]
fn uuid_v3_dns(h: u64) -> (r: u128)
    ensures
        r == uuid_v3_dns_of(h),
{
    uuid::Uuid::new_v3(&uuid::Uuid::NAMESPACE_DNS, &h.to_be_bytes()).as_u128()
}

/// The user a successful local login derives from an account at time `now`.
pub open spec fn derived_user(a: AccountView, now: u64) -> UserView {
    UserView {
        name: a.username,
        id: uuid_v3_dns_of(account_hash_of(a)),
        roles: a.realm_roles,
        expires_at: (now + LOCAL_SESSION_TTL_SECS) as u64,
    }
}

proof fn lemma_find_account_none(accounts: Seq<AccountView>, username: Seq<char>)
    requires
        forall|j: int| 0 <= j < accounts.len() ==> accounts[j].username != username,
    ensures
        find_account(accounts, username) is None,
    decreases accounts.len(),
{
    if accounts.len() > 0 {
        lemma_find_account_none(accounts.drop_first(), username);
    }
}

proof fn lemma_find_account_at(accounts: Seq<AccountView>, username: Seq<char>, i: int)
    requires
        0 <= i < accounts.len(),
        accounts[i].username == username,
        forall|j: int| 0 <= j < i ==> accounts[j].username != username,
    ensures
        find_account(accounts, username) == Some(accounts[i]),
    decreases i,
{
    if i > 0 {
        lemma_find_account_at(accounts.drop_first(), username, i - 1);
    }
}

/// Index of the first account with this username.
fn find_account_index(accounts: &Vec<Account>, username: &str) -> (r: Option<usize>)
    ensures
        match r {
            Some(i) => 0 <= i < accounts@.len() && accounts@[i as int]@.username == username@
                && find_account(accounts.deep_view(), username@) == Some(accounts@[i as int]@),
            None => find_account(accounts.deep_view(), username@) is None,
        },
{
    let wanted: String = username.to_owned();
    let mut i: usize = 0;
    while i < accounts.len()
        invariant
            i <= accounts@.len(),
            wanted@ == username@,
            forall|j: int| 0 <= j < i ==> accounts@[j]@.username != username@,
        decreases accounts@.len() - i,
    {
        if accounts[i].username == wanted {
            proof {
                lemma_find_account_at(accounts.deep_view(), username@, i as int);
            }
            return Some(i);
        }
        i += 1;
    }
    proof {
        lemma_find_account_none(accounts.deep_view(), username@);
    }
    None
}

/// Whether the account holds a matching plain-text password credential.
fn has_password_credential(account: &Account, password: &str) -> (r: bool)
    ensures
        r == has_password(account@, password@),
{
    let tag: String = "password".to_owned();
    let wanted: String = password.to_owned();
    let mut i: usize = 0;
    while i < account.credentials.len()
        invariant
            i <= account.credentials@.len(),
            tag@ == "password"@,
            wanted@ == password@,
            forall|j: int|
                0 <= j < i ==> !(account.credentials@[j]@.cred_type == "password"@
                    && account.credentials@[j]@.value == password@),
        decreases account.credentials@.len() - i,
    {
        if account.credentials[i].cred_type == tag && account.credentials[i].value == wanted {
            proof {
                assert(account@.credentials[i as int].cred_type == "password"@
                    && account@.credentials[i as int].value == password@);
            }
            return true;
        }
        i += 1;
    }
    false
}

/// The local credential authenticator and the session store it fills.
pub struct LocalAuthenticator {
    pub store: SessionStore,
}

impl LocalAuthenticator {
    /// A local authenticator with an empty session store.
    pub fn new() -> (a: LocalAuthenticator)
        ensures
            a.store.wf(),
            a.store.sessions() == Map::<Seq<char>, UserView>::empty(),
            a.store.count() == 0,
    {
        LocalAuthenticator { store: SessionStore::new() }
    }

    /// Check the supplied username and password against `accounts` — the
    /// credential source, read fresh by the caller — and open a session on
    /// success.  The matched account's user expires `LOCAL_SESSION_TTL_SECS`
    /// after `now`.  No account, or no matching password credential, fails
    /// with `InvalidCredentials` either way, and the store is untouched.
    pub fn login(
        &mut self,
        accounts: &Vec<Account>,
        username: &str,
        password: &str,
        now: u64,
    ) -> (r: Result<Token, AuthError>)
        requires
            old(self).store.wf(),
            now <= u64::MAX - LOCAL_SESSION_TTL_SECS,
        ensures
            final(self).store.wf(),
            match local_login_outcome(accounts.deep_view(), username@, password@) {
                None => r == Err::<Token, AuthError>(AuthError::InvalidCredentials)
                    && final(self).store.sessions() == old(self).store.sessions(),
                Some(a) => r is Ok && r.unwrap()@.len() == 44 && final(self).store.sessions()
                    == old(self).store.sessions().insert(r.unwrap()@, derived_user(a, now)),
            },
    {
        let idx = find_account_index(accounts, username);
        match idx {
            None => Err(AuthError::InvalidCredentials),
            Some(i) => {
                let account = &accounts[i];
                if has_password_credential(account, password) {
                    let id = uuid_v3_dns(hash_account(account));
                    let user = User {
                        name: account.username.clone(),
                        id,
                        roles: clone_strings(&account.realm_roles),
                        expires_at: now + LOCAL_SESSION_TTL_SECS,
                    };
                    proof {
                        assert(user@ =~= derived_user(accounts@[i as int]@, now));
                    }
                    let token = self.store.issue(user);
                    Ok(token)
                } else {
                    Err(AuthError::InvalidCredentials)
                }
            },
        }
    }
}

/// Local login with an unknown username and local login with a known
/// username but a wrong password decide the same outcome: no session, and
/// the one shared `InvalidCredentials` failure, so that the response gives
/// no signal by which accounts could be enumerated.
pub proof fn lemma_no_enumeration_signal(
    accounts: Seq<AccountView>,
    unknown_user: Seq<char>,
    any_password: Seq<char>,
    known_user: Seq<char>,
    wrong_password: Seq<char>,
)
    requires
        find_account(accounts, unknown_user) is None,
        match find_account(accounts, known_user) {
            Some(a) => !has_password(a, wrong_password),
            None => false,
        },
    ensures
        local_login_outcome(accounts, unknown_user, any_password) is None,
        local_login_outcome(accounts, known_user, wrong_password) is None,
        local_login_outcome(accounts, unknown_user, any_password) == local_login_outcome(
            accounts,
            known_user,
            wrong_password,
        ),
        AuthError::InvalidCredentials.message_spec() == "username or password incorrect"@,
{
}

} // verus!
