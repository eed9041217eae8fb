//! The delegated authenticator: validates provider-signed JWTs against the
//! provider's published signing keys, derives the user from the validated
//! claims, and opens a session.
//!
//! Only RS256 tokens are accepted.  The key set is fetched afresh by the
//! caller for every validation — no caching — and handed in as plain
//! values; the network never appears here.  A token pair yields a session
//! only if both tokens validate; the derived user expires at the earlier of
//! the two token expiries.

use vstd::prelude::*;
use jsonwebtoken::{decode, decode_header, Algorithm, DecodingKey, Validation};
use serde_json::Value;
use crate::errors::AuthError;
use crate::session::{SessionStore, Token, User, UserView, clone_strings};

verus! {

/// One JSON Web Key: RSA public-key components, base64url-encoded as the
/// JWK specification has them, indexed by key identifier.
pub struct Jwk {
    pub kid: String,
    pub n: String,
    pub e: String,
}

/// Mathematical value of a JSON Web Key.
#[verifier::ext_equal]
pub ghost struct JwkView {
    pub kid: Seq<char>,
    pub n: Seq<char>,
    pub e: Seq<char>,
}

impl View for Jwk {
    type V = JwkView;

    open spec fn view(&self) -> JwkView {
        JwkView { kid: self.kid@, n: self.n@, e: self.e@ }
    }
}

impl DeepView for Jwk {
    type V = JwkView;

    open spec fn deep_view(&self) -> JwkView {
        self@
    }
}

/// What the validator checks tokens against: the realm's issuer URL, the
/// client identifier expected as the identity token's audience, and the
/// client secret used for the password-grant exchange.
pub struct OidcConfig {
    pub issuer: String,
    pub client_id: String,
    pub client_secret: String,
}

/// Claims this core reads from a validated access token: the expiry, the
/// user's mutable username, and the realm role list.
#[derive(Debug)]
pub struct AccessClaims {
    pub exp: u64,
    pub preferred_username: String,
    pub roles: Vec<String>,
}

/// Mathematical value of the access-token claims.
#[verifier::ext_equal]
pub ghost struct AccessClaimsView {
    pub exp: u64,
    pub preferred_username: Seq<char>,
    pub roles: Seq<Seq<char>>,
}

impl View for AccessClaims {
    type V = AccessClaimsView;

    open spec fn view(&self) -> AccessClaimsView {
        AccessClaimsView {
            exp: self.exp,
            preferred_username: self.preferred_username@,
            roles: self.roles.deep_view(),
        }
    }
}

/// Claims this core reads from a validated identity token: the expiry and
/// the stable subject identifier.
#[derive(Debug)]
pub struct IdClaims {
    pub exp: u64,
    pub sub: String,
}

/// Mathematical value of the identity-token claims.
#[verifier::ext_equal]
pub ghost struct IdClaimsView {
    pub exp: u64,
    pub sub: Seq<char>,
}

impl View for IdClaims {
    type V = IdClaimsView;

    open spec fn view(&self) -> IdClaimsView {
        IdClaimsView { exp: self.exp, sub: self.sub@ }
    }
}

/// The signing-key identifier in a compact JWT's header: present when the
/// text splits into three dot-separated parts, the first part decodes as a
/// JSON header, and that header carries a `kid` member.
pub uninterp spec fn jwt_kid_of(jwt: Seq<char>) -> Option<Seq<char>>;

/// Relies on jsonwebtoken's `decode_header`, a parse of the token text
/// alone; no signature is checked.
#[verifier::external_body]
fn jwt_header_kid(jwt: &str) -> (r: Option<String>)
    ensures
        r is Some <==> jwt_kid_of(jwt@) is Some,
        r is Some ==> r.unwrap()@ == jwt_kid_of(jwt@).unwrap(),
{
    match decode_header(jwt) {
        Ok(header) => header.kid,
        Err(_) => None,
    }
}

/// Whether the compact token's header parses and declares RS256.  The
/// decode below accepts no other algorithm, so its claims exist only where
/// this holds.
pub uninterp spec fn jwt_alg_rs256(jwt: Seq<char>) -> bool;

/// The access-token claims an RS256 decode yields under one RSA key: the
/// payload's expiry, preferred username, and realm roles, present exactly
/// when the header declares RS256, the signature verifies under the key
/// built from (modulus, exponent), the issuer claim equals `issuer`, and
/// those claims are in the payload.  Expiry is not consulted, so this is a
/// function of the four texts alone.
pub uninterp spec fn rs256_access_claims(
    jwt: Seq<char>,
    modulus: Seq<char>,
    exponent: Seq<char>,
    issuer: Seq<char>,
) -> Option<AccessClaimsView>;

/// Relies on jsonwebtoken's `DecodingKey::from_rsa_components` and
/// `decode`, and on serde_json to read the decoded payload: builds the RSA
/// public key, accepts RS256 alone, verifies the signature and the issuer
/// claim, and extracts the claims.  Expiry checking is disabled here — the
/// verified caller compares the expiry with its own clock reading — so the
/// outcome never reads the clock and is named `rs256_access_claims`.
#[verifier::external_body]
fn decode_access_rs256(jwt: &str, modulus: &str, exponent: &str, issuer: &str) -> (r: Option<
    AccessClaims,
>)
    ensures
        r is Some <==> rs256_access_claims(jwt@, modulus@, exponent@, issuer@) is Some,
        r is Some ==> r.unwrap()@ == rs256_access_claims(jwt@, modulus@, exponent@, issuer@).unwrap(),
        r is Some ==> jwt_alg_rs256(jwt@),
{
    let key = DecodingKey::from_rsa_components(modulus, exponent).ok()?;
    let mut validation = Validation::new(Algorithm::RS256);
    validation.set_issuer(&[issuer]);
    validation.validate_exp = false;
    let v = decode::<Value>(jwt, &key, &validation).ok()?.claims;
    Some(AccessClaims {
        exp: v.get("exp")?.as_u64()?,
        preferred_username: v.get("preferred_username")?.as_str()?.to_owned(),
        roles: serde_json::from_value(v.get("realm_access")?.get("roles")?.clone()).ok()?,
    })
}

/// The identity-token claims an RS256 decode yields under one RSA key: the
/// payload's expiry and subject, present exactly when the header declares
/// RS256, the signature verifies under the key built from (modulus,
/// exponent), the issuer claim equals `issuer`, the audience claim matches
/// `audience`, and those claims are in the payload.  A function of the five
/// texts alone.
pub uninterp spec fn rs256_id_claims(
    jwt: Seq<char>,
    modulus: Seq<char>,
    exponent: Seq<char>,
    issuer: Seq<char>,
    audience: Seq<char>,
) -> Option<IdClaimsView>;

/// Relies on the same jsonwebtoken and serde_json calls as the access-token
/// decode, with the audience check added; the outcome never reads the clock
/// and is named `rs256_id_claims`.
#[verifier::external_body]
fn decode_id_rs256(jwt: &str, modulus: &str, exponent: &str, issuer: &str, audience: &str) -> (r:
    Option<IdClaims>)
    ensures
        r is Some <==> rs256_id_claims(jwt@, modulus@, exponent@, issuer@, audience@) is Some,
        r is Some ==> r.unwrap()@ == rs256_id_claims(
            jwt@,
            modulus@,
            exponent@,
            issuer@,
            audience@,
        ).unwrap(),
        r is Some ==> jwt_alg_rs256(jwt@),
{
    let key = DecodingKey::from_rsa_components(modulus, exponent).ok()?;
    let mut validation = Validation::new(Algorithm::RS256);
    validation.set_issuer(&[issuer]);
    validation.set_audience(&[audience]);
    validation.validate_exp = false;
    let v = decode::<Value>(jwt, &key, &validation).ok()?.claims;
    Some(IdClaims { exp: v.get("exp")?.as_u64()?, sub: v.get("sub")?.as_str()?.to_owned() })
}

/// The 128-bit value of the UUID the uuid crate parses from this text, if
/// the text is a well-formed UUID in one of its accepted formats.
pub uninterp spec fn uuid_parse_of(s: Seq<char>) -> Option<u128>;

/// Relies on uuid's `Uuid::parse_str`, a parse of the text alone.
#[verifier::external_body]
fn parse_uuid(s: &str) -> (r: Option<u128>)
    ensures
        r == uuid_parse_of(s@),
{
    match uuid::Uuid::parse_str(s) {
        Ok(u) => Some(u.as_u128()),
        Err(_) => None,
    }
}

/// The first key of the set whose identifier matches, if any.
pub open spec fn find_jwk(jwks: Seq<JwkView>, kid: Seq<char>) -> Option<JwkView>
    decreases jwks.len(),
{
    if jwks.len() == 0 {
        None
    } else if jwks.first().kid == kid {
        Some(jwks.first())
    } else {
        find_jwk(jwks.drop_first(), kid)
    }
}

proof fn lemma_find_jwk_none(jwks: Seq<JwkView>, kid: Seq<char>)
    requires
        forall|j: int| 0 <= j < jwks.len() ==> jwks[j].kid != kid,
    ensures
        find_jwk(jwks, kid) is None,
    decreases jwks.len(),
{
    if jwks.len() > 0 {
        lemma_find_jwk_none(jwks.drop_first(), kid);
    }
}

proof fn lemma_find_jwk_at(jwks: Seq<JwkView>, kid: Seq<char>, i: int)
    requires
        0 <= i < jwks.len(),
        jwks[i].kid == kid,
        forall|j: int| 0 <= j < i ==> jwks[j].kid != kid,
    ensures
        find_jwk(jwks, kid) == Some(jwks[i]),
    decreases i,
{
    if i > 0 {
        lemma_find_jwk_at(jwks.drop_first(), kid, i - 1);
    }
}

/// Obtain the token's `kid` and select the matching key from the fetched
/// set.  A token without a readable header or key identifier is invalid; a
/// key identifier absent from the set is a hard `UnknownSigningKey` failure.
fn lookup_signing_key<'a>(jwt: &str, jwks: &'a Vec<Jwk>) -> (r: Result<&'a Jwk, AuthError>)
    ensures
        match r {
            Ok(k) => jwt_kid_of(jwt@) is Some && find_jwk(jwks.deep_view(), jwt_kid_of(jwt@).unwrap())
                == Some(k@),
            Err(e) => (e == AuthError::InvalidTokens && jwt_kid_of(jwt@) is None) || (e
                == AuthError::UnknownSigningKey && jwt_kid_of(jwt@) is Some && find_jwk(
                jwks.deep_view(),
                jwt_kid_of(jwt@).unwrap(),
            ) is None),
        },
{
    let kid = match jwt_header_kid(jwt) {
        Some(k) => k,
        None => {
            return Err(AuthError::InvalidTokens);
        },
    };
    let mut i: usize = 0;
    while i < jwks.len()
        invariant
            i <= jwks@.len(),
            kid@ == jwt_kid_of(jwt@).unwrap(),
            jwt_kid_of(jwt@) is Some,
            forall|j: int| 0 <= j < i ==> jwks@[j]@.kid != kid@,
        decreases jwks@.len() - i,
    {
        if jwks[i].kid == kid {
            proof {
                lemma_find_jwk_at(jwks.deep_view(), kid@, i as int);
            }
            return Ok(&jwks[i]);
        }
        i += 1;
    }
    proof {
        lemma_find_jwk_none(jwks.deep_view(), kid@);
    }
    Err(AuthError::UnknownSigningKey)
}

/// What validating one relayed access token against a fetched key set
/// decides: a token without a readable key identifier is invalid; an
/// identifier absent from the set is the hard `UnknownSigningKey`;
/// otherwise the RS256 decode under the selected key either yields the
/// claims or fails as `InvalidTokens`.
pub open spec fn spec_validate_access(jwt: Seq<char>, jwks: Seq<JwkView>, issuer: Seq<char>) -> Result<
    AccessClaimsView,
    AuthError,
> {
    match jwt_kid_of(jwt) {
        None => Err(AuthError::InvalidTokens),
        Some(kid) => match find_jwk(jwks, kid) {
            None => Err(AuthError::UnknownSigningKey),
            Some(k) => match rs256_access_claims(jwt, k.n, k.e, issuer) {
                None => Err(AuthError::InvalidTokens),
                Some(c) => Ok(c),
            },
        },
    }
}

/// As for the access token, with the audience checked against the
/// configured client identifier.
pub open spec fn spec_validate_id(
    jwt: Seq<char>,
    jwks: Seq<JwkView>,
    issuer: Seq<char>,
    audience: Seq<char>,
) -> Result<IdClaimsView, AuthError> {
    match jwt_kid_of(jwt) {
        None => Err(AuthError::InvalidTokens),
        Some(kid) => match find_jwk(jwks, kid) {
            None => Err(AuthError::UnknownSigningKey),
            Some(k) => match rs256_id_claims(jwt, k.n, k.e, issuer, audience) {
                None => Err(AuthError::InvalidTokens),
                Some(c) => Ok(c),
            },
        },
    }
}

/// Validate one relayed access token against the fetched key set: select
/// the key by the token's `kid`, verify the signature and issuer under
/// RS256, and read the claims.  The result is exactly what
/// `spec_validate_access` decides for these texts.
pub fn validate_access_token(jwt: &str, jwks: &Vec<Jwk>, cfg: &OidcConfig) -> (r: Result<
    AccessClaims,
    AuthError,
>)
    ensures
        ({
            let v = spec_validate_access(jwt@, jwks.deep_view(), cfg.issuer@);
            match r {
                Ok(c) => v is Ok && c@ == v->Ok_0,
                Err(e) => v is Err && e == v->Err_0,
            }
        }),
        r is Ok ==> jwt_alg_rs256(jwt@),
{
    match lookup_signing_key(jwt, jwks) {
        Err(e) => Err(e),
        Ok(jwk) => {
            match decode_access_rs256(jwt, jwk.n.as_str(), jwk.e.as_str(), cfg.issuer.as_str()) {
                None => Err(AuthError::InvalidTokens),
                Some(c) => Ok(c),
            }
        },
    }
}

/// Validate one relayed identity token: as for the access token, and the
/// audience must also match the configured client identifier.  The result
/// is exactly what `spec_validate_id` decides for these texts.
pub fn validate_id_token(jwt: &str, jwks: &Vec<Jwk>, cfg: &OidcConfig) -> (r: Result<
    IdClaims,
    AuthError,
>)
    ensures
        ({
            let v = spec_validate_id(jwt@, jwks.deep_view(), cfg.issuer@, cfg.client_id@);
            match r {
                Ok(c) => v is Ok && c@ == v->Ok_0,
                Err(e) => v is Err && e == v->Err_0,
            }
        }),
        r is Ok ==> jwt_alg_rs256(jwt@),
{
    match lookup_signing_key(jwt, jwks) {
        Err(e) => Err(e),
        Ok(jwk) => {
            match decode_id_rs256(
                jwt,
                jwk.n.as_str(),
                jwk.e.as_str(),
                cfg.issuer.as_str(),
                cfg.client_id.as_str(),
            ) {
                None => Err(AuthError::InvalidTokens),
                Some(c) => Ok(c),
            }
        },
    }
}

/// Whether a validated claim pair is acceptable at time `now`: both
/// expiries strictly in the future, and a subject that parses as a UUID.
pub open spec fn claims_acceptable(a: AccessClaimsView, i: IdClaimsView, now: u64) -> bool {
    now < a.exp && now < i.exp && uuid_parse_of(i.sub) is Some
}

/// The user a validated claim pair derives: name and roles from the access
/// token, identifier from the identity token's subject, expiry the earlier
/// of the two token expiries.
pub open spec fn claims_user(a: AccessClaimsView, i: IdClaimsView) -> UserView {
    UserView {
        name: a.preferred_username,
        id: uuid_parse_of(i.sub).unwrap(),
        roles: a.roles,
        expires_at: if a.exp <= i.exp {
            a.exp
        } else {
            i.exp
        },
    }
}

/// What a relayed token pair decides, given both fetched key sets and the
/// time: the first failing validation's error, `InvalidTokens` for a pair
/// that validates but is expired or carries a malformed subject, or the
/// derived user.
pub open spec fn spec_login_with_tokens(
    access_jwt: Seq<char>,
    id_jwt: Seq<char>,
    access_jwks: Seq<JwkView>,
    id_jwks: Seq<JwkView>,
    issuer: Seq<char>,
    audience: Seq<char>,
    now: u64,
) -> Result<UserView, AuthError> {
    match spec_validate_access(access_jwt, access_jwks, issuer) {
        Err(e) => Err(e),
        Ok(a) => match spec_validate_id(id_jwt, id_jwks, issuer, audience) {
            Err(e) => Err(e),
            Ok(i) => if claims_acceptable(a, i, now) {
                Ok(claims_user(a, i))
            } else {
                Err(AuthError::InvalidTokens)
            },
        },
    }
}

/// Derive the user from a validated claim pair at time `now`.  A pair whose
/// access or identity expiry has been reached, or whose subject is not a
/// UUID, is rejected as `InvalidTokens`; no partial session is created.
pub fn user_from_claims(access: &AccessClaims, id: &IdClaims, now: u64) -> (r: Result<
    User,
    AuthError,
>)
    ensures
        match r {
            Ok(u) => claims_acceptable(access@, id@, now) && u@ == claims_user(access@, id@),
            Err(e) => !claims_acceptable(access@, id@, now) && e == AuthError::InvalidTokens,
        },
{
    if now >= access.exp || now >= id.exp {
        return Err(AuthError::InvalidTokens);
    }
    match parse_uuid(id.sub.as_str()) {
        None => Err(AuthError::InvalidTokens),
        Some(uid) => {
            let u = User {
                name: access.preferred_username.clone(),
                id: uid,
                roles: clone_strings(&access.roles),
                expires_at: if access.exp <= id.exp {
                    access.exp
                } else {
                    id.exp
                },
            };
            proof {
                assert(u@ =~= claims_user(access@, id@));
            }
            Ok(u)
        },
    }
}

/// The delegated authenticator and the session store it fills.
pub struct OidcAuthenticator {
    pub store: SessionStore,
}

impl OidcAuthenticator {
    /// A delegated authenticator with an empty session store.
    pub fn new() -> (a: OidcAuthenticator)
        ensures
            a.store.wf(),
            a.store.sessions() == Map::<Seq<char>, UserView>::empty(),
            a.store.count() == 0,
    {
        OidcAuthenticator { store: SessionStore::new() }
    }

    /// Validate a relayed token pair — each against the key set fetched for
    /// its validation — derive the user, and open a session.  Both tokens
    /// must validate and be unexpired; exactly then a session is owed, bound
    /// to the user those tokens derive.  Any failure returns the deciding
    /// error and leaves the store untouched: no partial session.
    pub fn login_with_tokens(
        &mut self,
        access_jwt: &str,
        id_jwt: &str,
        access_jwks: &Vec<Jwk>,
        id_jwks: &Vec<Jwk>,
        cfg: &OidcConfig,
        now: u64,
    ) -> (r: Result<Token, AuthError>)
        requires
            old(self).store.wf(),
        ensures
            final(self).store.wf(),
            ({
                let v = spec_login_with_tokens(
                    access_jwt@,
                    id_jwt@,
                    access_jwks.deep_view(),
                    id_jwks.deep_view(),
                    cfg.issuer@,
                    cfg.client_id@,
                    now,
                );
                match r {
                    Err(e) => v == Err::<UserView, AuthError>(e) && final(self).store.sessions()
                        == old(self).store.sessions(),
                    Ok(t) => v is Ok && t@.len() == 44 && final(self).store.sessions() == old(
                        self,
                    ).store.sessions().insert(t@, v->Ok_0),
                }
            }),
            r is Ok ==> jwt_alg_rs256(access_jwt@) && jwt_alg_rs256(id_jwt@),
    {
        let access = match validate_access_token(access_jwt, access_jwks, cfg) {
            Ok(c) => c,
            Err(e) => {
                return Err(e);
            },
        };
        let id = match validate_id_token(id_jwt, id_jwks, cfg) {
            Ok(c) => c,
            Err(e) => {
                return Err(e);
            },
        };
        let user = match user_from_claims(&access, &id, now) {
            Ok(u) => u,
            Err(e) => {
                return Err(e);
            },
        };
        let token = self.store.issue(user);
        Ok(token)
    }
}

/// What came back from the provider's token endpoint, as the caller that
/// performed the exchange reports it.
pub enum ProviderReply {
    /// The request never completed: a connection, TLS, or read failure.
    TransportFailure,
    /// The endpoint answered with this status code; the token pair is
    /// present when the body parsed as JSON holding both tokens.
    Answer { status: u16, tokens: Option<(String, String)> },
}

/// Decide a password-grant exchange from the provider's reply: a transport
/// failure means the provider is unavailable; a non-success status is the
/// provider rejecting the credentials; a success status without both tokens
/// in the body is a parse failure, again the provider being unavailable;
/// otherwise the access and identity tokens proceed to validation.
pub fn classify_token_response(reply: ProviderReply) -> (r: Result<(String, String), AuthError>)
    ensures
        match reply {
            ProviderReply::TransportFailure => r == Err::<(String, String), AuthError>(
                AuthError::ProviderUnavailable,
            ),
            ProviderReply::Answer { status, tokens } => {
                if status < 200 || status >= 300 {
                    r == Err::<(String, String), AuthError>(AuthError::InvalidCredentials)
                } else {
                    match tokens {
                        None => r == Err::<(String, String), AuthError>(
                            AuthError::ProviderUnavailable,
                        ),
                        Some(pair) => r is Ok && r.unwrap().0@ == pair.0@ && r.unwrap().1@
                            == pair.1@,
                    }
                }
            },
        },
{
    match reply {
        ProviderReply::TransportFailure => Err(AuthError::ProviderUnavailable),
        ProviderReply::Answer { status, tokens } => {
            if status < 200 || status >= 300 {
                Err(AuthError::InvalidCredentials)
            } else {
                match tokens {
                    None => Err(AuthError::ProviderUnavailable),
                    Some(pair) => Ok(pair),
                }
            }
        },
    }
}

/// The form parameters of the resource-owner-password exchange posted to
/// the provider's token endpoint: client credentials, the grant type, the
/// resource owner's credentials, and the `openid` scope that makes the
/// provider issue an identity token beside the access token.
pub fn token_request_params(cfg: &OidcConfig, username: &str, password: &str) -> (r: Vec<
    (String, String),
>)
    ensures
        r@.len() == 6,
        r@[0].0@ == "client_id"@ && r@[0].1@ == cfg.client_id@,
        r@[1].0@ == "client_secret"@ && r@[1].1@ == cfg.client_secret@,
        r@[2].0@ == "grant_type"@ && r@[2].1@ == "password"@,
        r@[3].0@ == "username"@ && r@[3].1@ == username@,
        r@[4].0@ == "password"@ && r@[4].1@ == password@,
        r@[5].0@ == "scope"@ && r@[5].1@ == "openid"@,
{
    let mut params: Vec<(String, String)> = Vec::new();
    params.push(("client_id".to_owned(), cfg.client_id.clone()));
    params.push(("client_secret".to_owned(), cfg.client_secret.clone()));
    params.push(("grant_type".to_owned(), "password".to_owned()));
    params.push(("username".to_owned(), username.to_owned()));
    params.push(("password".to_owned(), password.to_owned()));
    params.push(("scope".to_owned(), "openid".to_owned()));
    params
}

} // verus!
