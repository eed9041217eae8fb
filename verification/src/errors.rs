//! The error taxonomy shared by every component of the core.

use vstd::prelude::*;

verus! {

/// Everything that can go wrong while logging in, validating a session
/// token, or gating a request by role.
#[derive(Clone, Copy, Debug, PartialEq, Eq, Structural)]
pub enum AuthError {
    /// Bad username or password, locally checked or provider-rejected.
    InvalidCredentials,
    /// Missing, unknown, or expired session token.
    Unauthenticated,
    /// Valid session whose roles do not overlap the route's allowed roles.
    Forbidden,
    /// Signature or claim validation failed on a relayed token pair.
    InvalidTokens,
    /// No key in the fetched key set matches the token's key identifier.
    UnknownSigningKey,
    /// Network or parse failure while talking to the identity provider.
    ProviderUnavailable,
    /// The facade was invoked with the wrong variant's operation, or the
    /// process was configured with an unsupported mode; fatal at startup.
    ConfigurationError,
}

impl AuthError {
    /// The message a caller may surface for this error.  Credential failures
    /// share one message, whether the username was unknown or the password
    /// wrong, so that accounts cannot be enumerated.
    pub open spec fn message_spec(self) -> Seq<char> {
        match self {
            AuthError::InvalidCredentials => "username or password incorrect"@,
            AuthError::Unauthenticated => "Unrecognized authentication token"@,
            AuthError::Forbidden => "User is missing required role"@,
            AuthError::InvalidTokens => "invalid tokens"@,
            AuthError::UnknownSigningKey => "no matching signing key"@,
            AuthError::ProviderUnavailable => "identity provider unavailable"@,
            AuthError::ConfigurationError => "unsupported authentication configuration"@,
        }
    }

    /// Render the externally observable message for this error.
    pub fn message(&self) -> (r: String)
        ensures
            r@ == self.message_spec(),
    {
        match self {
            AuthError::InvalidCredentials => "username or password incorrect".to_owned(),
            AuthError::Unauthenticated => "Unrecognized authentication token".to_owned(),
            AuthError::Forbidden => "User is missing required role".to_owned(),
            AuthError::InvalidTokens => "invalid tokens".to_owned(),
            AuthError::UnknownSigningKey => "no matching signing key".to_owned(),
            AuthError::ProviderUnavailable => "identity provider unavailable".to_owned(),
            AuthError::ConfigurationError => "unsupported authentication configuration".to_owned(),
        }
    }
}

} // verus!
