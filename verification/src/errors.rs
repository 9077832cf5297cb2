//! The error kinds of the authentication subsystem and what a client gets to see of them.

use vstd::prelude::*;

verus! {

/// What went wrong, as finely as the operator's diagnostics need it. None of
/// this reaches a client as it is: see [`AuthError::surface`].
#[derive(Debug, Clone, Copy, PartialEq, Eq, Structural)]
pub enum AuthError {
    /// No credential is stored under the email that was given.
    CredentialNotFound,
    /// The password does not match the stored hash.
    PasswordMismatch,
    /// The token does not have the shape of a token, or its parts do not decode.
    TokenMalformed,
    /// The token's signature is not the one that the secret gives.
    TokenSignatureInvalid,
    /// The token was read at a time past its expiry.
    TokenExpired,
    /// The password could not be hashed.
    HashingFailure,
    /// The credential store could not be asked.
    StorageUnavailable,
    /// The request carries no `Authorization` header.
    MissingAuthHeader,
    /// No token could be issued: the expiry does not fit the claims' time
    /// field, or the token crate built none.
    TokenIssuanceFailure,
}

/// What can be wrong with the configuration at start-up.
#[derive(Debug, Clone, Copy, PartialEq, Eq, Structural)]
pub enum ConfigError {
    /// No secret for signing tokens is configured.
    MissingSecret,
}

/// The three things a client can be told.
#[derive(Debug, Clone, Copy, PartialEq, Eq, Structural)]
pub enum ClientError {
    /// The login was refused; which part of it was wrong is not said.
    InvalidCredentials,
    /// The request carries no usable token; why it is unusable is not said.
    AuthenticationRequired,
    /// The server failed.
    ServerError,
}

impl AuthError {
    /// The coarse kind under which this error is reported to a client.
    pub open spec fn surfaced(self) -> ClientError {
        match self {
            AuthError::CredentialNotFound | AuthError::PasswordMismatch => ClientError::InvalidCredentials,
            AuthError::TokenMalformed
            | AuthError::TokenSignatureInvalid
            | AuthError::TokenExpired
            | AuthError::MissingAuthHeader => ClientError::AuthenticationRequired,
            AuthError::HashingFailure
            | AuthError::StorageUnavailable
            | AuthError::TokenIssuanceFailure => ClientError::ServerError,
        }
    }

    /// The token itself is unusable, whatever the time: it is malformed or wrongly signed.
    pub open spec fn is_invalid_token(self) -> bool {
        self is TokenMalformed || self is TokenSignatureInvalid
    }

    /// Coarsens the error to what a client may learn.
    pub fn surface(&self) -> (kind: ClientError)
        ensures
            kind == self.surfaced(),
    {
        match self {
            AuthError::CredentialNotFound | AuthError::PasswordMismatch => ClientError::InvalidCredentials,
            AuthError::TokenMalformed
            | AuthError::TokenSignatureInvalid
            | AuthError::TokenExpired
            | AuthError::MissingAuthHeader => ClientError::AuthenticationRequired,
            AuthError::HashingFailure
            | AuthError::StorageUnavailable
            | AuthError::TokenIssuanceFailure => ClientError::ServerError,
        }
    }
}

impl ClientError {
    /// The HTTP status that goes with the kind.
    pub open spec fn status_code(self) -> u16 {
        match self {
            ClientError::InvalidCredentials => 401,
            ClientError::AuthenticationRequired => 401,
            ClientError::ServerError => 500,
        }
    }

    /// The HTTP status that goes with the kind.
    pub fn status(&self) -> (code: u16)
        ensures
            code == self.status_code(),
    {
        match self {
            ClientError::InvalidCredentials => 401,
            ClientError::AuthenticationRequired => 401,
            ClientError::ServerError => 500,
        }
    }
}

} // verus!
