//! The ways in which a request can fail to authenticate.

use vstd::prelude::*;

verus! {

/// Possible errors arising from authentication.
#[derive(Debug, Clone, Copy, PartialEq, Eq, Structural)]
pub enum AuthError {
    /// No bearer token came with the request.
    Auth,
    /// The token could not be decoded.
    InvalidToken,
    /// The Azure refresh token is missing or is no valid text.
    MissingOrInvalidAzureRefreshToken,
}

impl AuthError {
    /// The HTTP status that answers the error: 401 where the caller is not
    /// known, 400 where the refresh token is at fault.
    pub open spec fn status(self) -> u16 {
        match self {
            AuthError::Auth => 401,
            AuthError::InvalidToken => 401,
            AuthError::MissingOrInvalidAzureRefreshToken => 400,
        }
    }

    /// The words that describe the error to the caller.
    pub open spec fn text(self) -> Seq<char> {
        match self {
            AuthError::Auth => "Authentication failed"@,
            AuthError::InvalidToken => "Token decoding failed"@,
            AuthError::MissingOrInvalidAzureRefreshToken =>
                "Missing Azure refresh token, or it wasn't a valid string"@,
        }
    }

    /// The HTTP status that answers the error.
    pub fn status_code(&self) -> (r: u16)
        ensures
            r == self.status(),
    {
        match self {
            AuthError::Auth => 401,
            AuthError::InvalidToken => 401,
            AuthError::MissingOrInvalidAzureRefreshToken => 400,
        }
    }

    /// The words that describe the error to the caller.
    pub fn message(&self) -> (r: &'static str)
        ensures
            r@ == self.text(),
    {
        match self {
            AuthError::Auth => "Authentication failed",
            AuthError::InvalidToken => "Token decoding failed",
            AuthError::MissingOrInvalidAzureRefreshToken =>
                "Missing Azure refresh token, or it wasn't a valid string",
        }
    }
}

} // verus!
