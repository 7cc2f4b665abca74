use vstd::prelude::*;

verus! {

/// Every way in which logging in, issuing a token or guarding a request fails.
#[derive(Clone, Copy, Debug, PartialEq, Eq, Structural)]
pub enum Error {
    /// No user of the directory has the given email and password.
    WrongCredentialError,
    /// The token could not be built or signed.
    JWTTokenCreationError,
    /// The token is malformed, its signature does not verify, or it has expired.
    JWTTokenError,
    /// The token is valid but its role does not reach the required one.
    Unauthorized,
    /// The request carries no authorization header.
    NoAuthHeaderError,
    /// The authorization header is not text, or not a bearer credential.
    InvalidAuthError,
    /// The caller may not perform the operation.
    NoPermissionError,
}

} // verus!
