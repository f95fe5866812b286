//! Authentication: the request for a token and its answer.
use vstd::prelude::*;

use crate::header::ResponseHeader;

verus! {

/// A request for a token, with a user name and a password.
#[derive(Debug, Clone)]
pub struct AuthenticateRequest {
    pub name: String,
    pub password: String,
}

impl AuthenticateRequest {
    /// Creates a request for a token of the user `name`.
    pub fn new(name: String, password: String) -> (r: Self)
        ensures
            r == (AuthenticateRequest { name, password }),
    {
        AuthenticateRequest { name, password }
    }
}

/// The answer to an authentication: the token to send with later requests.
#[derive(Debug, Clone)]
pub struct AuthenticateResponse {
    pub header: ResponseHeader,
    pub token: String,
}

} // verus!
