//! Messages exchanged with the application that asks for an authentication.

use vstd::prelude::*;

verus! {

/// What a caller asks for: the logical attributes, where to send the user
/// afterwards, and optionally where to deliver the result out of band.
#[derive(Debug)]
pub struct AuthRequest {
    pub attributes: Vec<String>,
    pub continuation: String,
    pub attr_url: Option<String>,
}

/// Answer to a start request: the URL the end user is sent to.
#[derive(Debug)]
pub struct StartAuthResponse {
    pub client_url: String,
}

#[derive(Debug)]
pub enum AuthStatus {
    Succes(),
    Failed(),
}

impl AuthStatus {
    /// The name of the status on the wire.
    pub open spec fn name_spec(self) -> Seq<char> {
        match self {
            AuthStatus::Succes() => "succes"@,
            AuthStatus::Failed() => "failed"@,
        }
    }

    pub fn name(&self) -> (r: &'static str)
        ensures
            r@ == self.name_spec(),
    {
        match self {
            AuthStatus::Succes() => "succes",
            AuthStatus::Failed() => "failed",
        }
    }
}

/// Outcome handed back to the caller; `attributes` holds the sealed
/// attribute token when the authentication succeeded.
#[derive(Debug)]
pub struct AuthResult {
    pub status: AuthStatus,
    pub attributes: Option<String>,
}

} // verus!
