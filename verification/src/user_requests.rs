//! Bodies of the user requests.

use vstd::prelude::*;

verus! {

/// A request to create a user.
#[derive(Clone, Debug)]
pub struct CreateUserRequest {
    /// "human" or "agent".
    pub kind: String,
    pub name: String,
    pub email: Option<String>,
}

/// A request to register an SSH public key.
#[derive(Clone, Debug)]
pub struct AddSshKeyRequest {
    pub label: String,
    pub public_key: String,
}

/// A request to issue an access token.
#[derive(Clone, Debug)]
pub struct IssueTokenRequest {
    pub label: String,
    pub read_only: bool,
    /// `None` = all repos; `Some([...])` = restricted to these repo ids.
    pub repos: Option<Vec<String>>,
    pub orgs: Option<Vec<String>>,
    pub expires_at: Option<String>,
}

} // verus!
