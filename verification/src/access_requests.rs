//! The body of a request to grant a role.

use vstd::prelude::*;

verus! {

/// A request to grant `role` on a scope to a user.
#[derive(Clone, Debug)]
pub struct GrantRoleRequest {
    pub user_id: String,
    /// "org" | "project" | "repo".
    pub scope_kind: String,
    pub scope_id: String,
    /// "read" | "write" | "admin" | "owner".
    pub role: String,
}

} // verus!
