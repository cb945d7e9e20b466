//! Bodies of the organization requests.

use vstd::prelude::*;

verus! {

/// A request to create an organization.
#[derive(Clone, Debug)]
pub struct CreateOrganizationRequest {
    pub name: String,
    pub description: String,
}

/// A request to edit an organization.
#[derive(Clone, Debug)]
pub struct UpdateOrganizationRequest {
    pub name: String,
    pub description: String,
}

} // verus!
