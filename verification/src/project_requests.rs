//! Bodies of the project requests.

use vstd::prelude::*;

verus! {

/// A request to create a project.
#[derive(Clone, Debug)]
pub struct CreateProjectRequest {
    pub name: String,
    pub description: String,
}

/// A request to edit a project.
#[derive(Clone, Debug)]
pub struct UpdateProjectRequest {
    pub name: String,
    pub description: String,
}

} // verus!
