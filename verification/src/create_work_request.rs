//! Bodies of the work requests.

use vstd::prelude::*;

verus! {

/// A request to create a work item.
#[derive(Clone, Debug)]
pub struct CreateWorkRequest {
    pub title: String,
    pub description: String,
}

/// A request to edit a work item.
#[derive(Clone, Debug)]
pub struct UpdateWorkRequest {
    pub title: String,
    pub description: String,
}

/// A request to add a definition-of-done criterion to a work item.
#[derive(Clone, Debug)]
pub struct AddDoneRequest {
    pub criterion: String,
}

} // verus!
