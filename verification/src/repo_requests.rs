//! Bodies of the repo requests.

use vstd::prelude::*;

verus! {

/// A request to create a repo.
#[derive(Clone, Debug)]
pub struct CreateRepoRequest {
    pub name: String,
    pub description: String,
    /// "private" | "public"; defaults to private when omitted.
    pub visibility: Option<String>,
}

/// A request to edit a repo.
#[derive(Clone, Debug)]
pub struct UpdateRepoRequest {
    pub name: String,
    pub description: String,
}

/// A request to change who may read a repo.
#[derive(Clone, Debug)]
pub struct SetVisibilityRequest {
    /// "private" | "public".
    pub visibility: String,
}

} // verus!
