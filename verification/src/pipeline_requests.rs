//! Bodies of the pipeline requests.

use vstd::prelude::*;

verus! {

/// A request to create a pipeline.
#[derive(Clone, Debug)]
pub struct CreatePipelineRequest {
    pub name: String,
    pub description: String,
}

/// A request to edit a pipeline.
#[derive(Clone, Debug)]
pub struct UpdatePipelineRequest {
    pub name: String,
    pub description: String,
}

} // verus!
