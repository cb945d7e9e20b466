//! Bodies of the agent requests.

use vstd::prelude::*;

verus! {

/// A request to create an agent.
#[derive(Clone, Debug)]
pub struct CreateAgentRequest {
    pub name: String,
    pub description: String,
    /// The VM type (template name) to assign, if any.
    pub vm_type: Option<String>,
}

/// A request to edit an agent.
#[derive(Clone, Debug)]
pub struct UpdateAgentRequest {
    pub name: String,
    pub description: String,
    /// The VM type (template name); an explicit `None` clears it. Only applied while the
    /// agent is inactive.
    pub vm_type: Option<String>,
}

} // verus!
