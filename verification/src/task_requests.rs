//! Bodies of the task requests.

use vstd::prelude::*;

verus! {

/// A request to queue a work item on a board.
#[derive(Clone, Debug)]
pub struct CreateTaskRequest {
    /// The work item to queue on the board.
    pub work_id: String,
}

/// Body for the transitions that must say why: block, escalate and fail.
#[derive(Clone, Debug)]
pub struct TaskReasonRequest {
    pub reason: String,
}

/// A request to take the next task off a board.
#[derive(Clone, Debug)]
pub struct ClaimTaskRequest {
    /// The team taking the task.
    pub team_id: String,
}

} // verus!
