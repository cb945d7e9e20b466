//! Bodies of the board requests.

use vstd::prelude::*;

verus! {

/// A request to create a board.
#[derive(Clone, Debug)]
pub struct CreateBoardRequest {
    pub name: String,
    pub description: String,
}

/// A request to edit a board.
#[derive(Clone, Debug)]
pub struct UpdateBoardRequest {
    pub name: String,
    pub description: String,
}

} // verus!
