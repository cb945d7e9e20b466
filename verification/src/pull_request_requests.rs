//! Bodies of the pull request requests.

use vstd::prelude::*;

verus! {

/// A request to open a pull request.
#[derive(Clone, Debug)]
pub struct OpenPullRequestRequest {
    pub title: String,
    pub description: String,
    pub source_branch: String,
    pub target_branch: String,
}

/// A request to merge a pull request.
#[derive(Clone, Debug)]
pub struct MergePullRequestRequest {
    pub author_name: String,
    pub author_email: String,
    /// Merge commit message. Defaults to `Merge PR-<n>: <title>` when omitted.
    pub message: Option<String>,
}

} // verus!
