//! Pull request use cases: opening a request on real branches of an existing repo, and
//! merging one, with the message its merge commit gets.

use vstd::prelude::*;

use crate::concurrency::SaveOutcome;
use crate::pull_request_requests::{MergePullRequestRequest, OpenPullRequestRequest};
use crate::text::{chars_of, chars_equal, string_views};

verus! {

/// The first of `source` and `target` that is not among the repo's branch names, or
/// `None` when both are there.
pub open spec fn spec_missing_branch(branches: Seq<Seq<char>>, source: Seq<char>, target: Seq<char>) -> Option<Seq<char>> {
    if !branches.contains(source) {
        Some(source)
    } else if !branches.contains(target) {
        Some(target)
    } else {
        None
    }
}

/// Law of the branch check: a new pull request names no missing branch exactly when the
/// repo has both its source and its target; and the branch reported missing is the source
/// when the repo lacks it, otherwise the target, which the repo then lacks.
pub proof fn lemma_missing_branch_is_exact(branches: Seq<Seq<char>>, source: Seq<char>, target: Seq<char>)
    ensures
        spec_missing_branch(branches, source, target) is None <==> ((exists|k: int| 0 <= k < branches.len() && branches[k] == source)
            && (exists|k: int| 0 <= k < branches.len() && branches[k] == target)),
        spec_missing_branch(branches, source, target) matches Some(b) ==> ((b == source && !(exists|k: int|
            0 <= k < branches.len() && branches[k] == source)) || (b == target && (exists|k: int|
            0 <= k < branches.len() && branches[k] == source) && !(exists|k: int| 0 <= k < branches.len() && branches[k] == target))),
{
}

fn has_branch(branches: &Vec<String>, name: &str) -> (r: bool)
    ensures
        r == string_views(branches@).contains(name@),
{
    let wanted = chars_of(name);
    let mut i: usize = 0;
    while i < branches.len()
        invariant
            i <= branches@.len(),
            wanted@ == name@,
            forall|k: int| 0 <= k < i ==> branches@[k]@ != name@,
        decreases branches@.len() - i,
    {
        let candidate = chars_of(branches[i].as_str());
        if chars_equal(&candidate, &wanted) {
            assert(string_views(branches@)[i as int] == name@);
            return true;
        }
        i = i + 1;
    }
    assert forall|k: int| 0 <= k < string_views(branches@).len() implies string_views(branches@)[k] != name@ by {
        assert(branches@[k]@ != name@);
    }
    false
}

/// The branch a new pull request names that the repo does not have — the source checked
/// first — or `None` when both exist. A request naming a branch that does not exist could
/// never be merged, so it is refused rather than stored.
pub fn missing_branch(branches: &Vec<String>, source: &str, target: &str) -> (r: Option<String>)
    ensures
        match r {
            None => spec_missing_branch(string_views(branches@), source@, target@) is None,
            Some(b) => spec_missing_branch(string_views(branches@), source@, target@) == Some(b@),
        },
{
    if !has_branch(branches, source) {
        Some(String::from_str(source))
    } else if !has_branch(branches, target) {
        Some(String::from_str(target))
    } else {
        None
    }
}

/// `"branch '<name>' does not exist"`.
pub fn missing_branch_message(name: &str) -> (m: String)
    ensures
        m@ == "branch '"@ + name@ + "' does not exist"@,
{
    String::from_str("branch '").concat(name).concat("' does not exist")
}

/// The message of a merge commit: the one the merge request gives, or
/// `Merge <pull request id>: <title>`.
pub fn merge_message(message: Option<String>, pull_request_id: &str, title: &str) -> (m: String)
    ensures
        m@ == match message {
            Some(given) => given@,
            None => "Merge "@ + pull_request_id@ + ": "@ + title@,
        },
{
    match message {
        Some(given) => given,
        None => String::from_str("Merge ").concat(pull_request_id).concat(": ").concat(title),
    }
}


/// What merging reads of a pull request.
#[derive(Debug)]
pub struct PullRequestFacts {
    pub id: String,
    pub title: String,
    pub repo_id: String,
    pub source_branch: String,
    pub target_branch: String,
}

/// Where a merge stands, waiting for the outcome of what it last asked for.
#[derive(Debug)]
pub enum MergeStage {
    /// Waiting for the pull request, loaded with its version.
    AwaitingPullRequest,
    /// Waiting for the git merge.
    AwaitingMerge,
    /// Waiting for the merged request to be saved against the loaded version.
    AwaitingSave,
    /// Done.
    Finished,
}

/// What the service reports back after doing what the flow asked.
#[derive(Debug)]
pub enum MergeEvent {
    /// The pull request was loaded (`None`: there is no such request).
    Loaded { pull_request: Option<PullRequestFacts> },
    /// Git merged the branches, making this commit.
    Merged { commit: String },
    /// The request was marked merged with that commit and saved, with this outcome.
    Saved { outcome: SaveOutcome },
    /// What was asked failed, with this message: the request could not be loaded, the git
    /// backend refused the merge, or the request refused to be marked merged.
    Refused { message: String },
}

/// How a merge ends.
#[derive(Debug, PartialEq, Eq)]
pub enum MergeOutcome {
    NotFound,
    Merged,
    Failed(String),
}

/// What the flow asks the service to do next.
#[derive(Debug)]
pub enum MergeAction {
    /// Load the pull request with its version.
    Load,
    /// Merge `source` into `target` in the repo's git repository, as the given author,
    /// with the given message.
    GitMerge {
        repo_id: String,
        source: String,
        target: String,
        author_name: String,
        author_email: String,
        message: String,
    },
    /// Mark the request merged with `commit` and save it against the loaded version.
    MarkMerged { commit: String },
    /// Stop, answering with this.
    Finish { outcome: MergeOutcome },
}

/// Merging one pull request. The git merge happens first: if it fails, the request is
/// left open, so a failed merge never leaves a request claiming to be merged.
#[derive(Debug)]
pub struct MergeFlow {
    pub request: MergePullRequestRequest,
    pub stage: MergeStage,
}

/// Whether the flow can take `event` in the stage it is in.
pub open spec fn merge_takes(stage: MergeStage, event: MergeEvent) -> bool {
    match (stage, event) {
        (MergeStage::AwaitingPullRequest, MergeEvent::Loaded { .. }) => true,
        (MergeStage::AwaitingMerge, MergeEvent::Merged { .. }) => true,
        (MergeStage::AwaitingSave, MergeEvent::Saved { .. }) => true,
        (MergeStage::Finished, _) => false,
        (_, MergeEvent::Refused { .. }) => true,
        _ => false,
    }
}

impl MergeFlow {
    /// Starts merging as `request` asks: the pull request is loaded first.
    pub fn begin(request: MergePullRequestRequest) -> (r: (MergeFlow, MergeAction))
        ensures
            r.0.request == request,
            r.0.stage is AwaitingPullRequest,
            r.1 is Load,
    {
        (MergeFlow { request, stage: MergeStage::AwaitingPullRequest }, MergeAction::Load)
    }

    /// Takes the outcome of the last request and says what to do next:
    /// - with the pull request: none is not found; otherwise its source is merged into its
    ///   target as the requested author, with the requested message or `merge_message`'s
    ///   default;
    /// - with the merge commit: the request is marked merged and saved;
    /// - once saved: done; on a conflict another writer got there first, so the whole
    ///   cycle starts over from loading; on a store failure, fail;
    /// - a refusal at any point fails with its message: a merge git refuses leaves the
    ///   request open.
    pub fn step(self, event: MergeEvent) -> (r: (MergeFlow, MergeAction))
        requires
            merge_takes(self.stage, event),
        ensures
            r.0.request == self.request,
            match (self.stage, event) {
                (MergeStage::AwaitingPullRequest, MergeEvent::Loaded { pull_request }) => match pull_request {
                    None => r.0.stage is Finished && r.1 == (MergeAction::Finish { outcome: MergeOutcome::NotFound }),
                    Some(pr) => {
                        &&& r.0.stage is AwaitingMerge
                        &&& r.1 matches MergeAction::GitMerge { repo_id, source, target, author_name, author_email, message }
                        &&& repo_id@ == pr.repo_id@
                        &&& source@ == pr.source_branch@
                        &&& target@ == pr.target_branch@
                        &&& author_name@ == self.request.author_name@
                        &&& author_email@ == self.request.author_email@
                        &&& message@ == match self.request.message {
                            Some(given) => given@,
                            None => "Merge "@ + pr.id@ + ": "@ + pr.title@,
                        }
                    },
                },
                (MergeStage::AwaitingMerge, MergeEvent::Merged { commit }) => r.0.stage is AwaitingSave && r.1 == (MergeAction::MarkMerged {
                    commit,
                }),
                (MergeStage::AwaitingSave, MergeEvent::Saved { outcome }) => match outcome {
                    SaveOutcome::Saved => r.0.stage is Finished && r.1 == (MergeAction::Finish { outcome: MergeOutcome::Merged }),
                    SaveOutcome::Conflict => r.0.stage is AwaitingPullRequest && r.1 is Load,
                    SaveOutcome::Backend(message) => r.0.stage is Finished && r.1 == (MergeAction::Finish {
                        outcome: MergeOutcome::Failed(message),
                    }),
                },
                (_, MergeEvent::Refused { message }) => r.0.stage is Finished && r.1 == (MergeAction::Finish {
                    outcome: MergeOutcome::Failed(message),
                }),
                _ => false,
            },
    {
        let MergeFlow { request, stage } = self;
        match (stage, event) {
            (MergeStage::AwaitingPullRequest, MergeEvent::Loaded { pull_request }) => match pull_request {
                None => (MergeFlow { request, stage: MergeStage::Finished }, MergeAction::Finish { outcome: MergeOutcome::NotFound }),
                Some(pr) => {
                    let message = merge_message(request.message.clone(), pr.id.as_str(), pr.title.as_str());
                    let action = MergeAction::GitMerge {
                        repo_id: pr.repo_id,
                        source: pr.source_branch,
                        target: pr.target_branch,
                        author_name: request.author_name.clone(),
                        author_email: request.author_email.clone(),
                        message,
                    };
                    (MergeFlow { request, stage: MergeStage::AwaitingMerge }, action)
                },
            },
            (MergeStage::AwaitingMerge, MergeEvent::Merged { commit }) => {
                (MergeFlow { request, stage: MergeStage::AwaitingSave }, MergeAction::MarkMerged { commit })
            },
            (MergeStage::AwaitingSave, MergeEvent::Saved { outcome }) => match outcome {
                SaveOutcome::Saved => (MergeFlow { request, stage: MergeStage::Finished }, MergeAction::Finish { outcome: MergeOutcome::Merged }),
                SaveOutcome::Conflict => (MergeFlow { request, stage: MergeStage::AwaitingPullRequest }, MergeAction::Load),
                SaveOutcome::Backend(message) => (MergeFlow { request, stage: MergeStage::Finished }, MergeAction::Finish { outcome: MergeOutcome::Failed(message) }),
            },
            (_, MergeEvent::Refused { message }) => {
                (MergeFlow { request, stage: MergeStage::Finished }, MergeAction::Finish { outcome: MergeOutcome::Failed(message) })
            },
            _ => {
                assert(false);
                (MergeFlow { request, stage: MergeStage::Finished }, MergeAction::Load)
            },
        }
    }
}

/// Where opening a pull request stands.
#[derive(Debug)]
pub enum OpenStage {
    /// Waiting to learn whether the repo exists.
    AwaitingRepo,
    /// Waiting for the branch names to be accepted and the repo's branches listed.
    AwaitingBranches,
    /// Waiting for the request to be opened and saved.
    AwaitingSave,
    /// Done.
    Finished,
}

/// What the service reports back after doing what the flow asked.
#[derive(Debug)]
pub enum OpenEvent {
    /// Whether the repo exists.
    RepoChecked { exists: bool },
    /// The source and target branch names, as the domain accepted them, and the names of
    /// the repo's branches.
    BranchesListed { source: String, target: String, branches: Vec<String> },
    /// The request was opened and saved.
    Opened,
    /// What was asked failed, with this message: an id or a branch name was refused, git
    /// could not list the branches, the request was refused, or the store failed.
    Refused { message: String },
}

/// What the flow asks the service to do next.
#[derive(Debug)]
pub enum OpenAction {
    /// Look up the repo.
    CheckRepo,
    /// Accept the requested branch names and list the repo's branches.
    ListBranches { source: String, target: String },
    /// Open the request, numbered next, between `source` and `target`, with the requested
    /// title and description, and save it.
    OpenAndSave { source: String, target: String },
    /// Stop, answering with the opened request (`found`), or with nothing when the repo
    /// does not exist.
    Finish { found: bool },
    /// Stop, failing with this message.
    Fail { message: String },
}

/// Opening one pull request.
#[derive(Debug)]
pub struct OpenFlow {
    pub request: OpenPullRequestRequest,
    pub stage: OpenStage,
}

/// Whether the flow can take `event` in the stage it is in.
pub open spec fn open_takes(stage: OpenStage, event: OpenEvent) -> bool {
    match (stage, event) {
        (OpenStage::AwaitingRepo, OpenEvent::RepoChecked { .. }) => true,
        (OpenStage::AwaitingBranches, OpenEvent::BranchesListed { .. }) => true,
        (OpenStage::AwaitingSave, OpenEvent::Opened) => true,
        (OpenStage::Finished, _) => false,
        (_, OpenEvent::Refused { .. }) => true,
        _ => false,
    }
}

impl OpenFlow {
    /// Starts opening a pull request as `request` asks: the repo is looked up first.
    pub fn begin(request: OpenPullRequestRequest) -> (r: (OpenFlow, OpenAction))
        ensures
            r.0.request == request,
            r.0.stage is AwaitingRepo,
            r.1 is CheckRepo,
    {
        (OpenFlow { request, stage: OpenStage::AwaitingRepo }, OpenAction::CheckRepo)
    }

    /// Takes the outcome of the last request and says what to do next:
    /// - with the repo: none finishes with nothing; otherwise the requested branch names
    ///   are checked and the repo's branches listed;
    /// - with the branches: a branch the repo lacks — the source checked first — fails
    ///   with `branch '<name>' does not exist`; otherwise the request is opened and saved;
    /// - once saved: finish with it;
    /// - a refusal at any point fails with its message.
    pub fn step(self, event: OpenEvent) -> (r: (OpenFlow, OpenAction))
        requires
            open_takes(self.stage, event),
        ensures
            r.0.request == self.request,
            match (self.stage, event) {
                (OpenStage::AwaitingRepo, OpenEvent::RepoChecked { exists }) => if exists {
                    r.0.stage is AwaitingBranches && r.1 == (OpenAction::ListBranches {
                        source: self.request.source_branch,
                        target: self.request.target_branch,
                    })
                } else {
                    r.0.stage is Finished && r.1 == (OpenAction::Finish { found: false })
                },
                (OpenStage::AwaitingBranches, OpenEvent::BranchesListed { source, target, branches }) =>
                    match spec_missing_branch(string_views(branches@), source@, target@) {
                        Some(b) => r.0.stage is Finished && (r.1 matches OpenAction::Fail { message }
                            && message@ == "branch '"@ + b + "' does not exist"@),
                        None => r.0.stage is AwaitingSave && r.1 == (OpenAction::OpenAndSave { source, target }),
                    },
                (OpenStage::AwaitingSave, OpenEvent::Opened) => r.0.stage is Finished && r.1 == (OpenAction::Finish {
                    found: true,
                }),
                (_, OpenEvent::Refused { message }) => r.0.stage is Finished && r.1 == (OpenAction::Fail { message }),
                _ => false,
            },
    {
        let OpenFlow { request, stage } = self;
        match (stage, event) {
            (OpenStage::AwaitingRepo, OpenEvent::RepoChecked { exists }) => if exists {
                let action = OpenAction::ListBranches {
                    source: request.source_branch.clone(),
                    target: request.target_branch.clone(),
                };
                (OpenFlow { request, stage: OpenStage::AwaitingBranches }, action)
            } else {
                (OpenFlow { request, stage: OpenStage::Finished }, OpenAction::Finish { found: false })
            },
            (OpenStage::AwaitingBranches, OpenEvent::BranchesListed { source, target, branches }) => {
                match missing_branch(&branches, source.as_str(), target.as_str()) {
                    Some(b) => {
                        let message = missing_branch_message(b.as_str());
                        (OpenFlow { request, stage: OpenStage::Finished }, OpenAction::Fail { message })
                    },
                    None => (OpenFlow { request, stage: OpenStage::AwaitingSave }, OpenAction::OpenAndSave { source, target }),
                }
            },
            (OpenStage::AwaitingSave, OpenEvent::Opened) => {
                (OpenFlow { request, stage: OpenStage::Finished }, OpenAction::Finish { found: true })
            },
            (_, OpenEvent::Refused { message }) => {
                (OpenFlow { request, stage: OpenStage::Finished }, OpenAction::Fail { message })
            },
            _ => {
                assert(false);
                (OpenFlow { request, stage: OpenStage::Finished }, OpenAction::CheckRepo)
            },
        }
    }
}

} // verus!
