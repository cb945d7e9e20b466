use wiab_app::concurrency::SaveOutcome;
use wiab_app::listing::{list_newest_under, owned_newest_first, OwnedEntry};
use wiab_app::pull_request_application_service::{
    missing_branch, MergeAction, MergeEvent, MergeFlow, MergeOutcome, PullRequestFacts,
};
use wiab_app::pull_request_application_service::{OpenAction, OpenEvent, OpenFlow, OpenStage};
use wiab_app::pull_request_requests::{MergePullRequestRequest, OpenPullRequestRequest};

fn merge_request(message: Option<&str>) -> MergePullRequestRequest {
    MergePullRequestRequest {
        author_name: "Ada".to_owned(),
        author_email: "ada@example.com".to_owned(),
        message: message.map(str::to_owned),
    }
}

fn facts() -> PullRequestFacts {
    PullRequestFacts {
        id: "PR-1".to_owned(),
        title: "Add login".to_owned(),
        repo_id: "R-3".to_owned(),
        source_branch: "feature".to_owned(),
        target_branch: "main".to_owned(),
    }
}

fn finish(action: MergeAction) -> MergeOutcome {
    match action {
        MergeAction::Finish { outcome } => outcome,
        other => panic!("expected the merge to finish, got {other:?}"),
    }
}

#[test]
fn merge_records_the_commit() {
    let (flow, action) = MergeFlow::begin(merge_request(None));
    assert!(matches!(action, MergeAction::Load));
    let (flow, action) = flow.step(MergeEvent::Loaded { pull_request: Some(facts()) });
    let MergeAction::GitMerge { repo_id, source, target, author_name, author_email, message } = action else {
        panic!("git should merge first");
    };
    assert_eq!(repo_id, "R-3");
    assert_eq!(source, "feature");
    assert_eq!(target, "main");
    assert_eq!(author_name, "Ada");
    assert_eq!(author_email, "ada@example.com");
    assert_eq!(message, "Merge PR-1: Add login");
    let (flow, action) = flow.step(MergeEvent::Merged { commit: "0123abc".to_owned() });
    assert!(matches!(action, MergeAction::MarkMerged { commit } if commit == "0123abc"));
    let (_, action) = flow.step(MergeEvent::Saved { outcome: SaveOutcome::Saved });
    assert_eq!(finish(action), MergeOutcome::Merged);
}

#[test]
fn merge_returns_none_for_an_unknown_id() {
    let (flow, _) = MergeFlow::begin(merge_request(Some("ship it")));
    let (_, action) = flow.step(MergeEvent::Loaded { pull_request: None });
    assert_eq!(finish(action), MergeOutcome::NotFound);
}

#[test]
fn a_concurrent_save_starts_the_merge_over() {
    let (flow, _) = MergeFlow::begin(merge_request(Some("ship it")));
    let (flow, action) = flow.step(MergeEvent::Loaded { pull_request: Some(facts()) });
    assert!(matches!(action, MergeAction::GitMerge { message, .. } if message == "ship it"));
    let (flow, _) = flow.step(MergeEvent::Merged { commit: "c1".to_owned() });
    let (flow, action) = flow.step(MergeEvent::Saved { outcome: SaveOutcome::Conflict });
    assert!(matches!(action, MergeAction::Load));
    let (flow, _) = flow.step(MergeEvent::Loaded { pull_request: Some(facts()) });
    let (flow, _) = flow.step(MergeEvent::Merged { commit: "c2".to_owned() });
    let (_, action) = flow.step(MergeEvent::Saved {
        outcome: SaveOutcome::Backend("disk full".to_owned()),
    });
    assert_eq!(finish(action), MergeOutcome::Failed("disk full".to_owned()));
}

#[test]
fn open_rejects_a_branch_that_does_not_exist() {
    let branches = vec!["main".to_owned()];
    assert_eq!(missing_branch(&branches, "nope", "main"), Some("nope".to_owned()));
    let mut request = open_request();
    request.source_branch = "nope".to_owned();
    let (flow, _) = OpenFlow::begin(request);
    let (flow, action) = flow.step(OpenEvent::RepoChecked { exists: true });
    let OpenAction::ListBranches { source, target } = action else {
        panic!("the branches should be listed");
    };
    let (_, action) = flow.step(OpenEvent::BranchesListed { source, target, branches });
    assert!(matches!(action, OpenAction::Fail { message } if message == "branch 'nope' does not exist"));
}

fn open_request() -> OpenPullRequestRequest {
    OpenPullRequestRequest {
        title: "Add login".to_owned(),
        description: "Adds the login page".to_owned(),
        source_branch: "feature".to_owned(),
        target_branch: "main".to_owned(),
    }
}

#[test]
fn open_returns_none_for_an_unknown_repo() {
    let (flow, action) = OpenFlow::begin(open_request());
    assert!(matches!(action, OpenAction::CheckRepo));
    let (flow, action) = flow.step(OpenEvent::RepoChecked { exists: false });
    assert!(matches!(flow.stage, OpenStage::Finished));
    assert!(matches!(action, OpenAction::Finish { found: false }));
}

#[test]
fn open_stores_the_request() {
    let (flow, _) = OpenFlow::begin(open_request());
    let (flow, action) = flow.step(OpenEvent::RepoChecked { exists: true });
    assert!(matches!(action, OpenAction::ListBranches { ref source, ref target } if source == "feature" && target == "main"));
    let (flow, action) = flow.step(OpenEvent::BranchesListed {
        source: "feature".to_owned(),
        target: "main".to_owned(),
        branches: vec!["main".to_owned(), "feature".to_owned()],
    });
    assert!(matches!(action, OpenAction::OpenAndSave { ref source, ref target } if source == "feature" && target == "main"));
    let (_, action) = flow.step(OpenEvent::Opened);
    assert!(matches!(action, OpenAction::Finish { found: true }));
}

#[test]
fn open_propagates_a_domain_invariant() {
    let (flow, _) = OpenFlow::begin(open_request());
    let (flow, _) = flow.step(OpenEvent::RepoChecked { exists: true });
    let (flow, _) = flow.step(OpenEvent::BranchesListed {
        source: "feature".to_owned(),
        target: "main".to_owned(),
        branches: vec!["main".to_owned(), "feature".to_owned()],
    });
    let (_, action) = flow.step(OpenEvent::Refused { message: "title must not be empty".to_owned() });
    assert!(matches!(action, OpenAction::Fail { message } if message == "title must not be empty"));
}

#[test]
fn list_by_repo_returns_only_that_repos_requests_newest_first() {
    let entries = vec![
        OwnedEntry { number: 1, owner: 3 },
        OwnedEntry { number: 2, owner: 3 },
        OwnedEntry { number: 3, owner: 4 },
    ];
    assert_eq!(owned_newest_first(&entries, 3), vec![1, 0]);
    assert_eq!(list_newest_under(true, &entries, 3), Some(vec![1, 0]));
    assert_eq!(list_newest_under(true, &entries, 7), Some(vec![]));
}

#[test]
fn list_by_repo_returns_none_for_an_unknown_repo() {
    let entries = vec![OwnedEntry { number: 1, owner: 3 }];
    assert_eq!(list_newest_under(false, &entries, 99), None);
}

#[test]
fn a_conflicting_merge_leaves_the_request_open() {
    let (flow, _) = MergeFlow::begin(merge_request(None));
    let (flow, _) = flow.step(MergeEvent::Loaded { pull_request: Some(facts()) });
    let (flow, action) = flow.step(MergeEvent::Refused { message: "merge conflict in README".to_owned() });
    assert_eq!(finish(action), MergeOutcome::Failed("merge conflict in README".to_owned()));
    assert!(matches!(flow.stage, wiab_app::pull_request_application_service::MergeStage::Finished));
}

#[test]
fn a_request_that_refuses_to_be_marked_merged_fails() {
    let (flow, _) = MergeFlow::begin(merge_request(None));
    let (flow, _) = flow.step(MergeEvent::Loaded { pull_request: Some(facts()) });
    let (flow, _) = flow.step(MergeEvent::Merged { commit: "0123abc".to_owned() });
    let (_, action) = flow.step(MergeEvent::Refused { message: "pull request is already closed".to_owned() });
    assert_eq!(finish(action), MergeOutcome::Failed("pull request is already closed".to_owned()));
}
