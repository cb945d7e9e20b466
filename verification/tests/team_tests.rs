use wiab_app::team_application_service::{
    after_provision, team_sandbox_request, worker_env, CreateTeamAction, CreateTeamEvent,
    CreateTeamFlow, CreateTeamStage, SandboxOutcome, StartStep, StartTeamAction, StartTeamEvent,
    StartTeamFlow, StartTeamStage, StopTeamAction, StopTeamEvent, StopTeamFlow, StopTeamStage,
    StoppingTeam, TeamSnapshot,
};
use wiab_app::team_requests::CreateTeamRequest;

fn team() -> TeamSnapshot {
    TeamSnapshot {
        id: "TM-1".to_owned(),
        organization_id: "O-1".to_owned(),
        name: "platform".to_owned(),
        description: String::new(),
        board_id: "B-2".to_owned(),
        repo_id: "R-3".to_owned(),
        user_id: "U-9".to_owned(),
        vm_template: "developer".to_owned(),
        state: "starting".to_owned(),
        vm_id: None,
    }
}

fn value<'a>(env: &'a [(String, String)], key: &str) -> &'a str {
    env.iter()
        .find(|(k, _)| k == key)
        .map(|(_, v)| v.as_str())
        .unwrap_or_else(|| panic!("{key} was not passed to the container"))
}

#[test]
fn a_trailing_slash_on_the_api_url_does_not_double_up() {
    let env = worker_env(&team(), "https://wiab.example/", "tok");
    assert_eq!(value(&env, "WIAB_TEAM_API_URL"), "https://wiab.example");
    assert_eq!(
        value(&env, "WIAB_TEAM_REPO_REMOTE"),
        "https://wiab.example/repos/R-3.git"
    );
}

#[test]
fn a_started_team_is_told_which_board_to_poll_and_which_repo_to_clone() {
    let env = worker_env(&team(), "https://wiab.example", "tok-1");
    assert_eq!(value(&env, "WIAB_TEAM_API_URL"), "https://wiab.example");
    assert_eq!(value(&env, "WIAB_TEAM_TEAM_ID"), "TM-1");
    assert_eq!(value(&env, "WIAB_TEAM_BOARD_ID"), "B-2");
    assert_eq!(
        value(&env, "WIAB_TEAM_REPO_REMOTE"),
        "https://wiab.example/repos/R-3.git"
    );
    assert_eq!(value(&env, "WIAB_TEAM_API_TOKEN"), "tok-1");
    assert_eq!(env.len(), 5);
}

#[test]
fn several_trailing_slashes_all_go() {
    let env = worker_env(&team(), "http://host//", "t");
    assert_eq!(value(&env, "WIAB_TEAM_API_URL"), "http://host");
}

#[test]
fn a_team_sandbox_runs_the_team_s_template_with_default_resources() {
    let request = team_sandbox_request(&team(), "https://wiab.example", "tok-1");
    assert_eq!(request.template, "developer");
    assert_eq!(request.vcpus, None);
    assert_eq!(request.mem_mib, None);
    assert_eq!(value(&request.env, "WIAB_TEAM_TEAM_ID"), "TM-1");
}

#[test]
fn a_failed_provision_leaves_the_team_failed_not_stopped() {
    assert_eq!(
        after_provision("TM-1", SandboxOutcome::Failed { message: "no capacity".to_owned() }),
        StartStep::MarkFailed { message: "no capacity".to_owned() }
    );
    assert_eq!(
        after_provision("TM-1", SandboxOutcome::NotProvisioned),
        StartStep::MarkFailed { message: "could not provision a sandbox for team TM-1".to_owned() }
    );
    assert_eq!(
        after_provision("TM-1", SandboxOutcome::Provisioned { vm_id: "VM-1".to_owned() }),
        StartStep::MarkIdle { vm_id: "VM-1".to_owned() }
    );
}

#[test]
fn starting_provisions_a_sandbox_and_leaves_the_team_idle() {
    let (flow, action) = StartTeamFlow::begin("TM-1", "https://wiab.example");
    assert!(matches!(action, StartTeamAction::MarkStarting));
    let (flow, action) = flow.step(StartTeamEvent::MarkedStarting { team: Some(team()) });
    assert!(matches!(
        action,
        StartTeamAction::IssueToken { user_id, organization_id } if user_id == "U-9" && organization_id == "O-1"
    ));
    let (flow, action) = flow.step(StartTeamEvent::TokenIssued { token: "tok-1".to_owned() });
    let StartTeamAction::Provision { organization_id, owner_id, request } = action else {
        panic!("the sandbox should be requested");
    };
    assert_eq!(organization_id, "O-1");
    assert_eq!(owner_id, "TM-1");
    assert_eq!(request.template, "developer");
    assert_eq!(value(&request.env, "WIAB_TEAM_API_TOKEN"), "tok-1");
    let (flow, action) = flow.step(StartTeamEvent::SandboxAnswered {
        outcome: SandboxOutcome::Provisioned { vm_id: "VM-1".to_owned() },
    });
    assert!(matches!(action, StartTeamAction::MarkIdle { vm_id } if vm_id == "VM-1"));
    let mut idle = team();
    idle.state = "idle".to_owned();
    idle.vm_id = Some("VM-1".to_owned());
    let (flow, action) = flow.step(StartTeamEvent::IdleRecorded { team: Some(idle.clone()) });
    assert!(matches!(flow.stage, StartTeamStage::Finished));
    assert!(matches!(action, StartTeamAction::Finish { result: Ok(Some(t)) } if t == idle));
}

#[test]
fn a_start_whose_sandbox_fails_ends_in_the_port_s_error() {
    let (flow, _) = StartTeamFlow::begin("TM-1", "https://wiab.example");
    let (flow, _) = flow.step(StartTeamEvent::MarkedStarting { team: Some(team()) });
    let (flow, _) = flow.step(StartTeamEvent::TokenIssued { token: "tok".to_owned() });
    let (flow, action) = flow.step(StartTeamEvent::SandboxAnswered {
        outcome: SandboxOutcome::Failed { message: "no capacity".to_owned() },
    });
    assert!(matches!(action, StartTeamAction::MarkFailed));
    let (_, action) = flow.step(StartTeamEvent::FailureRecorded);
    assert!(matches!(action, StartTeamAction::Finish { result: Err(message) } if message == "no capacity"));
}

#[test]
fn starting_an_unknown_team_is_not_found() {
    let (flow, _) = StartTeamFlow::begin("TM-404", "https://wiab.example");
    let (flow, action) = flow.step(StartTeamEvent::MarkedStarting { team: None });
    assert!(matches!(flow.stage, StartTeamStage::Finished));
    assert!(matches!(action, StartTeamAction::Finish { result: Ok(None) }));
}

#[test]
fn every_start_mints_a_fresh_token() {
    for token in ["tok-1", "tok-2"] {
        let (flow, _) = StartTeamFlow::begin("TM-1", "https://wiab.example");
        let (flow, action) = flow.step(StartTeamEvent::MarkedStarting { team: Some(team()) });
        assert!(matches!(action, StartTeamAction::IssueToken { .. }));
        let (_, action) = flow.step(StartTeamEvent::TokenIssued { token: token.to_owned() });
        let StartTeamAction::Provision { request, .. } = action else {
            panic!("the sandbox should be requested");
        };
        assert_eq!(value(&request.env, "WIAB_TEAM_API_TOKEN"), token);
    }
}

#[test]
fn starting_a_running_team_is_rejected() {
    let (flow, _) = StartTeamFlow::begin("TM-1", "https://wiab.example");
    let (flow, action) = flow.step(StartTeamEvent::Refused { message: "team is already running".to_owned() });
    assert!(matches!(flow.stage, StartTeamStage::Finished));
    assert!(matches!(action, StartTeamAction::Finish { result: Err(m) } if m == "team is already running"));
}

#[test]
fn a_token_that_cannot_be_minted_fails_the_start() {
    let (flow, _) = StartTeamFlow::begin("TM-1", "https://wiab.example");
    let (flow, _) = flow.step(StartTeamEvent::MarkedStarting { team: Some(team()) });
    let (_, action) = flow.step(StartTeamEvent::Refused { message: "identity unavailable".to_owned() });
    assert!(matches!(action, StartTeamAction::Finish { result: Err(m) } if m == "identity unavailable"));
}

fn create_request() -> CreateTeamRequest {
    CreateTeamRequest {
        name: "platform".to_owned(),
        description: "keeps the lights on".to_owned(),
        board_id: "B-2".to_owned(),
        repo_id: "R-3".to_owned(),
        vm_type: "developer".to_owned(),
    }
}

#[test]
fn a_created_team_is_given_its_own_identity() {
    let (flow, action) = CreateTeamFlow::begin("O-1", create_request());
    assert!(matches!(
        action,
        CreateTeamAction::CheckParents { ref organization_id, ref board_id, ref repo_id }
            if organization_id == "O-1" && board_id == "B-2" && repo_id == "R-3"
    ));
    let (flow, action) = flow.step(CreateTeamEvent::ParentsChecked { organization: true, board: true, repo: true });
    assert!(matches!(
        action,
        CreateTeamAction::ProvisionIdentity { ref vm_type, ref name, ref organization_id }
            if vm_type == "developer" && name == "platform" && organization_id == "O-1"
    ));
    let (flow, action) = flow.step(CreateTeamEvent::IdentityProvisioned {
        team_id: "TM-1".to_owned(),
        user_id: "U-9".to_owned(),
    });
    let CreateTeamAction::SaveTeam { team_id, organization_id, name, description, board_id, repo_id, user_id, vm_type } = action
    else {
        panic!("the team should be saved");
    };
    assert_eq!(
        (team_id.as_str(), organization_id.as_str(), name.as_str(), description.as_str()),
        ("TM-1", "O-1", "platform", "keeps the lights on")
    );
    assert_eq!((board_id.as_str(), repo_id.as_str(), user_id.as_str(), vm_type.as_str()), ("B-2", "R-3", "U-9", "developer"));
    let (flow, action) = flow.step(CreateTeamEvent::TeamSaved { team: team() });
    assert!(matches!(flow.stage, CreateTeamStage::Finished));
    assert!(matches!(action, CreateTeamAction::Finish { team: Some(t) } if t == team()));
}

#[test]
fn create_team_under_a_missing_parent_returns_none() {
    for (organization, board, repo) in [(false, true, true), (true, false, true), (true, true, false)] {
        let (flow, _) = CreateTeamFlow::begin("O-1", create_request());
        let (flow, action) = flow.step(CreateTeamEvent::ParentsChecked { organization, board, repo });
        assert!(matches!(flow.stage, CreateTeamStage::Finished));
        assert!(matches!(action, CreateTeamAction::Finish { team: None }));
    }
}

#[test]
fn create_team_with_a_refused_vm_type_fails() {
    let (flow, _) = CreateTeamFlow::begin("O-1", create_request());
    let (flow, _) = flow.step(CreateTeamEvent::ParentsChecked { organization: true, board: true, repo: true });
    let (_, action) = flow.step(CreateTeamEvent::Refused { message: "invalid template".to_owned() });
    assert!(matches!(action, CreateTeamAction::Fail { message } if message == "invalid template"));
}

#[test]
fn stopping_releases_the_sandbox() {
    let (flow, action) = StopTeamFlow::begin();
    assert!(matches!(action, StopTeamAction::LoadTeam));
    let (flow, action) = flow.step(StopTeamEvent::TeamLoaded {
        team: Some(StoppingTeam { vm_id: Some("VM-4".to_owned()) }),
    });
    assert!(matches!(action, StopTeamAction::StopVm { ref vm_id } if vm_id == "VM-4"));
    let (flow, action) = flow.step(StopTeamEvent::VmStopped);
    assert!(matches!(action, StopTeamAction::MarkStopped));
    let mut stopped = team();
    stopped.state = "stopped".to_owned();
    let (flow, action) = flow.step(StopTeamEvent::StopRecorded { team: Some(stopped.clone()) });
    assert!(matches!(flow.stage, StopTeamStage::Finished));
    assert!(matches!(action, StopTeamAction::Finish { result: Ok(Some(t)) } if t == stopped));
}

#[test]
fn stopping_a_team_that_never_started_asks_the_runtime_for_nothing() {
    let (flow, _) = StopTeamFlow::begin();
    let (_, action) = flow.step(StopTeamEvent::TeamLoaded { team: Some(StoppingTeam { vm_id: None }) });
    assert!(matches!(action, StopTeamAction::MarkStopped));
}

#[test]
fn stopping_an_unknown_team_is_not_found_and_a_port_failure_fails() {
    let (flow, _) = StopTeamFlow::begin();
    let (_, action) = flow.step(StopTeamEvent::TeamLoaded { team: None });
    assert!(matches!(action, StopTeamAction::Finish { result: Ok(None) }));

    let (flow, _) = StopTeamFlow::begin();
    let (flow, _) = flow.step(StopTeamEvent::TeamLoaded { team: Some(StoppingTeam { vm_id: Some("VM-4".to_owned()) }) });
    let (_, action) = flow.step(StopTeamEvent::Refused { message: "vm runtime error: gone".to_owned() });
    assert!(matches!(action, StopTeamAction::Finish { result: Err(m) } if m == "vm runtime error: gone"));
}
