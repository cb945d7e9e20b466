use wiab_app::agent_application_service::{
    activation_request, deactivation_target, vm_type_changes, AgentStateError,
};
use wiab_app::concurrency::{after_save, MutationStep, SaveOutcome};
use wiab_app::messaging::MessagingError;
use wiab_app::pull_request_application_service::{merge_message, missing_branch, missing_branch_message};
use wiab_app::authorization_service::TokenScope;
use wiab_app::user_application_service::{
    email_taken, email_taken_message, find_by_email, token_owner, PresentedToken, ResolveAction,
    ResolveEvent, ResolveStage, ResolveTokenFlow, TokenHolder, UserEntry,
};
use wiab_app::vm_application_service::{
    after_launch, launch_spec, requested_resources, LaunchStep, ProvisionAction, ProvisionEvent,
    ProvisionFlow, ProvisionStage,
};
use wiab_app::vm_runtime::{RuntimeHandle, VmSpec};
use wiab_app::vm_requests::ProvisionVmRequest;
use wiab_app::vm_runtime::VmRuntimeError;

#[test]
fn activation_provisions_the_assigned_vm_type() {
    let request = activation_request(false, Some("developer".to_owned())).unwrap();
    assert_eq!(request.template, "developer");
    assert_eq!(request.vcpus, None);
    assert_eq!(request.mem_mib, None);
    assert!(request.env.is_empty());
}

#[test]
fn activate_without_vm_type_errors() {
    assert_eq!(activation_request(false, None).err(), Some(AgentStateError::NoVmTemplate));
    assert_eq!(
        activation_request(true, None).err(),
        Some(AgentStateError::AlreadyActive)
    );
}

#[test]
fn deactivate_inactive_agent_errors() {
    assert_eq!(deactivation_target(false, None), Err(AgentStateError::NotActive));
    assert_eq!(
        deactivation_target(true, Some("VM-1".to_owned())),
        Ok(Some("VM-1".to_owned()))
    );
}

#[test]
fn only_a_different_vm_type_is_a_change() {
    assert!(!vm_type_changes(&None, &None));
    assert!(!vm_type_changes(&Some("dev".to_owned()), &Some("dev".to_owned())));
    assert!(vm_type_changes(&Some("dev".to_owned()), &Some("base".to_owned())));
    assert!(vm_type_changes(&Some("dev".to_owned()), &None));
    assert!(vm_type_changes(&None, &Some("dev".to_owned())));
}

#[test]
fn provision_applies_resource_overrides() {
    let request = ProvisionVmRequest {
        template: "developer".to_owned(),
        vcpus: Some(4),
        mem_mib: Some(8192),
        env: Vec::new(),
    };
    let (flow, action) = ProvisionFlow::begin(&request, 2, 1024);
    assert!(matches!(action, ProvisionAction::CheckOrganization));
    let (flow, action) = flow.step(ProvisionEvent::OrganizationChecked { exists: true });
    match action {
        ProvisionAction::CreateVm { template, vcpus, mem_mib } => {
            assert_eq!(template, "developer");
            assert_eq!((vcpus, mem_mib), (4, 8192));
        }
        other => panic!("unexpected {:?}", other),
    }
    let (flow, action) = flow.step(ProvisionEvent::VmCreated {
        vm_id: "VM-1".to_owned(),
        template: "developer".to_owned(),
    });
    match action {
        ProvisionAction::Launch { spec } => assert_eq!(
            spec,
            VmSpec { id: "VM-1".to_owned(), template: "developer".to_owned(), vcpus: 4, mem_mib: 8192 }
        ),
        other => panic!("unexpected {:?}", other),
    }
    let (flow, action) = flow.step(ProvisionEvent::Launched {
        result: Ok(RuntimeHandle { guest_ip: "172.16.0.2".to_owned(), pid: 4242 }),
    });
    assert!(matches!(action, ProvisionAction::MarkRunning { ref guest_ip } if guest_ip == "172.16.0.2"));
    let (flow, action) = flow.step(ProvisionEvent::RunningRecorded);
    assert!(matches!(action, ProvisionAction::Finish { found: true }));
    assert!(matches!(flow.stage, ProvisionStage::Finished));
}

#[test]
fn unset_resources_fall_back_to_the_defaults_one_at_a_time() {
    let request = ProvisionVmRequest {
        template: "developer".to_owned(),
        vcpus: None,
        mem_mib: Some(8192),
        env: Vec::new(),
    };
    assert_eq!(requested_resources(&request, 2, 1024), (2, 8192));
    let request = ProvisionVmRequest { vcpus: Some(4), mem_mib: None, ..request };
    assert_eq!(requested_resources(&request, 2, 1024), (4, 1024));
    let request = ProvisionVmRequest { vcpus: None, ..request };
    let (flow, _) = ProvisionFlow::begin(&request, 2, 1024);
    assert_eq!((flow.vcpus, flow.mem_mib), (2, 1024));
}

#[test]
fn the_launch_spec_carries_the_vm_id_template_and_resources() {
    let spec = launch_spec("VM-7".to_owned(), "base".to_owned(), (2, 1024));
    assert_eq!(spec, VmSpec { id: "VM-7".to_owned(), template: "base".to_owned(), vcpus: 2, mem_mib: 1024 });
}

#[test]
fn provision_under_missing_organization_returns_none() {
    let request = ProvisionVmRequest { template: "developer".to_owned(), vcpus: None, mem_mib: None, env: Vec::new() };
    let (flow, _) = ProvisionFlow::begin(&request, 2, 1024);
    let (flow, action) = flow.step(ProvisionEvent::OrganizationChecked { exists: false });
    assert!(matches!(action, ProvisionAction::Finish { found: false }));
    assert!(matches!(flow.stage, ProvisionStage::Finished));
}

#[test]
fn provision_rejects_empty_template() {
    let request = ProvisionVmRequest { template: "  ".to_owned(), vcpus: None, mem_mib: None, env: Vec::new() };
    let (flow, _) = ProvisionFlow::begin(&request, 2, 1024);
    let (flow, _) = flow.step(ProvisionEvent::OrganizationChecked { exists: true });
    let (_, action) = flow.step(ProvisionEvent::Refused { message: "invalid template".to_owned() });
    assert!(matches!(action, ProvisionAction::Fail { ref message } if message == "invalid template"));
}

#[test]
fn a_failed_boot_marks_the_vm_failed_and_surfaces_the_runtime_error() {
    let request = ProvisionVmRequest { template: "developer".to_owned(), vcpus: None, mem_mib: None, env: Vec::new() };
    let (flow, _) = ProvisionFlow::begin(&request, 2, 1024);
    let (flow, _) = flow.step(ProvisionEvent::OrganizationChecked { exists: true });
    let (flow, _) = flow.step(ProvisionEvent::VmCreated { vm_id: "VM-1".to_owned(), template: "developer".to_owned() });
    let (flow, action) = flow.step(ProvisionEvent::Launched { result: Err(VmRuntimeError::Runtime("no kvm".to_owned())) });
    assert!(matches!(action, ProvisionAction::MarkFailed { error: VmRuntimeError::Runtime(ref d) } if d == "no kvm"));
    assert!(matches!(flow.stage, ProvisionStage::Finished));
}

#[test]
fn provision_marks_failed_and_errors_when_runtime_fails() {
    let step = after_launch(Err(VmRuntimeError::Runtime("no kvm".to_owned())));
    assert!(matches!(step, LaunchStep::MarkFailed { error: VmRuntimeError::Runtime(detail) } if detail == "no kvm"));
    let step = after_launch(Ok(RuntimeHandle { guest_ip: "172.16.0.2".to_owned(), pid: 7 }));
    assert!(matches!(step, LaunchStep::MarkRunning { guest_ip } if guest_ip == "172.16.0.2"));
}

#[test]
fn a_pull_request_needs_both_branches() {
    let branches = vec!["main".to_owned(), "feature".to_owned()];
    assert_eq!(missing_branch(&branches, "feature", "main"), None);
    assert_eq!(missing_branch(&branches, "nope", "gone"), Some("nope".to_owned()));
    assert_eq!(missing_branch(&branches, "feature", "gone"), Some("gone".to_owned()));
    assert_eq!(missing_branch_message("gone"), "branch 'gone' does not exist");
}

#[test]
fn a_merge_message_defaults_to_the_pull_request() {
    assert_eq!(merge_message(None, "PR-3", "Add login"), "Merge PR-3: Add login");
    assert_eq!(merge_message(Some("custom".to_owned()), "PR-3", "Add login"), "custom");
}

fn user(number: u64, active: bool, email: Option<&str>) -> UserEntry {
    UserEntry { number, active, email: email.map(str::to_owned) }
}

#[test]
fn only_an_active_user_resolves_by_email() {
    let users = vec![
        user(1, false, Some("ada@example.com")),
        user(2, true, Some("bob@example.com")),
        user(3, true, Some("ada@example.com")),
    ];
    assert_eq!(find_by_email(&users, "ada@example.com"), Some(2));
    assert_eq!(find_by_email(&users, "eve@example.com"), None);
}

#[test]
fn an_email_in_any_state_is_taken() {
    let users = vec![user(1, false, Some("ada@example.com")), user(2, true, None)];
    assert!(email_taken(&users, "ada@example.com"));
    assert!(!email_taken(&users, "bob@example.com"));
    assert_eq!(email_taken_message(), "a user with that email already exists");
}

#[test]
fn a_conflict_retries_and_a_backend_failure_fails() {
    assert_eq!(after_save(SaveOutcome::Saved), MutationStep::Done);
    assert_eq!(after_save(SaveOutcome::Conflict), MutationStep::Retry);
    assert_eq!(
        after_save(SaveOutcome::Backend("down".to_owned())),
        MutationStep::Fail("down".to_owned())
    );
}

#[test]
fn port_errors_read_as_before() {
    assert_eq!(MessagingError::Backend("broker down".to_owned()).message(), "messaging error: broker down");
    assert_eq!(
        MessagingError::Disabled.message(),
        "messaging is disabled; set WIAB_NATS_ENABLED to publish"
    );
    assert_eq!(VmRuntimeError::Runtime("no kvm".to_owned()).message(), "vm runtime error: no kvm");
}

fn holders() -> Vec<TokenHolder> {
    vec![
        TokenHolder { number: 1, token_hashes: vec!["hash(other)".to_owned()] },
        TokenHolder { number: 2, token_hashes: vec!["hash(a)".to_owned(), "hash(wiab_pat_PLAINTEXT)".to_owned()] },
        TokenHolder { number: 3, token_hashes: vec!["hash(wiab_pat_PLAINTEXT)".to_owned()] },
    ]
}

fn read_only_scope() -> TokenScope {
    TokenScope { read_only: true, repos: None, orgs: None }
}

#[test]
fn a_token_resolves_to_the_first_user_holding_its_hash() {
    assert_eq!(token_owner(&holders(), "hash(wiab_pat_PLAINTEXT)"), Some(2));
    assert_eq!(token_owner(&holders(), "hash(other)"), Some(1));
    assert_eq!(token_owner(&holders(), "hash(wrong)"), None);
    assert_eq!(token_owner(&Vec::new(), "hash(x)"), None);
}

#[test]
fn a_live_token_resolves_to_its_owner_and_scope_after_recording_its_use() {
    let (flow, action) = ResolveTokenFlow::begin("hash(wiab_pat_PLAINTEXT)");
    assert!(matches!(action, ResolveAction::ListUsers));
    let (flow, action) = flow.step(ResolveEvent::UsersListed { users: holders() });
    assert!(matches!(action, ResolveAction::LoadUser { number: 2 }));
    let token = PresentedToken { expired: false, scope: read_only_scope() };
    let (flow, action) = flow.step(ResolveEvent::UserLoaded { token: Some(token) });
    assert!(matches!(action, ResolveAction::MarkUsedAndSave));
    let (flow, action) = flow.step(ResolveEvent::Saved { outcome: SaveOutcome::Conflict });
    assert!(matches!(action, ResolveAction::LoadUser { number: 2 }));
    let token = PresentedToken { expired: false, scope: read_only_scope() };
    let (flow, action) = flow.step(ResolveEvent::UserLoaded { token: Some(token) });
    assert!(matches!(action, ResolveAction::MarkUsedAndSave));
    let (flow, action) = flow.step(ResolveEvent::Saved { outcome: SaveOutcome::Saved });
    assert!(matches!(flow.stage, ResolveStage::Finished));
    match action {
        ResolveAction::Finish { resolved: Some((number, scope)) } => {
            assert_eq!(number, 2);
            assert!(scope.read_only);
        }
        other => panic!("unexpected {:?}", other),
    }
}

#[test]
fn an_unknown_or_expired_token_does_not_resolve() {
    let (flow, _) = ResolveTokenFlow::begin("hash(wrong)");
    let (_, action) = flow.step(ResolveEvent::UsersListed { users: holders() });
    assert!(matches!(action, ResolveAction::Finish { resolved: None }));

    let (flow, _) = ResolveTokenFlow::begin("hash(wiab_pat_PLAINTEXT)");
    let (flow, _) = flow.step(ResolveEvent::UsersListed { users: holders() });
    let token = PresentedToken {
        expired: true,
        scope: TokenScope { read_only: false, repos: None, orgs: None },
    };
    let (_, action) = flow.step(ResolveEvent::UserLoaded { token: Some(token) });
    assert!(matches!(action, ResolveAction::Finish { resolved: None }));

    let (flow, _) = ResolveTokenFlow::begin("hash(wiab_pat_PLAINTEXT)");
    let (flow, _) = flow.step(ResolveEvent::UsersListed { users: holders() });
    let (_, action) = flow.step(ResolveEvent::UserLoaded { token: None });
    assert!(matches!(action, ResolveAction::Finish { resolved: None }));
}

#[test]
fn a_store_failure_while_recording_the_use_fails_the_resolution() {
    let (flow, _) = ResolveTokenFlow::begin("hash(other)");
    let (flow, _) = flow.step(ResolveEvent::UsersListed { users: holders() });
    let (flow, _) = flow.step(ResolveEvent::UserLoaded {
        token: Some(PresentedToken { expired: false, scope: read_only_scope() }),
    });
    let (_, action) = flow.step(ResolveEvent::Saved { outcome: SaveOutcome::Backend("disk full".to_owned()) });
    match action {
        ResolveAction::Fail { message } => assert_eq!(message, "disk full"),
        other => panic!("unexpected {:?}", other),
    }
}
