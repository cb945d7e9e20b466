use wiab_app::agent_application_service::{
    deactivation_target, ActivationAction, ActivationEvent, ActivationFlow, ActivationOutcome,
    AgentFacts, AgentStateError, ProvisionedVm,
};

fn agent(active: bool, vm_template: Option<&str>) -> AgentFacts {
    AgentFacts {
        active,
        vm_template: vm_template.map(str::to_owned),
        organization_id: "O-1".to_owned(),
    }
}

fn outcome(action: ActivationAction) -> ActivationOutcome {
    match action {
        ActivationAction::Finish { outcome } => outcome,
        other => panic!("expected the flow to finish, got {other:?}"),
    }
}

#[test]
fn activate_then_deactivate() {
    let (flow, action) = ActivationFlow::begin("A-1");
    assert!(matches!(action, ActivationAction::LoadAgent));
    let (flow, action) = flow.step(ActivationEvent::AgentLoaded {
        agent: Some(agent(false, Some("developer"))),
    });
    let ActivationAction::Provision { organization_id, owner_id, request } = action else {
        panic!("a VM should be requested");
    };
    assert_eq!(organization_id, "O-1");
    assert_eq!(owner_id, "A-1");
    assert_eq!(request.template, "developer");
    assert!(request.env.is_empty());
    let (flow, action) = flow.step(ActivationEvent::VmProvisioned {
        vm: Some(ProvisionedVm {
            id: "VM-1".to_owned(),
            guest_ip: Some("172.16.0.9".to_owned()),
        }),
    });
    assert!(matches!(action, ActivationAction::Activate { vm_id } if vm_id == "VM-1"));
    let (_, action) = flow.step(ActivationEvent::Recorded { found: true });
    assert_eq!(
        outcome(action),
        ActivationOutcome::Activated {
            guest_ip: Some("172.16.0.9".to_owned())
        }
    );
    // Deactivating the now active agent stops its VM.
    assert_eq!(
        deactivation_target(true, Some("VM-1".to_owned())),
        Ok(Some("VM-1".to_owned()))
    );
}

#[test]
fn activate_missing_agent_returns_none() {
    let (flow, _) = ActivationFlow::begin("A-9");
    let (_, action) = flow.step(ActivationEvent::AgentLoaded { agent: None });
    assert_eq!(outcome(action), ActivationOutcome::NotFound);
}

#[test]
fn activating_an_agent_without_a_vm_type_is_refused() {
    let (flow, _) = ActivationFlow::begin("A-1");
    let (_, action) = flow.step(ActivationEvent::AgentLoaded { agent: Some(agent(false, None)) });
    assert_eq!(
        outcome(action),
        ActivationOutcome::Refused(AgentStateError::NoVmTemplate)
    );
}

#[test]
fn activating_an_active_agent_is_refused() {
    let (flow, _) = ActivationFlow::begin("A-1");
    let (_, action) = flow.step(ActivationEvent::AgentLoaded {
        agent: Some(agent(true, Some("developer"))),
    });
    assert_eq!(
        outcome(action),
        ActivationOutcome::Refused(AgentStateError::AlreadyActive)
    );
}

#[test]
fn nothing_provisioned_means_not_found() {
    let (flow, _) = ActivationFlow::begin("A-1");
    let (flow, _) = flow.step(ActivationEvent::AgentLoaded {
        agent: Some(agent(false, Some("developer"))),
    });
    let (_, action) = flow.step(ActivationEvent::VmProvisioned { vm: None });
    assert_eq!(outcome(action), ActivationOutcome::NotFound);
}

#[test]
fn a_vm_port_failure_fails_the_activation() {
    let (flow, _) = ActivationFlow::begin("A-1");
    let (flow, _) = flow.step(ActivationEvent::AgentLoaded { agent: Some(agent(false, Some("developer"))) });
    let (_, action) = flow.step(ActivationEvent::Refused { message: "vm runtime error: no kvm".to_owned() });
    assert_eq!(outcome(action), ActivationOutcome::Failed("vm runtime error: no kvm".to_owned()));
}
