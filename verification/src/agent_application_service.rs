//! Agent use cases: what activating and deactivating an agent require, and when an edit
//! changes the agent's VM type.

use vstd::prelude::*;

use crate::vm_requests::ProvisionVmRequest;

verus! {

/// Why an agent cannot be activated or deactivated.
#[derive(Clone, Copy, Debug, PartialEq, Eq, Structural)]
pub enum AgentStateError {
    /// Activating an agent that already runs.
    AlreadyActive,
    /// Activating an agent with no VM type assigned.
    NoVmTemplate,
    /// Deactivating an agent that does not run.
    NotActive,
}

/// What activating an agent asks the VM port for: a VM of its assigned type, with the
/// default resources and no extra environment (an agent's container is configured
/// entirely from the backend's own environment). Refused when the agent is already
/// active — checked first — or has no VM type.
pub fn activation_request(active: bool, vm_template: Option<String>) -> (r: Result<ProvisionVmRequest, AgentStateError>)
    ensures
        match r {
            Ok(req) => !active && (vm_template matches Some(t) && req.template@ == t@)
                && req.vcpus is None && req.mem_mib is None && req.env@.len() == 0,
            Err(e) => (active && e == AgentStateError::AlreadyActive) || (!active && vm_template is None
                && e == AgentStateError::NoVmTemplate),
        },
{
    if active {
        return Err(AgentStateError::AlreadyActive);
    }
    match vm_template {
        None => Err(AgentStateError::NoVmTemplate),
        Some(template) => Ok(ProvisionVmRequest { template, vcpus: None, mem_mib: None, env: Vec::new() }),
    }
}

/// What deactivating an agent stops: the VM it runs on, if it has one. Refused when the
/// agent is not active.
pub fn deactivation_target(active: bool, vm_id: Option<String>) -> (r: Result<Option<String>, AgentStateError>)
    ensures
        match r {
            Ok(target) => active && target == vm_id,
            Err(e) => !active && e == AgentStateError::NotActive,
        },
{
    if !active {
        Err(AgentStateError::NotActive)
    } else {
        Ok(vm_id)
    }
}

/// Whether an edit asking for VM type `desired` changes the agent's `current` one. Only a
/// change is applied, so a plain name or description edit of an active agent is allowed.
pub fn vm_type_changes(current: &Option<String>, desired: &Option<String>) -> (r: bool)
    ensures
        r == match (*current, *desired) {
            (None, None) => false,
            (Some(c), Some(d)) => c@ != d@,
            _ => true,
        },
{
    match (current, desired) {
        (None, None) => false,
        (Some(c), Some(d)) => {
            let cv = crate::text::chars_of(c.as_str());
            let dv = crate::text::chars_of(d.as_str());
            !crate::text::chars_equal(&cv, &dv)
        },
        _ => true,
    }
}


/// What activation reads of an agent.
#[derive(Debug)]
pub struct AgentFacts {
    pub active: bool,
    pub vm_template: Option<String>,
    pub organization_id: String,
}

/// A VM the port provisioned: its id and where it can be reached.
#[derive(Debug)]
pub struct ProvisionedVm {
    pub id: String,
    pub guest_ip: Option<String>,
}

/// Where activating an agent stands, waiting for the outcome of what it last asked for.
#[derive(Debug)]
pub enum ActivationStage {
    /// Waiting for the agent.
    AwaitingAgent,
    /// Waiting for the VM port's answer.
    AwaitingVm,
    /// Waiting for the VM to be recorded on the agent; then answer with `guest_ip`.
    AwaitingRecord { guest_ip: Option<String> },
    /// Done.
    Finished,
}

/// What the service reports back after doing what the flow asked.
#[derive(Debug)]
pub enum ActivationEvent {
    /// The agent was loaded (`None`: there is no such agent).
    AgentLoaded { agent: Option<AgentFacts> },
    /// The VM port answered (`None`: it provisioned nothing).
    VmProvisioned { vm: Option<ProvisionedVm> },
    /// The VM was recorded on the agent (`false`: the agent vanished meanwhile).
    Recorded { found: bool },
    /// What was asked failed, with this message: an id did not parse, the VM port failed,
    /// the agent refused the VM, or the store failed.
    Refused { message: String },
}

/// How activation ends.
#[derive(Debug, PartialEq, Eq)]
pub enum ActivationOutcome {
    /// There is no such agent, or nothing was provisioned for it.
    NotFound,
    /// The agent cannot be activated.
    Refused(AgentStateError),
    /// The agent runs, reachable at `guest_ip`.
    Activated { guest_ip: Option<String> },
    /// Activation failed, with this message.
    Failed(String),
}

/// What the flow asks the service to do next.
#[derive(Debug)]
pub enum ActivationAction {
    /// Load the agent.
    LoadAgent,
    /// Ask the VM port for a VM, for the agent's organization, owned by the agent.
    Provision { organization_id: String, owner_id: String, request: ProvisionVmRequest },
    /// Record the VM on the agent, marking it active.
    Activate { vm_id: String },
    /// Stop, answering with this.
    Finish { outcome: ActivationOutcome },
}

/// Activating one agent: provisioning a VM of its assigned type and recording it.
#[derive(Debug)]
pub struct ActivationFlow {
    pub agent_id: String,
    pub stage: ActivationStage,
}

/// Whether the flow can take `event` in the stage it is in.
pub open spec fn activation_takes(stage: ActivationStage, event: ActivationEvent) -> bool {
    match (stage, event) {
        (ActivationStage::AwaitingAgent, ActivationEvent::AgentLoaded { .. }) => true,
        (ActivationStage::AwaitingVm, ActivationEvent::VmProvisioned { .. }) => true,
        (ActivationStage::AwaitingRecord { .. }, ActivationEvent::Recorded { .. }) => true,
        (ActivationStage::Finished, _) => false,
        (_, ActivationEvent::Refused { .. }) => true,
        _ => false,
    }
}

impl ActivationFlow {
    /// Starts activating agent `agent_id`: the agent is loaded first.
    pub fn begin(agent_id: &str) -> (r: (ActivationFlow, ActivationAction))
        ensures
            r.0.agent_id@ == agent_id@,
            r.0.stage is AwaitingAgent,
            r.1 is LoadAgent,
    {
        (ActivationFlow { agent_id: String::from_str(agent_id), stage: ActivationStage::AwaitingAgent }, ActivationAction::LoadAgent)
    }

    /// Takes the outcome of the last request and says what to do next:
    /// - with the agent: none is not found; an active agent, or one without a VM type, is
    ///   refused (`activation_request`); otherwise a VM of its type is requested;
    /// - with the VM: none is not found; otherwise the VM is recorded on the agent;
    /// - once recorded: the agent runs, reachable at the VM's address (or, if it vanished
    ///   meanwhile, is not found);
    /// - a refusal at any point fails with its message.
    pub fn step(self, event: ActivationEvent) -> (r: (ActivationFlow, ActivationAction))
        requires
            activation_takes(self.stage, event),
        ensures
            r.0.agent_id == self.agent_id,
            match (self.stage, event) {
                (ActivationStage::AwaitingAgent, ActivationEvent::AgentLoaded { agent }) => match agent {
                    None => r.0.stage is Finished && r.1 == (ActivationAction::Finish { outcome: ActivationOutcome::NotFound }),
                    Some(a) => if a.active {
                        r.0.stage is Finished && r.1 == (ActivationAction::Finish {
                            outcome: ActivationOutcome::Refused(AgentStateError::AlreadyActive),
                        })
                    } else if a.vm_template is None {
                        r.0.stage is Finished && r.1 == (ActivationAction::Finish {
                            outcome: ActivationOutcome::Refused(AgentStateError::NoVmTemplate),
                        })
                    } else {
                        &&& r.0.stage is AwaitingVm
                        &&& r.1 matches ActivationAction::Provision { organization_id, owner_id, request }
                        &&& organization_id@ == a.organization_id@
                        &&& owner_id@ == self.agent_id@
                        &&& a.vm_template matches Some(t) && request.template@ == t@
                        &&& request.vcpus is None && request.mem_mib is None && request.env@.len() == 0
                    },
                },
                (ActivationStage::AwaitingVm, ActivationEvent::VmProvisioned { vm }) => match vm {
                    None => r.0.stage is Finished && r.1 == (ActivationAction::Finish { outcome: ActivationOutcome::NotFound }),
                    Some(v) => r.0.stage == (ActivationStage::AwaitingRecord { guest_ip: v.guest_ip }) && r.1 == (ActivationAction::Activate {
                        vm_id: v.id,
                    }),
                },
                (ActivationStage::AwaitingRecord { guest_ip }, ActivationEvent::Recorded { found }) => r.0.stage is Finished && r.1 == (
                ActivationAction::Finish {
                    outcome: if found {
                        ActivationOutcome::Activated { guest_ip }
                    } else {
                        ActivationOutcome::NotFound
                    },
                }),
                (_, ActivationEvent::Refused { message }) => r.0.stage is Finished && r.1 == (ActivationAction::Finish {
                    outcome: ActivationOutcome::Failed(message),
                }),
                _ => false,
            },
    {
        let ActivationFlow { agent_id, stage } = self;
        match (stage, event) {
            (ActivationStage::AwaitingAgent, ActivationEvent::AgentLoaded { agent }) => match agent {
                None => (ActivationFlow { agent_id, stage: ActivationStage::Finished }, ActivationAction::Finish { outcome: ActivationOutcome::NotFound }),
                Some(a) => match activation_request(a.active, a.vm_template) {
                    Err(e) => (ActivationFlow { agent_id, stage: ActivationStage::Finished }, ActivationAction::Finish { outcome: ActivationOutcome::Refused(e) }),
                    Ok(request) => {
                        let action = ActivationAction::Provision { organization_id: a.organization_id, owner_id: agent_id.clone(), request };
                        (ActivationFlow { agent_id, stage: ActivationStage::AwaitingVm }, action)
                    },
                },
            },
            (ActivationStage::AwaitingVm, ActivationEvent::VmProvisioned { vm }) => match vm {
                None => (ActivationFlow { agent_id, stage: ActivationStage::Finished }, ActivationAction::Finish { outcome: ActivationOutcome::NotFound }),
                Some(v) => (ActivationFlow { agent_id, stage: ActivationStage::AwaitingRecord { guest_ip: v.guest_ip } }, ActivationAction::Activate { vm_id: v.id }),
            },
            (ActivationStage::AwaitingRecord { guest_ip }, ActivationEvent::Recorded { found }) => {
                let outcome = if found {
                    ActivationOutcome::Activated { guest_ip }
                } else {
                    ActivationOutcome::NotFound
                };
                (ActivationFlow { agent_id, stage: ActivationStage::Finished }, ActivationAction::Finish { outcome })
            },
            (_, ActivationEvent::Refused { message }) => {
                (ActivationFlow { agent_id, stage: ActivationStage::Finished }, ActivationAction::Finish { outcome: ActivationOutcome::Failed(message) })
            },
            _ => {
                assert(false);
                (ActivationFlow { agent_id, stage: ActivationStage::Finished }, ActivationAction::LoadAgent)
            },
        }
    }
}

} // verus!
