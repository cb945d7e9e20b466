//! VM use cases: the resources a new VM asks for, the spec its boot is asked for with,
//! and what a boot attempt leaves behind.

use vstd::prelude::*;

use crate::vm_requests::ProvisionVmRequest;
use crate::vm_runtime::{RuntimeHandle, VmRuntimeError, VmSpec};

verus! {

/// The resources (vCPUs, MiB of memory) a request asks for, the per-VM defaults standing
/// in for what it leaves unset.
pub fn requested_resources(request: &ProvisionVmRequest, default_vcpus: u32, default_mem_mib: u32) -> (r: (u32, u32))
    ensures
        r.0 == match request.vcpus {
            Some(v) => v,
            None => default_vcpus,
        },
        r.1 == match request.mem_mib {
            Some(m) => m,
            None => default_mem_mib,
        },
{
    let vcpus = match request.vcpus {
        Some(v) => v,
        None => default_vcpus,
    };
    let mem_mib = match request.mem_mib {
        Some(m) => m,
        None => default_mem_mib,
    };
    (vcpus, mem_mib)
}

/// What a boot attempt leaves the VM as.
#[derive(Debug)]
pub enum LaunchStep {
    /// Running, reachable at `guest_ip`; save it and answer with it.
    MarkRunning { guest_ip: String },
    /// Failed: record that as well as the store allows, and surface `error`.
    MarkFailed { error: VmRuntimeError },
}

/// What the runtime's answer to a boot request makes of the VM, which was saved as
/// creating before the attempt so that a crash mid-launch leaves a record.
pub fn after_launch(result: Result<RuntimeHandle, VmRuntimeError>) -> (step: LaunchStep)
    ensures
        match result {
            Ok(handle) => step matches LaunchStep::MarkRunning { guest_ip } && guest_ip == handle.guest_ip,
            Err(error) => step matches LaunchStep::MarkFailed { error: e } && e == error,
        },
{
    match result {
        Ok(handle) => LaunchStep::MarkRunning { guest_ip: handle.guest_ip },
        Err(error) => LaunchStep::MarkFailed { error },
    }
}

/// What the runtime is asked to boot for VM `vm_id` of template `template`, with
/// `resources` (vCPUs, MiB of memory).
pub fn launch_spec(vm_id: String, template: String, resources: (u32, u32)) -> (spec: VmSpec)
    ensures
        spec == (VmSpec { id: vm_id, template, vcpus: resources.0, mem_mib: resources.1 }),
{
    VmSpec { id: vm_id, template, vcpus: resources.0, mem_mib: resources.1 }
}

/// Where provisioning a VM stands, waiting for the outcome of what it last asked for.
#[derive(Debug)]
pub enum ProvisionStage {
    /// Waiting to learn whether the organization exists.
    AwaitingOrganization,
    /// Waiting for the VM to be created and saved as creating.
    AwaitingCreation,
    /// Waiting for the runtime's answer to the boot request.
    AwaitingLaunch,
    /// Waiting for the VM to be saved as running.
    AwaitingRunningRecord,
    /// Done.
    Finished,
}

/// What the service reports back after doing what the flow asked.
#[derive(Debug)]
pub enum ProvisionEvent {
    /// Whether the organization exists.
    OrganizationChecked { exists: bool },
    /// The VM was created and saved as creating, under id `vm_id`, with its template named
    /// `template`.
    VmCreated { vm_id: String, template: String },
    /// The runtime answered the boot request.
    Launched { result: Result<RuntimeHandle, VmRuntimeError> },
    /// The VM was saved as running.
    RunningRecorded,
    /// What was asked failed (an id or template the domain refuses, a store failure),
    /// with this message.
    Refused { message: String },
}

/// What the flow asks the service to do next.
#[derive(Debug)]
pub enum ProvisionAction {
    /// Look up the organization.
    CheckOrganization,
    /// Create a VM of template `template` with these resources, numbered next, in the
    /// organization, and save it as creating.
    CreateVm { template: String, vcpus: u32, mem_mib: u32 },
    /// Ask the runtime to boot `spec`.
    Launch { spec: VmSpec },
    /// Mark the VM running at `guest_ip` and save it.
    MarkRunning { guest_ip: String },
    /// Mark the VM failed, save that as well as the store allows, and fail with `error`.
    MarkFailed { error: VmRuntimeError },
    /// Stop, answering with the running VM (`found`), or with nothing when the
    /// organization does not exist.
    Finish { found: bool },
    /// Stop, failing with this message.
    Fail { message: String },
}

/// Provisioning one VM: created and saved as creating first, so that a crash mid-launch
/// leaves a record, then booted, then recorded running or failed.
#[derive(Debug)]
pub struct ProvisionFlow {
    /// The template the request names.
    pub template: String,
    /// The vCPUs asked for, the default standing in when the request sets none.
    pub vcpus: u32,
    /// The memory asked for, in MiB, the default standing in when the request sets none.
    pub mem_mib: u32,
    pub stage: ProvisionStage,
}

/// Whether the flow can take `event` in the stage it is in.
pub open spec fn provision_takes(stage: ProvisionStage, event: ProvisionEvent) -> bool {
    match (stage, event) {
        (ProvisionStage::AwaitingOrganization, ProvisionEvent::OrganizationChecked { .. }) => true,
        (ProvisionStage::AwaitingCreation, ProvisionEvent::VmCreated { .. }) => true,
        (ProvisionStage::AwaitingLaunch, ProvisionEvent::Launched { .. }) => true,
        (ProvisionStage::AwaitingRunningRecord, ProvisionEvent::RunningRecorded) => true,
        (ProvisionStage::AwaitingOrganization, ProvisionEvent::Refused { .. }) => true,
        (ProvisionStage::AwaitingCreation, ProvisionEvent::Refused { .. }) => true,
        (ProvisionStage::AwaitingRunningRecord, ProvisionEvent::Refused { .. }) => true,
        _ => false,
    }
}

impl ProvisionFlow {
    /// Starts provisioning a VM as `request` asks, with per-VM defaults `default_vcpus`
    /// and `default_mem_mib` for what it leaves unset: the organization is looked up
    /// first. The request's extra environment plays no part in a plain provisioning.
    pub fn begin(request: &ProvisionVmRequest, default_vcpus: u32, default_mem_mib: u32) -> (r: (ProvisionFlow, ProvisionAction))
        ensures
            r.0.template@ == request.template@,
            r.0.vcpus == match request.vcpus {
                Some(v) => v,
                None => default_vcpus,
            },
            r.0.mem_mib == match request.mem_mib {
                Some(m) => m,
                None => default_mem_mib,
            },
            r.0.stage is AwaitingOrganization,
            r.1 is CheckOrganization,
    {
        let (vcpus, mem_mib) = requested_resources(request, default_vcpus, default_mem_mib);
        let template = String::from_str(request.template.as_str());
        (ProvisionFlow { template, vcpus, mem_mib, stage: ProvisionStage::AwaitingOrganization }, ProvisionAction::CheckOrganization)
    }

    /// Takes the outcome of the last request and says what to do next:
    /// - with the organization: none finishes with nothing; otherwise the VM is created with
    ///   the requested template and resources;
    /// - once created: the runtime is asked to boot it, with its id, its template's name and
    ///   the requested resources (`launch_spec`);
    /// - with the runtime's answer: a booted VM is marked running at its address, a failed
    ///   one marked failed, surfacing the runtime's error (`after_launch`);
    /// - once recorded running: finish with the VM;
    /// - a refusal, before the boot or while recording it running, fails with its message.
    pub fn step(self, event: ProvisionEvent) -> (r: (ProvisionFlow, ProvisionAction))
        requires
            provision_takes(self.stage, event),
        ensures
            r.0.template == self.template,
            r.0.vcpus == self.vcpus,
            r.0.mem_mib == self.mem_mib,
            match (self.stage, event) {
                (ProvisionStage::AwaitingOrganization, ProvisionEvent::OrganizationChecked { exists }) => if exists {
                    r.0.stage is AwaitingCreation && r.1 == (ProvisionAction::CreateVm {
                        template: self.template,
                        vcpus: self.vcpus,
                        mem_mib: self.mem_mib,
                    })
                } else {
                    r.0.stage is Finished && r.1 == (ProvisionAction::Finish { found: false })
                },
                (ProvisionStage::AwaitingCreation, ProvisionEvent::VmCreated { vm_id, template }) => r.0.stage is AwaitingLaunch
                    && r.1 == (ProvisionAction::Launch {
                    spec: VmSpec { id: vm_id, template, vcpus: self.vcpus, mem_mib: self.mem_mib },
                }),
                (ProvisionStage::AwaitingLaunch, ProvisionEvent::Launched { result }) => match result {
                    Ok(handle) => r.0.stage is AwaitingRunningRecord && r.1 == (ProvisionAction::MarkRunning {
                        guest_ip: handle.guest_ip,
                    }),
                    Err(error) => r.0.stage is Finished && r.1 == (ProvisionAction::MarkFailed { error }),
                },
                (ProvisionStage::AwaitingRunningRecord, ProvisionEvent::RunningRecorded) => r.0.stage is Finished && r.1 == (
                ProvisionAction::Finish { found: true }),
                (_, ProvisionEvent::Refused { message }) => r.0.stage is Finished && r.1 == (ProvisionAction::Fail { message }),
                _ => false,
            },
    {
        let ProvisionFlow { template, vcpus, mem_mib, stage } = self;
        match (stage, event) {
            (ProvisionStage::AwaitingOrganization, ProvisionEvent::OrganizationChecked { exists }) => if exists {
                let action = ProvisionAction::CreateVm { template: template.clone(), vcpus, mem_mib };
                (ProvisionFlow { template, vcpus, mem_mib, stage: ProvisionStage::AwaitingCreation }, action)
            } else {
                (ProvisionFlow { template, vcpus, mem_mib, stage: ProvisionStage::Finished }, ProvisionAction::Finish { found: false })
            },
            (ProvisionStage::AwaitingCreation, ProvisionEvent::VmCreated { vm_id, template: name }) => {
                let spec = launch_spec(vm_id, name, (vcpus, mem_mib));
                (ProvisionFlow { template, vcpus, mem_mib, stage: ProvisionStage::AwaitingLaunch }, ProvisionAction::Launch { spec })
            },
            (ProvisionStage::AwaitingLaunch, ProvisionEvent::Launched { result }) => match after_launch(result) {
                LaunchStep::MarkRunning { guest_ip } => (ProvisionFlow { template, vcpus, mem_mib, stage: ProvisionStage::AwaitingRunningRecord }, ProvisionAction::MarkRunning { guest_ip }),
                LaunchStep::MarkFailed { error } => (ProvisionFlow { template, vcpus, mem_mib, stage: ProvisionStage::Finished }, ProvisionAction::MarkFailed { error }),
            },
            (ProvisionStage::AwaitingRunningRecord, ProvisionEvent::RunningRecorded) => {
                (ProvisionFlow { template, vcpus, mem_mib, stage: ProvisionStage::Finished }, ProvisionAction::Finish { found: true })
            },
            (_, ProvisionEvent::Refused { message }) => {
                (ProvisionFlow { template, vcpus, mem_mib, stage: ProvisionStage::Finished }, ProvisionAction::Fail { message })
            },
            _ => {
                assert(false);
                (ProvisionFlow { template, vcpus, mem_mib, stage: ProvisionStage::Finished }, ProvisionAction::CheckOrganization)
            },
        }
    }
}

} // verus!
