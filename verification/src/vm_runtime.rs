//! What the hypervisor port takes and gives back.

use vstd::prelude::*;

verus! {

/// What the runtime needs in order to boot a microVM. Built by the application service from
/// a VM aggregate; the runtime resolves the template name to a concrete rootfs and kernel.
#[derive(Clone, Debug, PartialEq, Eq)]
pub struct VmSpec {
    pub id: String,
    pub template: String,
    pub vcpus: u32,
    pub mem_mib: u32,
}

/// What the runtime reports back once a microVM has booted.
#[derive(Clone, Debug, PartialEq, Eq)]
pub struct RuntimeHandle {
    pub guest_ip: String,
    pub pid: i64,
}

/// Why the runtime could not do what it was asked.
#[derive(Debug)]
pub enum VmRuntimeError {
    Runtime(String),
}

impl VmRuntimeError {
    /// `"vm runtime error: <detail>"`.
    pub fn message(&self) -> (m: String)
        ensures
            m@ == "vm runtime error: "@ + match self {
                VmRuntimeError::Runtime(detail) => detail@,
            },
    {
        match self {
            VmRuntimeError::Runtime(detail) => String::from_str("vm runtime error: ").concat(
                detail.as_str(),
            ),
        }
    }
}

} // verus!
