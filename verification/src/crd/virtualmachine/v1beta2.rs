//! Version v1beta2 of the virtual machine resource.
use vstd::prelude::*;

use crate::crd::virtualmachine::{NetworkAttachment, VolumeAttachment};
use crate::meta::ObjectMeta;

verus! {

/// The spec of a virtual machine.
#[derive(Debug, PartialEq, Eq, Default)]
pub struct VirtualMachineSpec {
    pub cpus: usize,
    pub memory: String,
    pub volumes: Vec<VolumeAttachment>,
    pub networks: Vec<NetworkAttachment>,
    pub uuid: Option<String>,
    pub userdata: Option<String>,
}

/// The status of a virtual machine.
#[derive(Debug, PartialEq, Eq)]
pub struct VirtualMachineStatus {
    pub scheduled: bool,
    pub running: bool,
    pub migration_pending: bool,
    pub node: Option<String>,
    pub domain_name: String,
    pub ip_addresses: Option<Vec<String>>,
    pub ip_addresses_string: Option<String>,
}

/// A virtual machine resource in version v1beta2.
#[derive(Debug, PartialEq, Eq, Default)]
pub struct VirtualMachine {
    pub metadata: ObjectMeta,
    pub spec: VirtualMachineSpec,
    pub status: Option<VirtualMachineStatus>,
}

} // verus!
