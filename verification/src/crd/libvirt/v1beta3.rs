//! Version v1beta3 of the virtual machine resource.
use vstd::prelude::*;

use crate::crd::libvirt::{NetworkAttachment, VolumeAttachment};

verus! {

/// The spec of a virtual machine.
#[derive(Debug, PartialEq, Eq, Default)]
pub struct VirtualMachineSpec {
    pub cpus: usize,
    pub memory: String,
    pub volumes: Vec<VolumeAttachment>,
    pub networks: Vec<NetworkAttachment>,
    pub uuid: Option<String>,
    pub userdata: Option<String>,
}

/// The status of a virtual machine: since this version it keeps the filled-in network
/// interfaces.
#[derive(Debug, PartialEq, Eq)]
pub struct VirtualMachineStatus {
    pub scheduled: bool,
    pub running: bool,
    pub migration_pending: bool,
    pub node: Option<String>,
    pub domain_name: String,
    pub ip_addresses: Option<Vec<String>>,
    pub ip_addresses_string: Option<String>,
    pub networks: Vec<NetworkAttachment>,
}

} // verus!
