//! Version v1beta3 of the virtual machine resource.
use vstd::prelude::*;

use crate::crd::virtualmachine::{NetworkAttachment, VolumeAttachment};

verus! {

/// How the controller powers a virtual machine.
#[derive(Debug, PartialEq, Eq, Clone, Copy)]
pub enum PowerAction {
    /// Power on at once and restart it when it stops.
    PowerOn,
    /// Send an ACPI shutdown and do not restart it.
    Shutdown,
    /// Power off at once and do not restart it.
    PowerOff,
    /// Neither start nor stop it.
    Manual,
}

/// The spec of a virtual machine.
#[derive(Debug, PartialEq, Eq, Default)]
pub struct VirtualMachineSpec {
    pub cpus: usize,
    pub cpu_model: Option<String>,
    /// A quantity such as "1 Gi".
    pub memory: String,
    pub volumes: Vec<VolumeAttachment>,
    pub networks: Vec<NetworkAttachment>,
    pub uuid: Option<String>,
    pub userdata: Option<String>,
    pub compatibility_mode: Option<bool>,
    pub node: Option<String>,
    /// The power control behaviour; `PowerOn` when not given.
    pub power_action: Option<PowerAction>,
    pub machine_type: Option<String>,
}

/// The status of a virtual machine.
#[derive(Debug, PartialEq, Eq)]
pub struct VirtualMachineStatus {
    pub scheduled: bool,
    pub running: bool,
    pub migration_pending: bool,
    pub node: Option<String>,
    pub domain_name: String,
    pub ip_addresses: Option<Vec<String>>,
    pub ip_addresses_string: Option<String>,
    pub networks: Vec<NetworkAttachment>,
}

impl VirtualMachineSpec {
    /// The power action that the spec asks for, `PowerOn` when it asks for none.
    pub fn get_power_action(&self) -> (r: PowerAction)
        ensures
            r == match self.power_action {
                Some(a) => a,
                None => PowerAction::PowerOn,
            },
    {
        if let Some(action) = self.power_action.as_ref() {
            *action
        } else {
            PowerAction::PowerOn
        }
    }
}

} // verus!
