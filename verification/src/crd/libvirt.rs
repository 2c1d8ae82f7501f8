//! Virtual machines as the first libvirt controllers declared them.
use vstd::prelude::*;

pub mod v1beta2;
pub mod v1beta3;

verus! {

/// A quantity with a unit suffix, such as "1 Gi".
#[derive(Debug, PartialEq, Eq, Default)]
pub struct Quantity(pub String);

/// A volume attached to a virtual machine.
#[derive(Debug, PartialEq, Eq, Default)]
pub struct VolumeAttachment {
    pub name: String,
}

/// A network interface of a virtual machine: a managed network or a host bridge.
#[derive(Debug, PartialEq, Eq, Default)]
pub struct NetworkAttachment {
    pub name: Option<String>,
    pub bridge: Option<String>,
    pub mac_address: Option<String>,
    pub ovn_id: Option<String>,
}

} // verus!
