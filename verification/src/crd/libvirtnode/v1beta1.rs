//! Version v1beta1 of the hypervisor node resource.
use vstd::prelude::*;

verus! {

/// The spec of a hypervisor node.
#[derive(Debug, PartialEq, Eq, Default)]
pub struct LibvirtNodeSpec {}

/// The status of a hypervisor node: the capabilities that libvirt reports.
#[derive(Debug, PartialEq, Eq, Default)]
pub struct LibvirtNodeStatus {
    pub capabilities: String,
}

} // verus!
