//! Cluster-wide virtualization settings.
use vstd::prelude::*;

verus! {

/// The spec of a cluster: the machine type (such as "pc-q35-rhel8.3.0") and the CPU
/// definition of its virtual machines.
#[derive(Debug, PartialEq, Eq, Default)]
pub struct ClusterSpec {
    pub machine_type: String,
    pub cpu: String,
}

/// The status of a cluster.
#[derive(Debug, PartialEq, Eq)]
pub struct ClusterStatus {}

} // verus!
