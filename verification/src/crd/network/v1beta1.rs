//! Version v1beta1 of the network resource.
use vstd::prelude::*;

use crate::crd::network::{DhcpOptions, NetworkType, RouterAttachment};

verus! {

/// The spec of a network.
#[derive(Debug, PartialEq, Eq, Default)]
pub struct NetworkSpec {
    /// DHCP service for this network.
    pub dhcp: Option<DhcpOptions>,
    /// Routers connected to this network.
    pub routers: Option<Vec<RouterAttachment>>,
    /// The kind of network; OVN when not given.
    pub network_type: Option<NetworkType>,
    /// The id of the network, whose meaning depends on its kind (VLAN ID, EVPN VNI).
    pub network_id: Option<usize>,
    /// The bridge that the network exists on.
    pub bridge: Option<String>,
}

/// The status of a network.
#[derive(Debug, PartialEq, Eq)]
pub struct NetworkStatus {
    pub is_created: bool,
}

} // verus!
