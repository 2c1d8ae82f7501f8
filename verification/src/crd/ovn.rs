//! Networks and routers as the OVN controllers read them.
use vstd::prelude::*;

verus! {

/// DHCP service of a network.
#[derive(Debug, PartialEq, Eq, Default)]
pub struct DhcpOptions {
    pub cidr: String,
    pub lease_time: Option<u64>,
    pub dns_server: Option<String>,
    pub domain_name: Option<String>,
    pub router: Option<String>,
}

/// A router connected to a network, with the router's address on it.
#[derive(Debug, PartialEq, Eq, Default)]
pub struct RouterAttachment {
    pub name: String,
    pub address: String,
}

/// The spec of a network.
#[derive(Debug, PartialEq, Eq, Default)]
pub struct NetworkSpec {
    pub dhcp: Option<DhcpOptions>,
    pub routers: Option<Vec<RouterAttachment>>,
}

/// The status of a network.
#[derive(Debug, PartialEq, Eq)]
pub struct NetworkStatus {
    pub is_created: bool,
}

/// A static route of a router.
#[derive(Debug, PartialEq, Eq, Default)]
pub struct Route {
    pub cidr: String,
    pub nexthop: String,
}

/// The spec of a router.
#[derive(Debug, PartialEq, Eq, Default)]
pub struct RouterSpec {
    pub routes: Option<Vec<Route>>,
    pub metadata_service: Option<bool>,
}

/// The status of a router.
#[derive(Debug, PartialEq, Eq)]
pub struct RouterStatus {
    pub is_created: bool,
}

} // verus!
