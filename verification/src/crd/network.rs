//! Networks.
use vstd::prelude::*;

pub mod v1beta1;

verus! {

/// DHCP service of a network.
#[derive(Debug, PartialEq, Eq, Default)]
pub struct DhcpOptions {
    pub cidr: String,
    pub lease_time: Option<u64>,
    pub dns_server: Option<String>,
    pub domain_name: Option<String>,
    pub router: Option<String>,
}

/// A router connected to a network, with the router's address on it.
#[derive(Debug, PartialEq, Eq, Default)]
pub struct RouterAttachment {
    pub name: String,
    pub address: String,
}

/// The kind of a network.
#[derive(Debug, PartialEq, Eq, Default)]
pub enum NetworkType {
    #[default]
    Ovn,
    Evpn,
}

} // verus!
