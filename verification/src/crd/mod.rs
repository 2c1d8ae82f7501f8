//! The custom resources of the cluster: their specs and statuses.
pub mod ceph;
pub mod cluster;
pub mod libvirt;
pub mod libvirtnode;
pub mod network;
pub mod ovn;
pub mod router;
pub mod utils;
pub mod virtualmachine;
