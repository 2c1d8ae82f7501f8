//! Cluster-side logic: OVN networking, libvirt scheduling and Ceph storage.
pub mod ceph;
pub mod controllers;
pub mod daemonset;
pub mod libvirt;
pub mod manifest;
pub mod ovn;
