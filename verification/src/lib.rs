//! Verified core of a Kubernetes cluster controller for virtual machines, OVN
//! networking and Ceph storage.
pub mod cluster;
pub mod crd;
pub mod errors;
pub mod json;
pub mod meta;
pub mod text;
