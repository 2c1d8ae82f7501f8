//! The workloads that the cluster controller runs on its nodes.
pub mod ovn;
pub mod ovn_services;
