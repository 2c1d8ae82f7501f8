//! The central OVN services.
pub mod ovn_central;
