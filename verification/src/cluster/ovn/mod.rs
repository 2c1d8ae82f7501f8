//! The OVN northbound database: the operations the controllers send and the rows
//! they read back.
pub mod deserialization;
pub mod ops;
pub mod common;
pub mod lowlevel;
pub mod staticroute;
pub mod dhcpoptions;
pub mod logicalswitch;
pub mod logicalswitchport;
pub mod logicalrouterport;
pub mod types;
pub mod jsonrpc;
pub mod logicalrouter;
pub mod controller;
