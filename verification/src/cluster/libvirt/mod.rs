//! Virtual machines on libvirt hypervisors: scheduling and the filling-in of their
//! network interfaces.
pub mod controller;
pub mod scheduling;
pub mod utils;
