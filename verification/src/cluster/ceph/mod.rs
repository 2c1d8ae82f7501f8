//! Ceph storage: the images behind volumes and templates, and the key libvirt uses.
pub mod lowlevel;
pub mod volumes;
