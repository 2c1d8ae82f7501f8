//! Hypervisor nodes.
use vstd::prelude::*;

pub mod v1beta1;

verus! {

} // verus!
