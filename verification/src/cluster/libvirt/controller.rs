//! Reconciling virtual machines of resource version v1beta2, whose interfaces keep
//! their generated MAC addresses and OVN port identifiers in the specification.
use vstd::prelude::*;

use crate::cluster::libvirt::utils::{
    all_have_targets, generate_mac_address, is_uuid_v4_text, new_uuid, spec_mac_address,
};
use crate::crd::virtualmachine::v1beta2::{VirtualMachine, VirtualMachineSpec, VirtualMachineStatus};
use crate::crd::virtualmachine::NetworkAttachment;
use crate::text::{clone_opt_string, opt_view};

pub mod node;
pub mod vm;

verus! {

/// Seconds until an object is reconciled again after a reconcile that went through.
pub const RECONCILE_INTERVAL_SECS: u64 = 600;

/// Seconds until an object is reconciled again after a reconcile that failed.
pub const ERROR_RETRY_SECS: u64 = 15;

/// `r` is interface `nic`, number `index` of the virtual machine `vm_name`, with its
/// open fields filled: a generated MAC address when it names none, and a fresh UUID as
/// OVN port identifier when it is on a managed network and names none.
pub open spec fn nic_filled(nic: NetworkAttachment, vm_name: Seq<char>, index: usize, r: NetworkAttachment) -> bool {
    &&& r.name == nic.name
    &&& r.bridge == nic.bridge
    &&& r.queues == nic.queues
    &&& if nic.mac_address is Some {
        r.mac_address == nic.mac_address
    } else {
        opt_view(r.mac_address) == Some(spec_mac_address(vm_name, nic, index))
    }
    &&& if nic.name is Some && nic.ovn_id is None {
        r.ovn_id matches Some(id) && is_uuid_v4_text(id@)
    } else {
        r.ovn_id == nic.ovn_id
    }
}

/// Interface number `index` of the virtual machine `vm_name` with its open fields
/// filled.
fn fill_nic(nic: &NetworkAttachment, vm_name: &str, index: usize) -> (r: NetworkAttachment)
    requires
        nic.name is Some || nic.bridge is Some,
    ensures
        nic_filled(*nic, vm_name@, index, r),
{
    let mac_address = match &nic.mac_address {
        Some(m) => Some(m.clone()),
        None => Some(generate_mac_address(vm_name, nic, index)),
    };
    let ovn_id = if nic.name.is_some() && nic.ovn_id.is_none() {
        Some(new_uuid())
    } else {
        clone_opt_string(&nic.ovn_id)
    };
    NetworkAttachment {
        name: clone_opt_string(&nic.name),
        bridge: clone_opt_string(&nic.bridge),
        mac_address,
        queues: nic.queues,
        ovn_id,
    }
}

/// Fills the open fields of every interface of the virtual machine's specification, in
/// place; the object is then written back.
pub fn fill_nics(vm: &mut VirtualMachine)
    requires
        old(vm).metadata.name is Some,
        old(vm).metadata.namespace is Some,
        all_have_targets(old(vm).spec.networks@),
    ensures
        final(vm).metadata == old(vm).metadata,
        final(vm).status == old(vm).status,
        final(vm).spec == (VirtualMachineSpec { networks: final(vm).spec.networks, ..old(vm).spec }),
        final(vm).spec.networks.len() == old(vm).spec.networks.len(),
        forall|i: int|
            0 <= i < old(vm).spec.networks.len() ==> nic_filled(
                old(vm).spec.networks@[i],
                old(vm).metadata.namespace->0@ + "-"@ + old(vm).metadata.name->0@,
                i as usize,
                #[trigger] final(vm).spec.networks@[i],
            ),
{
    let vm_name = vm.metadata.name_prefixed_with_namespace();
    let ghost unfilled = vm.spec.networks@;
    let mut index: usize = 0;
    while index < vm.spec.networks.len()
        invariant
            index <= vm.spec.networks.len(),
            vm.spec.networks.len() == unfilled.len(),
            all_have_targets(unfilled),
            vm.metadata == old(vm).metadata,
            vm.status == old(vm).status,
            vm.spec == (VirtualMachineSpec { networks: vm.spec.networks, ..old(vm).spec }),
            unfilled == old(vm).spec.networks@,
            vm_name@ == old(vm).metadata.namespace->0@ + "-"@ + old(vm).metadata.name->0@,
            forall|i: int| index <= i < unfilled.len() ==> vm.spec.networks@[i] == unfilled[i],
            forall|i: int|
                0 <= i < index ==> nic_filled(unfilled[i], vm_name@, i as usize, #[trigger] vm.spec.networks@[i]),
        decreases unfilled.len() - index,
    {
        assert(vm.spec.networks@[index as int] == unfilled[index as int]);
        let filled = fill_nic(&vm.spec.networks[index], vm_name.as_str(), index);
        vm.spec.networks.set(index, filled);
        index = index + 1;
    }
}

/// Gives the virtual machine a libvirt UUID, a fresh one, when it has none; says
/// whether it did, that is whether the object must be written back.
pub fn fill_uuid(vm: &mut VirtualMachine) -> (r: bool)
    ensures
        r == old(vm).spec.uuid is None,
        r ==> (final(vm).spec.uuid matches Some(u) && is_uuid_v4_text(u@)),
        !r ==> final(vm).spec.uuid == old(vm).spec.uuid,
        final(vm).spec == (VirtualMachineSpec { uuid: final(vm).spec.uuid, ..old(vm).spec }),
        final(vm).metadata == old(vm).metadata,
        final(vm).status == old(vm).status,
{
    if vm.spec.uuid.is_none() {
        vm.spec.uuid = Some(new_uuid());
        true
    } else {
        false
    }
}

/// The status a reconcile writes before scheduling: the current one, or the default
/// one when the machine has none, named after the machine (`name`) when its domain
/// name is empty.
pub fn status_to_write(status: Option<VirtualMachineStatus>, name: &str) -> (r: VirtualMachineStatus)
    ensures
        match status {
            Some(s) => {
                &&& r.scheduled == s.scheduled
                &&& r.running == s.running
                &&& r.migration_pending == s.migration_pending
                &&& r.node == s.node
                &&& r.ip_addresses == s.ip_addresses
                &&& r.ip_addresses_string == s.ip_addresses_string
                &&& r.domain_name@ == if s.domain_name@.len() == 0 {
                    name@
                } else {
                    s.domain_name@
                }
            },
            None => {
                &&& !r.scheduled
                &&& !r.running
                &&& !r.migration_pending
                &&& r.node is None
                &&& r.ip_addresses is None
                &&& r.ip_addresses_string is None
                &&& r.domain_name@ == name@
            },
        },
{
    let mut s = match status {
        Some(s) => s,
        None => VirtualMachineStatus {
            scheduled: false,
            running: false,
            migration_pending: false,
            node: None,
            domain_name: String::new(),
            ip_addresses: None,
            ip_addresses_string: None,
        },
    };
    if s.domain_name.as_str().is_empty() {
        s.domain_name = name.to_owned();
    }
    s
}

/// The status once the virtual machine is scheduled to the node `node`.
pub fn scheduled_status(status: VirtualMachineStatus, node: String) -> (r: VirtualMachineStatus)
    ensures
        r == (VirtualMachineStatus { scheduled: true, node: Some(node), ..status }),
{
    VirtualMachineStatus { scheduled: true, node: Some(node), ..status }
}

} // verus!
