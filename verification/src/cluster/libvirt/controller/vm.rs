//! The decisions of the virtual machine controller: what a reconcile writes, and when
//! and how a machine is (re)scheduled.
use vstd::prelude::*;

use crate::cluster::libvirt::scheduling::Node;
use crate::crd::virtualmachine::v1beta3::VirtualMachineStatus;
use crate::crd::virtualmachine::VirtualMachine;
use crate::errors::Error;

verus! {

/// The status given to a virtual machine that has none: not scheduled, not running, no
/// migration pending, no node, no addresses, no interfaces, and a domain named `name`.
pub open spec fn is_initial_status(r: VirtualMachineStatus, name: Seq<char>) -> bool {
    &&& !r.scheduled
    &&& !r.running
    &&& !r.migration_pending
    &&& r.node is None
    &&& r.domain_name@ == name
    &&& r.ip_addresses is None
    &&& r.ip_addresses_string is None
    &&& r.networks@.len() == 0
}

/// The status a virtual machine without one is given.
pub fn initial_status(name: &str) -> (r: VirtualMachineStatus)
    ensures
        is_initial_status(r, name@),
{
    VirtualMachineStatus {
        scheduled: false,
        running: false,
        migration_pending: false,
        node: None,
        domain_name: name.to_owned(),
        ip_addresses: None,
        ip_addresses_string: None,
        networks: Vec::new(),
    }
}

/// How a reconcile of a virtual machine begins.
pub enum ReconcileStart {
    /// The machine is being deleted: nothing is done until the next reconcile.
    WaitForDeletion,
    /// The machine has no status: this one is written first.
    SetInitialStatus(VirtualMachineStatus),
    /// The machine has a status already.
    Continue,
}

/// How a reconcile of `vm` begins: a machine being deleted is left alone; one without a
/// status gets the initial status, with its domain named "NAMESPACE-NAME".
pub fn reconcile_start(vm: &VirtualMachine) -> (r: ReconcileStart)
    requires
        vm.metadata.name is Some,
        vm.metadata.namespace is Some,
    ensures
        vm.metadata.deletion_timestamp is Some ==> r is WaitForDeletion,
        vm.metadata.deletion_timestamp is None && vm.status is None ==> (r matches ReconcileStart::SetInitialStatus(
            s,
        ) && is_initial_status(s, vm.metadata.namespace->0@ + "-"@ + vm.metadata.name->0@)),
        vm.metadata.deletion_timestamp is None && vm.status is Some ==> r is Continue,
{
    if vm.metadata.deletion_timestamp.is_some() {
        return ReconcileStart::WaitForDeletion;
    }
    if vm.status.is_none() {
        let name = vm.metadata.name_prefixed_with_namespace();
        return ReconcileStart::SetInitialStatus(initial_status(name.as_str()));
    }
    ReconcileStart::Continue
}

/// A machine is scheduled when it has not been yet, when a migration away from its node
/// is required, or when it must be rescheduled because it breaks its anti-affinity
/// group.
pub fn needs_scheduling(status: &VirtualMachineStatus, migration_required: bool, reschedule_required: bool) -> (r:
    bool)
    ensures
        r == (!status.scheduled || migration_required || reschedule_required),
{
    !status.scheduled || migration_required || reschedule_required
}

/// What follows an attempt to schedule a virtual machine.
pub enum ScheduleOutcome {
    /// The machine is scheduled: this status is written.
    Scheduled(VirtualMachineStatus),
    /// The attempt that kept to anti-affinity failed during a required migration: the
    /// machine is scheduled again, ignoring anti-affinity.
    RetryIgnoringAffinity,
    /// Scheduling failed with this error.
    Failed(Error),
}

/// What follows an attempt to schedule a virtual machine with status `status`: on
/// success the status names the node, is scheduled and, when a migration was required,
/// has a migration pending; a failure during a required migration is retried once,
/// ignoring anti-affinity; any other failure is the reconcile's error.
pub fn after_schedule_attempt(
    status: VirtualMachineStatus,
    migration_required: bool,
    ignored_affinity: bool,
    attempt: Result<Node, Error>,
) -> (r: ScheduleOutcome)
    requires
        attempt matches Ok(n) ==> n.metadata.name is Some,
    ensures
        match attempt {
            Ok(n) => r matches ScheduleOutcome::Scheduled(t) && t == (VirtualMachineStatus {
                scheduled: true,
                node: n.metadata.name,
                migration_pending: status.migration_pending || migration_required,
                ..status
            }),
            Err(e) => if migration_required && !ignored_affinity {
                r is RetryIgnoringAffinity
            } else {
                r == ScheduleOutcome::Failed(e)
            },
        },
{
    match attempt {
        Ok(n) => {
            let migration_pending = status.migration_pending || migration_required;
            ScheduleOutcome::Scheduled(
                VirtualMachineStatus { scheduled: true, node: n.metadata.name, migration_pending, ..status },
            )
        },
        Err(e) => {
            if migration_required && !ignored_affinity {
                ScheduleOutcome::RetryIgnoringAffinity
            } else {
                ScheduleOutcome::Failed(e)
            }
        },
    }
}

} // verus!
