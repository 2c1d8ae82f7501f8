//! Placing virtual machines on hypervisor nodes: maintenance, migration requests and
//! anti-affinity groups.
use vstd::prelude::*;

use crate::crd::virtualmachine::VirtualMachine;
use crate::errors::Error;
use crate::meta::{pairs_lookup, pairs_without, ObjectMeta};
use crate::text::{opt_str_equal, opt_view, str_equal, string_views};

verus! {

/// The annotation of a virtual machine that asks to move it away from the node it
/// names.
pub const MIGRATION_REQUEST_ANNOTATION: &'static str = "cluster-virt.acl.fi/migration-request";

/// The annotation of a node that is "true" while the node is in maintenance.
pub const MAINTENANCE_ANNOTATION: &'static str = "cluster-virt.acl.fi/maintenance";

/// The label whose value names the anti-affinity group of a virtual machine: no two
/// members of a group run on one node.
pub const ANTI_AFFINITY_LABEL: &'static str = "antiAffinity";

/// A hypervisor node.
#[derive(Debug, PartialEq, Eq, Default)]
pub struct Node {
    pub metadata: ObjectMeta,
}

/// The node a virtual machine is scheduled to, if any.
pub open spec fn spec_vm_node(vm: VirtualMachine) -> Option<Seq<char>> {
    match vm.status {
        Some(s) => opt_view(s.node),
        None => None,
    }
}

/// The node that a virtual machine's migration request asks to leave.
pub open spec fn spec_migration_source(vm: VirtualMachine) -> Option<Seq<char>> {
    pairs_lookup(vm.metadata.annotations@, MIGRATION_REQUEST_ANNOTATION@)
}

/// The anti-affinity group of a virtual machine.
pub open spec fn spec_affinity_group(vm: VirtualMachine) -> Option<Seq<char>> {
    pairs_lookup(vm.metadata.labels@, ANTI_AFFINITY_LABEL@)
}

/// The node a virtual machine is scheduled to; `None` before it is scheduled.
pub fn get_vm_node(vm: &VirtualMachine) -> (r: Option<String>)
    ensures
        opt_view(r) == spec_vm_node(*vm),
{
    match &vm.status {
        Some(status) => crate::text::clone_opt_string(&status.node),
        None => None,
    }
}

/// A migration is requested away from the node the virtual machine runs on.
pub open spec fn spec_migration_requested(vm: VirtualMachine) -> bool {
    match spec_migration_source(vm) {
        Some(n) => spec_vm_node(vm) == Some(n),
        None => false,
    }
}

/// The virtual machine's migration request names a node it no longer runs on: the
/// migration is done.
pub open spec fn spec_migration_completed(vm: VirtualMachine) -> bool {
    match spec_migration_source(vm) {
        Some(n) => spec_vm_node(vm) != Some(n),
        None => false,
    }
}

/// A migration was requested away from the node the virtual machine runs on. A request
/// that names another node (one that was left already) does not count.
pub fn migration_requested(vm: &VirtualMachine) -> (r: bool)
    ensures
        r == spec_migration_requested(*vm),
{
    let current_node = get_vm_node(vm);
    match vm.metadata.annotations.get(MIGRATION_REQUEST_ANNOTATION) {
        Some(node_to_leave) => match &current_node {
            Some(n) => *n == *node_to_leave,
            None => false,
        },
        None => false,
    }
}

/// Removes a migration request that names a node other than the one the virtual
/// machine runs on, the sign of a completed migration, and changes nothing else; says
/// whether it did, that is whether the object must be written back. Whether a
/// migration is requested stays as it was.
pub fn clear_successful_migration(vm: &mut VirtualMachine) -> (r: bool)
    ensures
        r == spec_migration_completed(*old(vm)),
        r ==> final(vm).metadata.annotations@ == pairs_without(
            old(vm).metadata.annotations@,
            MIGRATION_REQUEST_ANNOTATION@,
        ),
        r ==> *final(vm) == (VirtualMachine {
            metadata: ObjectMeta { annotations: final(vm).metadata.annotations, ..old(vm).metadata },
            ..*old(vm)
        }),
        !r ==> *final(vm) == *old(vm),
        spec_migration_requested(*final(vm)) == spec_migration_requested(*old(vm)),
{
    let current_node = get_vm_node(vm);
    let completed = match vm.metadata.annotations.get(MIGRATION_REQUEST_ANNOTATION) {
        Some(node_to_leave) => match &current_node {
            Some(n) => !(*n == *node_to_leave),
            None => true,
        },
        None => false,
    };
    if completed {
        vm.metadata.annotations.remove(MIGRATION_REQUEST_ANNOTATION);
        proof {
            crate::meta::lemma_lookup_after_remove(
                old(vm).metadata.annotations@,
                MIGRATION_REQUEST_ANNOTATION@,
            );
        }
    }
    completed
}

/// A migration request is, at any time, either still to be carried out or completed:
/// exactly one of the two when the virtual machine has one, neither when it has none.
pub proof fn lemma_migration_request_state(vm: VirtualMachine)
    ensures
        spec_migration_source(vm) is Some ==> (spec_migration_requested(vm) <==> !spec_migration_completed(vm)),
        spec_migration_source(vm) is None ==> !spec_migration_requested(vm) && !spec_migration_completed(vm),
{
}

/// Clearing a completed migration removes the request and keeps every other
/// annotation: afterwards no migration is requested or completed.
pub proof fn lemma_cleared_migration(before: VirtualMachine, after: VirtualMachine)
    requires
        spec_migration_completed(before),
        after.metadata.annotations@ == pairs_without(before.metadata.annotations@, MIGRATION_REQUEST_ANNOTATION@),
    ensures
        spec_migration_source(after) is None,
        !spec_migration_requested(after),
        !spec_migration_completed(after),
        forall|k: Seq<char>|
            k != MIGRATION_REQUEST_ANNOTATION@ ==> pairs_lookup(after.metadata.annotations@, k) == pairs_lookup(
                before.metadata.annotations@,
                k,
            ),
{
    crate::meta::lemma_lookup_after_remove(before.metadata.annotations@, MIGRATION_REQUEST_ANNOTATION@);
}

/// The anti-affinity group of a virtual machine, if it is in one.
pub fn affinity_group(vm: &VirtualMachine) -> (r: Option<String>)
    ensures
        opt_view(r) == spec_affinity_group(*vm),
{
    match vm.metadata.labels.get(ANTI_AFFINITY_LABEL) {
        Some(g) => Some(g.clone()),
        None => None,
    }
}

/// "NAMESPACE-NAME" of an object.
pub open spec fn spec_prefixed_name(meta: ObjectMeta) -> Seq<char> {
    meta.namespace->0@ + "-"@ + meta.name->0@
}

/// The object has a name and a namespace.
pub open spec fn named(meta: ObjectMeta) -> bool {
    meta.name is Some && meta.namespace is Some
}

/// The members of a group other than the virtual machine named `self_name`, in order.
pub open spec fn others_in_group(members: Seq<VirtualMachine>, self_name: Seq<char>) -> Seq<VirtualMachine>
    decreases members.len(),
{
    if members.len() == 0 {
        Seq::empty()
    } else {
        let rest = others_in_group(members.drop_first(), self_name);
        if spec_prefixed_name(members[0].metadata) != self_name {
            seq![members[0]] + rest
        } else {
            rest
        }
    }
}

/// The label selector "LABEL=VALUE" that lists the virtual machines whose label
/// `label` has the value `value`.
pub fn label_selector(label: &str, value: &str) -> (r: String)
    ensures
        r@ == label@ + "="@ + value@,
{
    crate::text::concat3(label, "=", value)
}

/// The virtual machines of an anti-affinity group, as listed by its label, other than
/// `ref_vm` itself.
pub fn get_others_in_affinity_group(ref_vm: &VirtualMachine, group_members: Vec<VirtualMachine>) -> (r: Vec<
    VirtualMachine,
>)
    requires
        named(ref_vm.metadata),
        forall|i: int| 0 <= i < group_members.len() ==> named((#[trigger] group_members@[i]).metadata),
    ensures
        r@ == others_in_group(group_members@, spec_prefixed_name(ref_vm.metadata)),
{
    let self_name = ref_vm.metadata.name_prefixed_with_namespace();
    let ghost all = group_members@;
    let mut rest = group_members;
    let mut out: Vec<VirtualMachine> = Vec::new();
    while rest.len() > 0
        invariant
            forall|i: int| 0 <= i < rest.len() ==> named((#[trigger] rest@[i]).metadata),
            self_name@ == spec_prefixed_name(ref_vm.metadata),
            out@ + others_in_group(rest@, self_name@) == others_in_group(all, self_name@),
        decreases rest.len(),
    {
        let ghost before = rest@;
        let vm = rest.remove(0);
        assert(rest@ =~= before.drop_first());
        assert(named(before[0].metadata));
        let name = vm.metadata.name_prefixed_with_namespace();
        if !str_equal(name.as_str(), self_name.as_str()) {
            let ghost out_before = out@;
            out.push(vm);
            assert(out_before + others_in_group(before, self_name@) =~= out@ + others_in_group(
                rest@,
                self_name@,
            ));
        }
        assert(forall|i: int| 0 <= i < rest.len() ==> #[trigger] rest@[i] == before[i + 1]);
    }
    assert(out@ =~= out@ + others_in_group(rest@, self_name@));
    out
}

/// Some other virtual machine runs on the node of `vm`.
pub open spec fn shares_node(vm: VirtualMachine, others: Seq<VirtualMachine>) -> bool {
    exists|i: int|
        0 <= i < others.len() && spec_vm_node(vm) is Some && spec_vm_node(#[trigger] others[i])
            == spec_vm_node(vm)
}

/// A scheduled virtual machine breaks its anti-affinity group when another member of
/// the group, among `others`, is scheduled to the same node. `NoStatusSubresource`
/// before the virtual machine has a status.
pub fn is_uncompliant(vm: &VirtualMachine, others: &Vec<VirtualMachine>) -> (r: Result<bool, Error>)
    ensures
        match vm.status {
            None => r matches Err(e) && e is NoStatusSubresource,
            Some(s) => r matches Ok(b) && b == (s.scheduled && shares_node(*vm, others@)),
        },
{
    let status = vm.try_status()?;
    if status.scheduled {
        let mynode = get_vm_node(vm);
        let mut i: usize = 0;
        while i < others.len()
            invariant
                i <= others.len(),
                vm.status matches Some(s) && s.scheduled,
                opt_view(mynode) == spec_vm_node(*vm),
                forall|j: int|
                    0 <= j < i ==> !(spec_vm_node(*vm) is Some && spec_vm_node(#[trigger] others@[j])
                        == spec_vm_node(*vm)),
            decreases others.len() - i,
        {
            let othernode = get_vm_node(&others[i]);
            if mynode.is_some() && opt_str_equal(&mynode, &othernode) {
                assert(spec_vm_node(others@[i as int]) == spec_vm_node(*vm));
                return Ok(true);
            }
            i = i + 1;
        }
        return Ok(false);
    }
    Ok(false)
}

/// The nodes that the given virtual machines are scheduled to, in order.
pub open spec fn scheduled_nodes(vms: Seq<VirtualMachine>) -> Seq<Seq<char>>
    decreases vms.len(),
{
    if vms.len() == 0 {
        Seq::empty()
    } else {
        let prev = scheduled_nodes(vms.drop_last());
        match spec_vm_node(vms.last()) {
            Some(n) => prev.push(n),
            None => prev,
        }
    }
}

/// The nodes that the given virtual machines, such as the members of a group, are
/// scheduled to.
pub fn get_nodes_with_label_scheduled(vms: &Vec<VirtualMachine>) -> (r: Vec<String>)
    ensures
        string_views(r@) == scheduled_nodes(vms@),
{
    let mut out: Vec<String> = Vec::new();
    let mut i: usize = 0;
    while i < vms.len()
        invariant
            i <= vms.len(),
            string_views(out@) == scheduled_nodes(vms@.take(i as int)),
        decreases vms.len() - i,
    {
        proof {
            assert(vms@.take(i + 1).drop_last() =~= vms@.take(i as int));
        }
        match get_vm_node(&vms[i]) {
            Some(n) => {
                let ghost before = string_views(out@);
                out.push(n);
                assert(string_views(out@) =~= before.push(spec_vm_node(vms@[i as int])->0));
            },
            None => {},
        }
        i = i + 1;
    }
    assert(vms@.take(vms.len() as int) =~= vms@);
    out
}

/// The nodes whose names are not among `names`, in order.
pub open spec fn nodes_not_in(nodes: Seq<Node>, names: Seq<Seq<char>>) -> Seq<Node>
    decreases nodes.len(),
{
    if nodes.len() == 0 {
        Seq::empty()
    } else {
        let rest = nodes_not_in(nodes.drop_first(), names);
        if names.contains(nodes[0].metadata.name->0@) {
            rest
        } else {
            seq![nodes[0]] + rest
        }
    }
}

/// Every node has a name.
pub open spec fn all_named(nodes: Seq<Node>) -> bool {
    forall|i: int| 0 <= i < nodes.len() ==> (#[trigger] nodes[i]).metadata.name is Some
}

/// Removes the nodes named in `nodes_to_remove` from the candidates.
pub fn remove_candidate_nodes(candidates: &mut Vec<Node>, nodes_to_remove: &Vec<String>)
    requires
        all_named(old(candidates)@),
    ensures
        final(candidates)@ == nodes_not_in(old(candidates)@, string_views(nodes_to_remove@)),
{
    let ghost all = candidates@;
    let ghost names = string_views(nodes_to_remove@);
    let mut rest: Vec<Node> = Vec::new();
    std::mem::swap(&mut rest, candidates);
    let mut out: Vec<Node> = Vec::new();
    while rest.len() > 0
        invariant
            all_named(rest@),
            names == string_views(nodes_to_remove@),
            out@ + nodes_not_in(rest@, names) == nodes_not_in(all, names),
        decreases rest.len(),
    {
        let ghost before = rest@;
        let node = rest.remove(0);
        assert(rest@ =~= before.drop_first());
        assert(before[0] == node);
        let name = node.metadata.name.as_ref().unwrap();
        let listed = crate::cluster::ovn::logicalswitchport::contains_string(nodes_to_remove, name);
        if !listed {
            let ghost out_before = out@;
            out.push(node);
            assert(out_before + nodes_not_in(before, names) =~= out@ + nodes_not_in(rest@, names));
        }
        assert(forall|i: int| 0 <= i < rest.len() ==> #[trigger] rest@[i] == before[i + 1]);
    }
    assert(out@ =~= out@ + nodes_not_in(rest@, names));
    *candidates = out;
}

/// The node is in maintenance: its maintenance annotation is "true".
pub open spec fn in_maintenance(node: Node) -> bool {
    pairs_lookup(node.metadata.annotations@, MAINTENANCE_ANNOTATION@) == Some("true"@)
}

/// The nodes that are not in maintenance, in order.
pub open spec fn nodes_not_in_maintenance(nodes: Seq<Node>) -> Seq<Node>
    decreases nodes.len(),
{
    if nodes.len() == 0 {
        Seq::empty()
    } else {
        let rest = nodes_not_in_maintenance(nodes.drop_first());
        if in_maintenance(nodes[0]) {
            rest
        } else {
            seq![nodes[0]] + rest
        }
    }
}

/// Whether a node is in maintenance.
pub fn is_in_maintenance(node: &Node) -> (r: bool)
    ensures
        r == in_maintenance(*node),
{
    match node.metadata.annotations.get(MAINTENANCE_ANNOTATION) {
        Some(v) => str_equal(v.as_str(), "true"),
        None => false,
    }
}

/// Removes the nodes in maintenance from the candidates.
pub fn remove_nodes_in_maintenance(candidates: &mut Vec<Node>)
    ensures
        final(candidates)@ == nodes_not_in_maintenance(old(candidates)@),
{
    let ghost all = candidates@;
    let mut rest: Vec<Node> = Vec::new();
    std::mem::swap(&mut rest, candidates);
    let mut out: Vec<Node> = Vec::new();
    while rest.len() > 0
        invariant
            out@ + nodes_not_in_maintenance(rest@) == nodes_not_in_maintenance(all),
        decreases rest.len(),
    {
        let ghost before = rest@;
        let node = rest.remove(0);
        assert(rest@ =~= before.drop_first());
        assert(before[0] == node);
        if !is_in_maintenance(&node) {
            let ghost out_before = out@;
            out.push(node);
            assert(out_before + nodes_not_in_maintenance(before) =~= out@ + nodes_not_in_maintenance(
                rest@,
            ));
        }
    }
    assert(out@ =~= out@ + nodes_not_in_maintenance(rest@));
    *candidates = out;
}

/// The nodes a virtual machine may be scheduled to: those not in maintenance, not the
/// node its migration request leaves and, unless affinity is ignored, none that a
/// member of its anti-affinity group (`group_members`) is scheduled to.
pub open spec fn schedule_candidates(
    vm: VirtualMachine,
    ignore_affinity: bool,
    nodes: Seq<Node>,
    group_members: Seq<VirtualMachine>,
) -> Seq<Node> {
    let available = nodes_not_in_maintenance(nodes);
    let staying = match spec_migration_source(vm) {
        Some(source) => nodes_not_in(available, seq![source]),
        None => available,
    };
    if !ignore_affinity && spec_affinity_group(vm) is Some {
        nodes_not_in(staying, scheduled_nodes(group_members))
    } else {
        staying
    }
}

/// One index of `indices`, picked at random.
#[verifier::external_body]
fn choose_index(indices: &Vec<usize>) -> (r: Option<usize>)
    ensures
        r is None <==> indices.len() == 0,
        r matches Some(i) ==> indices@.contains(i),
{
    rand::seq::SliceRandom::choose(indices.as_slice(), &mut rand::thread_rng()).copied()
}

/// `nodes_not_in` keeps only nodes of its input, and keeps them named.
proof fn lemma_nodes_not_in_named(nodes: Seq<Node>, names: Seq<Seq<char>>)
    requires
        all_named(nodes),
    ensures
        all_named(nodes_not_in(nodes, names)),
    decreases nodes.len(),
{
    if nodes.len() > 0 {
        lemma_nodes_not_in_named(nodes.drop_first(), names);
        let rest = nodes_not_in(nodes.drop_first(), names);
        assert forall|i: int| 0 <= i < (seq![nodes[0]] + rest).len() implies (#[trigger] (seq![nodes[0]] + rest)[i]).metadata.name is Some by {
            if i > 0 {
                assert((seq![nodes[0]] + rest)[i] == rest[i - 1]);
            }
        }
        assert forall|i: int| 0 <= i < nodes.drop_first().len() implies (#[trigger] nodes.drop_first()[i]).metadata.name is Some by {
            assert(nodes.drop_first()[i] == nodes[i + 1]);
        }
    }
}

/// `nodes_not_in_maintenance` keeps only nodes of its input, and keeps them named.
proof fn lemma_maintenance_named(nodes: Seq<Node>)
    requires
        all_named(nodes),
    ensures
        all_named(nodes_not_in_maintenance(nodes)),
    decreases nodes.len(),
{
    if nodes.len() > 0 {
        assert forall|i: int| 0 <= i < nodes.drop_first().len() implies (#[trigger] nodes.drop_first()[i]).metadata.name is Some by {
            assert(nodes.drop_first()[i] == nodes[i + 1]);
        }
        lemma_maintenance_named(nodes.drop_first());
        let rest = nodes_not_in_maintenance(nodes.drop_first());
        assert forall|i: int| 0 <= i < (seq![nodes[0]] + rest).len() implies (#[trigger] (seq![nodes[0]] + rest)[i]).metadata.name is Some by {
            if i > 0 {
                assert((seq![nodes[0]] + rest)[i] == rest[i - 1]);
            }
        }
    }
}

/// A node stays among `nodes_not_in(nodes, names)` exactly when it is among `nodes`
/// and its name is not among `names`.
proof fn lemma_nodes_not_in_contains(nodes: Seq<Node>, names: Seq<Seq<char>>, n: Node)
    ensures
        nodes_not_in(nodes, names).contains(n) <==> (nodes.contains(n) && !names.contains(
            n.metadata.name->0@,
        )),
    decreases nodes.len(),
{
    if nodes.len() > 0 {
        lemma_nodes_not_in_contains(nodes.drop_first(), names, n);
        let rest = nodes_not_in(nodes.drop_first(), names);
        assert(nodes =~= seq![nodes[0]] + nodes.drop_first());
        if nodes.contains(n) && n != nodes[0] {
            let i = choose|i: int| 0 <= i < nodes.len() && nodes[i] == n;
            assert(nodes.drop_first()[i - 1] == n);
        }
        if nodes.drop_first().contains(n) {
            let i = choose|i: int| 0 <= i < nodes.drop_first().len() && nodes.drop_first()[i] == n;
            assert(nodes[i + 1] == n);
        }
        if !names.contains(nodes[0].metadata.name->0@) {
            let with = seq![nodes[0]] + rest;
            assert(with[0] == nodes[0]);
            if rest.contains(n) {
                let i = choose|i: int| 0 <= i < rest.len() && rest[i] == n;
                assert(with[i + 1] == n);
            }
            if with.contains(n) && n != nodes[0] {
                let i = choose|i: int| 0 <= i < with.len() && with[i] == n;
                assert(rest[i - 1] == n);
            }
        }
    }
}

/// A node stays among `nodes_not_in_maintenance(nodes)` exactly when it is among
/// `nodes` and not in maintenance.
proof fn lemma_maintenance_contains(nodes: Seq<Node>, n: Node)
    ensures
        nodes_not_in_maintenance(nodes).contains(n) <==> (nodes.contains(n) && !in_maintenance(n)),
    decreases nodes.len(),
{
    if nodes.len() > 0 {
        lemma_maintenance_contains(nodes.drop_first(), n);
        let rest = nodes_not_in_maintenance(nodes.drop_first());
        if nodes.contains(n) && n != nodes[0] {
            let i = choose|i: int| 0 <= i < nodes.len() && nodes[i] == n;
            assert(nodes.drop_first()[i - 1] == n);
        }
        if nodes.drop_first().contains(n) {
            let i = choose|i: int| 0 <= i < nodes.drop_first().len() && nodes.drop_first()[i] == n;
            assert(nodes[i + 1] == n);
        }
        if !in_maintenance(nodes[0]) {
            let with = seq![nodes[0]] + rest;
            assert(with[0] == nodes[0]);
            if rest.contains(n) {
                let i = choose|i: int| 0 <= i < rest.len() && rest[i] == n;
                assert(with[i + 1] == n);
            }
            if with.contains(n) && n != nodes[0] {
                let i = choose|i: int| 0 <= i < with.len() && with[i] == n;
                assert(rest[i - 1] == n);
            }
        }
    }
}

/// The scheduling rules: a node is a candidate for a virtual machine exactly when it is
/// one of the nodes, it is not in maintenance, it is not the node that the machine's
/// migration request leaves, and, unless anti-affinity is ignored, no member of the
/// machine's anti-affinity group is scheduled to it.
pub proof fn lemma_schedule_rules(
    vm: VirtualMachine,
    ignore_affinity: bool,
    nodes: Seq<Node>,
    group_members: Seq<VirtualMachine>,
    n: Node,
)
    ensures
        schedule_candidates(vm, ignore_affinity, nodes, group_members).contains(n) <==> {
            &&& nodes.contains(n)
            &&& !in_maintenance(n)
            &&& (spec_migration_source(vm) matches Some(source) ==> n.metadata.name->0@ != source)
            &&& (!ignore_affinity && spec_affinity_group(vm) is Some ==> !scheduled_nodes(
                group_members,
            ).contains(n.metadata.name->0@))
        },
{
    let available = nodes_not_in_maintenance(nodes);
    lemma_maintenance_contains(nodes, n);
    let staying = match spec_migration_source(vm) {
        Some(source) => nodes_not_in(available, seq![source]),
        None => available,
    };
    match spec_migration_source(vm) {
        Some(source) => {
            lemma_nodes_not_in_contains(available, seq![source], n);
            assert(seq![source].contains(n.metadata.name->0@) <==> n.metadata.name->0@ == source) by {
                if seq![source].contains(n.metadata.name->0@) {
                    let i = choose|i: int| 0 <= i < 1 && seq![source][i] == n.metadata.name->0@;
                }
                if n.metadata.name->0@ == source {
                    assert(seq![source][0] == source);
                }
            }
        },
        None => {},
    }
    if !ignore_affinity && spec_affinity_group(vm) is Some {
        lemma_nodes_not_in_contains(staying, scheduled_nodes(group_members), n);
    }
}

/// Ignoring anti-affinity never takes a candidate away, for any nodes and any virtual
/// machine: every candidate when affinity counts is one when it is ignored, so where
/// scheduling with affinity finds a node, scheduling without it finds one too, and
/// where scheduling without affinity fails, scheduling with it fails too.
pub proof fn lemma_ignoring_affinity_keeps_candidates(
    vm: VirtualMachine,
    nodes: Seq<Node>,
    group_members: Seq<VirtualMachine>,
)
    ensures
        forall|n: Node|
            #[trigger] schedule_candidates(vm, false, nodes, group_members).contains(n)
                ==> schedule_candidates(vm, true, nodes, group_members).contains(n),
        schedule_candidates(vm, false, nodes, group_members).len() > 0 ==> schedule_candidates(
            vm,
            true,
            nodes,
            group_members,
        ).len() > 0,
        schedule_candidates(vm, true, nodes, group_members).len() == 0 ==> schedule_candidates(
            vm,
            false,
            nodes,
            group_members,
        ).len() == 0,
{
    assert forall|n: Node|
        #[trigger] schedule_candidates(vm, false, nodes, group_members).contains(n)
            implies schedule_candidates(vm, true, nodes, group_members).contains(n) by {
        lemma_schedule_rules(vm, false, nodes, group_members, n);
        lemma_schedule_rules(vm, true, nodes, group_members, n);
    }
    let with_affinity = schedule_candidates(vm, false, nodes, group_members);
    if with_affinity.len() > 0 {
        assert(with_affinity.contains(with_affinity[0]));
    }
}

/// Schedules a virtual machine: one of its candidate nodes, picked at random, or
/// `ScheduleFailed` with its name when no node is a candidate. `group_members` are the
/// virtual machines that carry the machine's anti-affinity label, as listed by it.
pub fn schedule(vm: &VirtualMachine, ignore_affinity: bool, nodes: Vec<Node>, group_members: &Vec<VirtualMachine>) -> (r:
    Result<Node, Error>)
    requires
        all_named(nodes@),
        schedule_candidates(*vm, ignore_affinity, nodes@, group_members@).len() == 0 ==> vm.metadata.name is Some,
    ensures
        match r {
            Ok(n) => schedule_candidates(*vm, ignore_affinity, nodes@, group_members@).contains(n),
            Err(e) => schedule_candidates(*vm, ignore_affinity, nodes@, group_members@).len() == 0
                && (e matches Error::ScheduleFailed(name) && name@ == vm.metadata.name->0@),
        },
{
    let mut candidates = nodes;
    proof {
        lemma_maintenance_named(candidates@);
    }
    remove_nodes_in_maintenance(&mut candidates);
    match vm.metadata.annotations.get(MIGRATION_REQUEST_ANNOTATION) {
        Some(source_node) => {
            let source = vec![source_node.clone()];
            assert(string_views(source@) =~= seq![source_node@]);
            proof {
                lemma_nodes_not_in_named(candidates@, seq![source_node@]);
            }
            remove_candidate_nodes(&mut candidates, &source);
        },
        None => {},
    }
    if !ignore_affinity {
        match affinity_group(vm) {
            Some(_) => {
                let blocked_nodes = get_nodes_with_label_scheduled(group_members);
                remove_candidate_nodes(&mut candidates, &blocked_nodes);
            },
            None => {},
        }
    }
    assert(candidates@ == schedule_candidates(*vm, ignore_affinity, nodes@, group_members@));
    let mut indices: Vec<usize> = Vec::new();
    let mut i: usize = 0;
    while i < candidates.len()
        invariant
            i <= candidates.len(),
            indices.len() == i,
            forall|k: int| 0 <= k < i ==> indices@[k] == k,
        decreases candidates.len() - i,
    {
        indices.push(i);
        i = i + 1;
    }
    match choose_index(&indices) {
        Some(chosen) => {
            let ghost before = candidates@;
            let node = candidates.remove(chosen);
            assert(before[chosen as int] == node);
            Ok(node)
        },
        None => Err(Error::ScheduleFailed(vm.metadata.name.as_ref().unwrap().clone())),
    }
}

} // verus!
