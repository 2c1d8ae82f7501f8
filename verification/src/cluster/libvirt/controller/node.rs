//! The decisions of the node controller: a node put into maintenance asks every
//! virtual machine on it to migrate away.
use vstd::prelude::*;

use crate::cluster::libvirt::scheduling::{
    spec_migration_requested, spec_migration_source, spec_vm_node, Node, MAINTENANCE_ANNOTATION,
    MIGRATION_REQUEST_ANNOTATION,
};
use crate::crd::virtualmachine::VirtualMachine;
use crate::errors::Error;
use crate::meta::pairs_lookup;
use crate::text::opt_view;

verus! {

/// The character in lower case, for ASCII letters.
pub open spec fn ascii_lower(c: char) -> char {
    if 'A' <= c && c <= 'Z' {
        ((c as u32) + 32) as char
    } else {
        c
    }
}

/// `s` equals `lower`, a text in lower case, when its ASCII letters are put in lower
/// case.
pub open spec fn equals_ignoring_ascii_case(s: Seq<char>, lower: Seq<char>) -> bool {
    s.len() == lower.len() && forall|i: int| 0 <= i < s.len() ==> ascii_lower(#[trigger] s[i]) == lower[i]
}

/// Whether `c` is `lower` or its upper-case form `upper`.
fn is_letter(c: char, lower: char, upper: char) -> (r: bool)
    requires
        'a' <= lower && lower <= 'z',
        upper as u32 == lower as u32 - 32,
    ensures
        r == (ascii_lower(c) == lower),
{
    c == lower || c == upper
}

/// Whether `s` reads "true" in any mix of upper and lower case.
fn is_true_text(s: &str) -> (r: bool)
    ensures
        r == equals_ignoring_ascii_case(s@, "true"@),
{
    proof {
        reveal_strlit("true");
    }
    let chars = crate::text::chars_of(s);
    if chars.len() != 4 {
        return false;
    }
    let a = is_letter(chars[0], 't', 'T');
    let b = is_letter(chars[1], 'r', 'R');
    let c = is_letter(chars[2], 'u', 'U');
    let d = is_letter(chars[3], 'e', 'E');
    proof {
        assert(chars@ == s@);
        if !(a && b && c && d) {
            assert(!equals_ignoring_ascii_case(s@, "true"@));
        }
    }
    a && b && c && d
}

/// The node asks for maintenance: its maintenance annotation reads "true", in any case.
pub open spec fn maintenance_requested_spec(node: Node) -> bool {
    match pairs_lookup(node.metadata.annotations@, MAINTENANCE_ANNOTATION@) {
        Some(v) => equals_ignoring_ascii_case(v, "true"@),
        None => false,
    }
}

/// Whether the node asks for maintenance, so that its virtual machines must leave it.
pub fn maintenance_requested(node: &Node) -> (r: bool)
    ensures
        r == maintenance_requested_spec(*node),
{
    match node.metadata.annotations.get(MAINTENANCE_ANNOTATION) {
        Some(v) => is_true_text(v.as_str()),
        None => false,
    }
}

/// Asks the virtual machine to migrate away from the node `node_name` when it is
/// scheduled there: sets its migration request annotation to the node's name, and says
/// whether it did, that is whether the object must be written back.
/// `NoStatusSubresource` before the machine has a status.
pub fn request_reschedule(vm: &mut VirtualMachine, node_name: &str) -> (r: Result<bool, Error>)
    ensures
        final(vm).metadata.labels == old(vm).metadata.labels,
        final(vm).metadata.name == old(vm).metadata.name,
        final(vm).metadata.namespace == old(vm).metadata.namespace,
        final(vm).spec == old(vm).spec,
        final(vm).status == old(vm).status,
        match old(vm).status {
            None => (r matches Err(e) && e is NoStatusSubresource) && final(vm).metadata.annotations
                == old(vm).metadata.annotations,
            Some(_) => r matches Ok(moved) && moved == (spec_vm_node(*old(vm)) == Some(node_name@))
                && if moved {
                pairs_lookup(final(vm).metadata.annotations@, MIGRATION_REQUEST_ANNOTATION@) == Some(
                    node_name@,
                ) && forall|k: Seq<char>|
                    k != MIGRATION_REQUEST_ANNOTATION@ ==> pairs_lookup(final(vm).metadata.annotations@, k)
                        == pairs_lookup(old(vm).metadata.annotations@, k)
            } else {
                final(vm).metadata.annotations == old(vm).metadata.annotations
            },
        },
{
    let scheduled_here = {
        let status = vm.try_status()?;
        match &status.node {
            Some(n) => crate::text::str_equal(n.as_str(), node_name),
            None => false,
        }
    };
    proof {
        assert(opt_view(old(vm).status->0.node) == spec_vm_node(*old(vm)));
    }
    if scheduled_here {
        vm.metadata.annotations.insert(MIGRATION_REQUEST_ANNOTATION.to_owned(), node_name.to_owned());
    }
    Ok(scheduled_here)
}

/// A virtual machine asked to leave its node by `request_reschedule` has a migration
/// requested away from that node, which the scheduler then no longer offers it.
pub proof fn lemma_reschedule_requests_migration(before: VirtualMachine, after: VirtualMachine, node_name: Seq<char>)
    requires
        spec_vm_node(before) == Some(node_name),
        after.status == before.status,
        pairs_lookup(after.metadata.annotations@, MIGRATION_REQUEST_ANNOTATION@) == Some(node_name),
    ensures
        spec_migration_source(after) == Some(node_name),
        spec_migration_requested(after),
{
}

} // verus!
