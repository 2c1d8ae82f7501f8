//! Filling in what a virtual machine's specification leaves open: MAC addresses of
//! its network interfaces, OVN port identifiers and the libvirt UUID.
use vstd::prelude::*;
use vstd::utf8::encode_utf8;

use crate::crd::virtualmachine::v1beta3::VirtualMachineSpec;
use crate::crd::virtualmachine::{NetworkAttachment, VirtualMachine};
use crate::errors::Error;
use crate::text::{clone_opt_string, hex_digit, hex_octet, opt_str_equal, opt_view, push_str, u8_to_hex};

verus! {

/// The first three octets of every generated MAC address.
pub const MAC_PREFIX: &'static str = "52:54:00";

/// The SHA-256 digest of a byte string.
pub uninterp spec fn spec_sha256(data: Seq<u8>) -> Seq<u8>;

/// `sha2::Sha256::digest`: the SHA-256 digest of `data`, which is 32 bytes long.
#[verifier::external_body]
fn sha256(data: &Vec<u8>) -> (r: Vec<u8>)
    ensures
        r@ == spec_sha256(data@),
        r.len() == 32,
{
    <sha2::Sha256 as sha2::Digest>::digest(data.as_slice()).to_vec()
}

/// A lower-case hexadecimal digit.
pub open spec fn is_lower_hex(c: char) -> bool {
    ('0' <= c && c <= '9') || ('a' <= c && c <= 'f')
}

/// The hyphenated lower-case text of a UUID: 32 hexadecimal digits in groups of 8, 4,
/// 4, 4 and 12, separated by hyphens.
pub open spec fn is_uuid_text(s: Seq<char>) -> bool {
    &&& s.len() == 36
    &&& forall|i: int|
        0 <= i < 36 ==> if i == 8 || i == 13 || i == 18 || i == 23 {
            #[trigger] s[i] == '-'
        } else {
            is_lower_hex(s[i])
        }
}

/// The hyphenated lower-case text of a random (version 4) UUID: its version digit,
/// the first of the third group, is 4, and its variant digit, the first of the fourth
/// group, is 8, 9, a or b.
pub open spec fn is_uuid_v4_text(s: Seq<char>) -> bool {
    &&& is_uuid_text(s)
    &&& s[14] == '4'
    &&& (s[19] == '8' || s[19] == '9' || s[19] == 'a' || s[19] == 'b')
}

/// `uuid::Uuid::new_v4`, written with `hyphenated().encode_lower(..)`: a random version 4
/// UUID of the RFC 4122 variant, in hyphenated lower-case text. Which UUID comes back is
/// left open.
#[verifier::external_body]
pub(crate) fn new_uuid() -> (r: String)
    ensures
        is_uuid_v4_text(r@),
{
    String::from(uuid::Uuid::new_v4().hyphenated().encode_lower(&mut uuid::Uuid::encode_buffer()))
}

/// The interface has a target: a network name or a bridge.
pub open spec fn has_target(nic: NetworkAttachment) -> bool {
    nic.name is Some || nic.bridge is Some
}

/// The network name of an interface, or its bridge when it has no network name.
pub open spec fn nic_target(nic: NetworkAttachment) -> Seq<char> {
    match nic.name {
        Some(n) => n@,
        None => nic.bridge->0@,
    }
}

/// What is hashed for the MAC address of an interface: the UTF-8 bytes of the virtual
/// machine's name and of the interface's target, then the low byte of its index.
pub open spec fn mac_hash_input(vm_name: Seq<char>, target: Seq<char>, index: usize) -> Seq<u8> {
    encode_utf8(vm_name) + encode_utf8(target) + seq![index as u8]
}

/// The MAC address made of a hash: the fixed prefix and the bytes at positions 29, 30
/// and 31, each as two hexadecimal digits.
pub open spec fn mac_from_hash(hash: Seq<u8>) -> Seq<char> {
    MAC_PREFIX@ + ":"@ + hex_octet(hash[29]) + ":"@ + hex_octet(hash[30]) + ":"@ + hex_octet(hash[31])
}

/// A MAC address in lower-case text: six octets of two hexadecimal digits each,
/// separated by colons.
pub open spec fn is_mac_text(s: Seq<char>) -> bool {
    &&& s.len() == 17
    &&& forall|i: int|
        0 <= i < 17 ==> if i % 3 == 2 {
            #[trigger] s[i] == ':'
        } else {
            is_lower_hex(s[i])
        }
}

proof fn lemma_hex_digit_is_lower_hex(d: nat)
    requires
        d < 16,
    ensures
        is_lower_hex(hex_digit(d)),
{
}

/// Every MAC address made of a hash is a MAC address text that starts with the fixed
/// prefix.
pub proof fn lemma_mac_from_hash_is_mac(hash: Seq<u8>)
    requires
        hash.len() >= 32,
    ensures
        is_mac_text(mac_from_hash(hash)),
        mac_from_hash(hash).take(8) == MAC_PREFIX@,
{
    reveal_strlit("52:54:00");
    reveal_strlit(":");
    let m = mac_from_hash(hash);
    let digits = seq![
        hex_digit((hash[29] / 16) as nat),
        hex_digit((hash[29] % 16) as nat),
        hex_digit((hash[30] / 16) as nat),
        hex_digit((hash[30] % 16) as nat),
        hex_digit((hash[31] / 16) as nat),
        hex_digit((hash[31] % 16) as nat),
    ];
    assert(m =~= seq!['5', '2', ':', '5', '4', ':', '0', '0', ':', digits[0], digits[1], ':', digits[2], digits[3], ':', digits[4], digits[5]]);
    lemma_hex_digit_is_lower_hex((hash[29] / 16) as nat);
    lemma_hex_digit_is_lower_hex((hash[29] % 16) as nat);
    lemma_hex_digit_is_lower_hex((hash[30] / 16) as nat);
    lemma_hex_digit_is_lower_hex((hash[30] % 16) as nat);
    lemma_hex_digit_is_lower_hex((hash[31] / 16) as nat);
    lemma_hex_digit_is_lower_hex((hash[31] % 16) as nat);
    assert(m.take(8) =~= MAC_PREFIX@);
}

/// The MAC address generated for interface number `index` of a virtual machine.
pub open spec fn spec_mac_address(vm_name: Seq<char>, nic: NetworkAttachment, index: usize) -> Seq<char> {
    mac_from_hash(spec_sha256(mac_hash_input(vm_name, nic_target(nic), index)))
}

fn append_bytes(out: &mut Vec<u8>, bytes: &[u8])
    ensures
        final(out)@ == old(out)@ + bytes@,
{
    let mut i: usize = 0;
    while i < bytes.len()
        invariant
            i <= bytes.len(),
            out@ == old(out)@ + bytes@.take(i as int),
        decreases bytes.len() - i,
    {
        out.push(bytes[i]);
        i = i + 1;
        assert(out@ =~= old(out)@ + bytes@.take(i as int));
    }
    assert(bytes@.take(i as int) =~= bytes@);
}

/// The MAC address made of a hash of at least 32 bytes.
pub fn mac_address_from_hash(hash: &Vec<u8>) -> (r: String)
    requires
        hash.len() >= 32,
    ensures
        r@ == mac_from_hash(hash@),
        is_mac_text(r@),
{
    proof {
        lemma_mac_from_hash_is_mac(hash@);
    }
    let mut r = String::new();
    push_str(&mut r, MAC_PREFIX);
    push_str(&mut r, ":");
    let a = u8_to_hex(hash[29]);
    push_str(&mut r, a.as_str());
    push_str(&mut r, ":");
    let b = u8_to_hex(hash[30]);
    push_str(&mut r, b.as_str());
    push_str(&mut r, ":");
    let c = u8_to_hex(hash[31]);
    push_str(&mut r, c.as_str());
    r
}

/// A MAC address for interface number `index` of the virtual machine `vm_name`, from a
/// hash of the name, the interface's network or bridge and the index.
pub fn generate_mac_address(vm_name: &str, nic: &NetworkAttachment, index: usize) -> (r: String)
    requires
        has_target(*nic),
    ensures
        r@ == spec_mac_address(vm_name@, *nic, index),
        is_mac_text(r@),
        r@.take(8) == MAC_PREFIX@,
{
    let mut data: Vec<u8> = Vec::new();
    append_bytes(&mut data, vm_name.as_bytes());
    let target: &String = match &nic.name {
        Some(n) => n,
        None => nic.bridge.as_ref().unwrap(),
    };
    append_bytes(&mut data, target.as_str().as_bytes());
    data.push(#[verifier::truncate] (index as u8));
    assert(data@ =~= mac_hash_input(vm_name@, nic_target(*nic), index));
    let hash = sha256(&data);
    proof {
        lemma_mac_from_hash_is_mac(hash@);
    }
    mac_address_from_hash(&hash)
}

/// The candidate is attached to the same network as `network`, or, when `network` has
/// no network name, to the same bridge.
pub open spec fn same_target(candidate: NetworkAttachment, network: NetworkAttachment) -> bool {
    if network.name is Some {
        opt_view(candidate.name) == opt_view(network.name)
    } else {
        opt_view(candidate.bridge) == opt_view(network.bridge)
    }
}

/// The first attachment of `list` with the target of `network`.
pub open spec fn first_match(list: Seq<NetworkAttachment>, network: NetworkAttachment) -> Option<
    NetworkAttachment,
>
    decreases list.len(),
{
    if list.len() == 0 {
        None
    } else if same_target(list[0], network) {
        Some(list[0])
    } else {
        first_match(list.drop_first(), network)
    }
}

/// The first attachment of `list` with the same target (network name, else bridge) as
/// `network`.
pub fn find_matching_network<'a>(list: &'a Vec<NetworkAttachment>, network: &NetworkAttachment) -> (r:
    Option<&'a NetworkAttachment>)
    requires
        has_target(*network),
    ensures
        match r {
            Some(c) => first_match(list@, *network) == Some(*c),
            None => first_match(list@, *network) is None,
        },
{
    let by_name = network.name.is_some();
    let mut i: usize = 0;
    assert(list@.subrange(0, list.len() as int) =~= list@);
    while i < list.len()
        invariant
            i <= list.len(),
            by_name == network.name is Some,
            first_match(list@, *network) == first_match(list@.subrange(i as int, list.len() as int), *network),
        decreases list.len() - i,
    {
        let ghost rest = list@.subrange(i as int, list.len() as int);
        assert(rest[0] == list@[i as int]);
        assert(rest.drop_first() =~= list@.subrange(i + 1, list.len() as int));
        let hit = if by_name {
            opt_str_equal(&list[i].name, &network.name)
        } else {
            opt_str_equal(&list[i].bridge, &network.bridge)
        };
        if hit {
            return Some(&list[i]);
        }
        i = i + 1;
    }
    None
}

/// The status of an interface before its open fields are filled: the matching one of
/// the status, or an empty one with the interface's network and bridge.
pub open spec fn base_status(existing: Seq<NetworkAttachment>, nic: NetworkAttachment) -> NetworkAttachment {
    match first_match(existing, nic) {
        Some(e) => e,
        None => NetworkAttachment {
            name: nic.name,
            bridge: nic.bridge,
            mac_address: None,
            queues: None,
            ovn_id: None,
        },
    }
}

/// `r` is the status of interface `nic`, number `index` of the virtual machine
/// `vm_name`, given the interfaces of the current status: the base status with the
/// interface's queues; the interface's MAC address if it names one, else the base
/// status's, else a generated one; and for an interface on a managed network the
/// interface's OVN port identifier if it names one, else the base status's, else a
/// fresh UUID.
pub open spec fn nic_status_filled(
    existing: Seq<NetworkAttachment>,
    nic: NetworkAttachment,
    vm_name: Seq<char>,
    index: usize,
    r: NetworkAttachment,
) -> bool {
    let base = base_status(existing, nic);
    &&& opt_view(r.name) == opt_view(base.name)
    &&& opt_view(r.bridge) == opt_view(base.bridge)
    &&& r.queues == nic.queues
    &&& opt_view(r.mac_address) == if nic.mac_address is Some {
        opt_view(nic.mac_address)
    } else if base.mac_address is Some {
        opt_view(base.mac_address)
    } else {
        Some(spec_mac_address(vm_name, nic, index))
    }
    &&& if nic.name is None {
        opt_view(r.ovn_id) == opt_view(base.ovn_id)
    } else if nic.ovn_id is Some {
        opt_view(r.ovn_id) == opt_view(nic.ovn_id)
    } else if base.ovn_id is Some {
        opt_view(r.ovn_id) == opt_view(base.ovn_id)
    } else {
        r.ovn_id matches Some(id) && is_uuid_v4_text(id@)
    }
}

/// The status of one interface of a virtual machine, from the interfaces of its
/// current status.
pub fn fill_nic_status(
    existing: &Vec<NetworkAttachment>,
    nic: &NetworkAttachment,
    vm_name: &str,
    index: usize,
) -> (r: NetworkAttachment)
    requires
        has_target(*nic),
    ensures
        nic_status_filled(existing@, *nic, vm_name@, index, r),
{
    let mut status = match find_matching_network(existing, nic) {
        Some(found) => found.copy(),
        None => NetworkAttachment {
            name: clone_opt_string(&nic.name),
            bridge: clone_opt_string(&nic.bridge),
            mac_address: None,
            queues: None,
            ovn_id: None,
        },
    };
    let ghost base = status;
    status.queues = nic.queues;
    if nic.mac_address.is_some() {
        status.mac_address = clone_opt_string(&nic.mac_address);
    } else if status.mac_address.is_none() {
        status.mac_address = Some(generate_mac_address(vm_name, nic, index));
    }
    if nic.name.is_some() {
        if nic.ovn_id.is_some() {
            status.ovn_id = clone_opt_string(&nic.ovn_id);
        } else if status.ovn_id.is_none() {
            status.ovn_id = Some(new_uuid());
        }
    }
    assert(base == base_status(existing@, *nic));
    status
}

/// The mathematical content of an interface.
pub open spec fn attachment_view(n: NetworkAttachment) -> (
    Option<Seq<char>>,
    Option<Seq<char>>,
    Option<Seq<char>>,
    Option<u8>,
    Option<Seq<char>>,
) {
    (opt_view(n.name), opt_view(n.bridge), opt_view(n.mac_address), n.queues, opt_view(n.ovn_id))
}

/// The mathematical content of a list of interfaces.
pub open spec fn attachments_view(list: Seq<NetworkAttachment>) -> Seq<
    (Option<Seq<char>>, Option<Seq<char>>, Option<Seq<char>>, Option<u8>, Option<Seq<char>>),
> {
    list.map_values(|n: NetworkAttachment| attachment_view(n))
}

/// Whether two lists of interfaces hold the same values.
pub fn attachments_equal(a: &Vec<NetworkAttachment>, b: &Vec<NetworkAttachment>) -> (r: bool)
    ensures
        r == (attachments_view(a@) == attachments_view(b@)),
{
    if a.len() != b.len() {
        proof {
            assert(attachments_view(a@).len() != attachments_view(b@).len());
        }
        return false;
    }
    let mut i: usize = 0;
    while i < a.len()
        invariant
            i <= a.len(),
            a.len() == b.len(),
            forall|j: int| 0 <= j < i ==> attachment_view(#[trigger] a@[j]) == attachment_view(b@[j]),
        decreases a.len() - i,
    {
        let x = &a[i];
        let y = &b[i];
        let same = opt_str_equal(&x.name, &y.name) && opt_str_equal(&x.bridge, &y.bridge)
            && opt_str_equal(&x.mac_address, &y.mac_address) && x.queues == y.queues
            && opt_str_equal(&x.ovn_id, &y.ovn_id);
        if !same {
            proof {
                assert(attachments_view(a@)[i as int] != attachments_view(b@)[i as int]);
            }
            return false;
        }
        i = i + 1;
    }
    assert(attachments_view(a@) =~= attachments_view(b@));
    true
}

/// The interface statuses of a virtual machine: one per interface of its
/// specification, in order, each filled from the current status.
pub open spec fn statuses_filled(
    existing: Seq<NetworkAttachment>,
    nics: Seq<NetworkAttachment>,
    vm_name: Seq<char>,
    r: Seq<NetworkAttachment>,
) -> bool {
    &&& r.len() == nics.len()
    &&& forall|i: int|
        0 <= i < nics.len() ==> nic_status_filled(existing, nics[i], vm_name, i as usize, #[trigger] r[i])
}

/// Whether interface statuses are filled depends only on what they hold.
proof fn lemma_filled_same_view(
    existing: Seq<NetworkAttachment>,
    nics: Seq<NetworkAttachment>,
    vm_name: Seq<char>,
    a: Seq<NetworkAttachment>,
    b: Seq<NetworkAttachment>,
)
    requires
        statuses_filled(existing, nics, vm_name, a),
        attachments_view(a) == attachments_view(b),
    ensures
        statuses_filled(existing, nics, vm_name, b),
{
    assert(a.len() == attachments_view(a).len());
    assert(b.len() == attachments_view(b).len());
    assert forall|i: int| 0 <= i < nics.len() implies nic_status_filled(
        existing,
        nics[i],
        vm_name,
        i as usize,
        #[trigger] b[i],
    ) by {
        assert(attachments_view(a)[i] == attachment_view(a[i]));
        assert(attachments_view(b)[i] == attachment_view(b[i]));
        assert(nic_status_filled(existing, nics[i], vm_name, i as usize, a[i]));
    }
}

/// Every interface is on a managed network, and no two are on the same one.
pub open spec fn distinct_networks(nics: Seq<NetworkAttachment>) -> bool {
    &&& forall|i: int| 0 <= i < nics.len() ==> (#[trigger] nics[i]).name is Some
    &&& forall|i: int, j: int|
        0 <= i < nics.len() && 0 <= j < nics.len() && i != j ==> opt_view(#[trigger] nics[i].name) != opt_view(
            #[trigger] nics[j].name,
        )
}

/// What `first_match` finds has the target it looks for.
proof fn lemma_first_match_same_target(list: Seq<NetworkAttachment>, network: NetworkAttachment)
    ensures
        first_match(list, network) matches Some(e) ==> same_target(e, network),
    decreases list.len(),
{
    if list.len() > 0 && !same_target(list[0], network) {
        lemma_first_match_same_target(list.drop_first(), network);
    }
}

/// `first_match` finds the attachment at `i` when it has the target and none before it
/// has.
proof fn lemma_first_match_at(list: Seq<NetworkAttachment>, network: NetworkAttachment, i: int)
    requires
        0 <= i < list.len(),
        same_target(list[i], network),
        forall|j: int| 0 <= j < i ==> !same_target(#[trigger] list[j], network),
    ensures
        first_match(list, network) == Some(list[i]),
    decreases i,
{
    if i > 0 {
        assert(!same_target(list[0], network));
        assert forall|j: int| 0 <= j < i - 1 implies !same_target(#[trigger] list.drop_first()[j], network) by {
            assert(list.drop_first()[j] == list[j + 1]);
        }
        lemma_first_match_at(list.drop_first(), network, i - 1);
    }
}

/// Filling is stable: once the interface statuses of a virtual machine are filled,
/// filling them again changes nothing, when every interface is on a managed network of
/// its own.
pub proof fn lemma_fill_nics_stable(
    existing: Seq<NetworkAttachment>,
    nics: Seq<NetworkAttachment>,
    vm_name: Seq<char>,
    filled: Seq<NetworkAttachment>,
    refilled: Seq<NetworkAttachment>,
)
    requires
        distinct_networks(nics),
        statuses_filled(existing, nics, vm_name, filled),
        statuses_filled(filled, nics, vm_name, refilled),
    ensures
        attachments_view(refilled) == attachments_view(filled),
{
    assert forall|i: int| 0 <= i < nics.len() implies first_match(filled, #[trigger] nics[i]) == Some(filled[i]) by {
        assert(nic_status_filled(existing, nics[i], vm_name, i as usize, filled[i]));
        lemma_first_match_same_target(existing, nics[i]);
        assert forall|j: int| 0 <= j < i implies !same_target(#[trigger] filled[j], nics[i]) by {
            assert(nic_status_filled(existing, nics[j], vm_name, j as usize, filled[j]));
            lemma_first_match_same_target(existing, nics[j]);
            assert(opt_view(nics[i].name) != opt_view(nics[j].name));
        }
        lemma_first_match_at(filled, nics[i], i);
    }
    assert forall|i: int| 0 <= i < nics.len() implies attachment_view(#[trigger] refilled[i]) == attachment_view(
        filled[i],
    ) by {
        assert(first_match(filled, nics[i]) == Some(filled[i]));
        assert(nic_status_filled(existing, nics[i], vm_name, i as usize, filled[i]));
        assert(nic_status_filled(filled, nics[i], vm_name, i as usize, refilled[i]));
    }
    assert(attachments_view(refilled) =~= attachments_view(filled));
}

/// Every interface is on exactly one target, a network or a bridge, and no two are on
/// the same target.
pub open spec fn distinct_single_targets(nics: Seq<NetworkAttachment>) -> bool {
    &&& forall|i: int| 0 <= i < nics.len() ==> ((#[trigger] nics[i]).name is Some) != (nics[i].bridge is Some)
    &&& forall|i: int, j: int|
        0 <= i < nics.len() && 0 <= j < nics.len() && i != j ==> (
            opt_view(#[trigger] nics[i].name),
            opt_view(nics[i].bridge),
        ) != (opt_view(#[trigger] nics[j].name), opt_view(nics[j].bridge))
}

/// No interface picks up, or makes, a status entry that carries the target of a later
/// interface: refilling then finds each interface's own entry again.
pub open spec fn no_earlier_pick_shares_target(existing: Seq<NetworkAttachment>, nics: Seq<NetworkAttachment>) -> bool {
    forall|i: int, j: int|
        0 <= j < i < nics.len() ==> !same_target(#[trigger] base_status(existing, nics[j]), #[trigger] nics[i])
}

/// No status entry carries both a network name and a bridge.
pub open spec fn entries_single_target(existing: Seq<NetworkAttachment>) -> bool {
    forall|k: int| 0 <= k < existing.len() ==> !((#[trigger] existing[k]).name is Some && existing[k].bridge is Some)
}

/// What `first_match` finds is one of the list.
proof fn lemma_first_match_in(list: Seq<NetworkAttachment>, network: NetworkAttachment)
    ensures
        first_match(list, network) matches Some(e) ==> list.contains(e),
    decreases list.len(),
{
    if list.len() > 0 {
        assert(list[0] == list[0]);
        if !same_target(list[0], network) {
            lemma_first_match_in(list.drop_first(), network);
            match first_match(list.drop_first(), network) {
                Some(e) => {
                    let k = choose|k: int| 0 <= k < list.drop_first().len() && list.drop_first()[k] == e;
                    assert(list[k + 1] == e);
                },
                None => {},
            }
        }
    }
}

/// Filling is stable: once the interface statuses of a virtual machine are filled,
/// filling them again changes nothing, when no interface picks up or makes a status
/// entry that carries the target of a later interface.
pub proof fn lemma_fill_nics_stable_general(
    existing: Seq<NetworkAttachment>,
    nics: Seq<NetworkAttachment>,
    vm_name: Seq<char>,
    filled: Seq<NetworkAttachment>,
    refilled: Seq<NetworkAttachment>,
)
    requires
        no_earlier_pick_shares_target(existing, nics),
        statuses_filled(existing, nics, vm_name, filled),
        statuses_filled(filled, nics, vm_name, refilled),
    ensures
        attachments_view(refilled) == attachments_view(filled),
{
    assert forall|i: int| 0 <= i < nics.len() implies first_match(filled, #[trigger] nics[i]) == Some(filled[i]) by {
        assert(nic_status_filled(existing, nics[i], vm_name, i as usize, filled[i]));
        lemma_first_match_same_target(existing, nics[i]);
        assert forall|j: int| 0 <= j < i implies !same_target(#[trigger] filled[j], nics[i]) by {
            assert(nic_status_filled(existing, nics[j], vm_name, j as usize, filled[j]));
            assert(!same_target(base_status(existing, nics[j]), nics[i]));
        }
        lemma_first_match_at(filled, nics[i], i);
    }
    assert forall|i: int| 0 <= i < nics.len() implies attachment_view(#[trigger] refilled[i]) == attachment_view(
        filled[i],
    ) by {
        assert(first_match(filled, nics[i]) == Some(filled[i]));
        assert(nic_status_filled(existing, nics[i], vm_name, i as usize, filled[i]));
        assert(nic_status_filled(filled, nics[i], vm_name, i as usize, refilled[i]));
    }
    assert(attachments_view(refilled) =~= attachments_view(filled));
}

/// Filling is stable for interfaces on networks and on bridges alike: once the
/// interface statuses are filled, filling them again changes nothing, when each
/// interface is on one target of its own and no status entry carries both a network
/// and a bridge.
pub proof fn lemma_fill_nics_stable_single_targets(
    existing: Seq<NetworkAttachment>,
    nics: Seq<NetworkAttachment>,
    vm_name: Seq<char>,
    filled: Seq<NetworkAttachment>,
    refilled: Seq<NetworkAttachment>,
)
    requires
        distinct_single_targets(nics),
        entries_single_target(existing),
        statuses_filled(existing, nics, vm_name, filled),
        statuses_filled(filled, nics, vm_name, refilled),
    ensures
        attachments_view(refilled) == attachments_view(filled),
{
    assert forall|i: int, j: int| 0 <= j < i < nics.len() implies !same_target(
        #[trigger] base_status(existing, nics[j]),
        #[trigger] nics[i],
    ) by {
        let base = base_status(existing, nics[j]);
        lemma_first_match_same_target(existing, nics[j]);
        lemma_first_match_in(existing, nics[j]);
        match first_match(existing, nics[j]) {
            Some(e) => {
                let k = choose|k: int| 0 <= k < existing.len() && existing[k] == e;
                assert(!(existing[k].name is Some && existing[k].bridge is Some));
            },
            None => {},
        }
        assert((nics[i].name is Some) != (nics[i].bridge is Some));
        assert((nics[j].name is Some) != (nics[j].bridge is Some));
        assert(opt_view(base.name) == opt_view(nics[j].name));
        assert(opt_view(base.bridge) == opt_view(nics[j].bridge));
        assert((opt_view(nics[i].name), opt_view(nics[i].bridge)) != (
            opt_view(nics[j].name),
            opt_view(nics[j].bridge),
        ));
    }
    lemma_fill_nics_stable_general(existing, nics, vm_name, filled, refilled);
}

/// Every interface of the specification has a network name or a bridge.
pub open spec fn all_have_targets(nics: Seq<NetworkAttachment>) -> bool {
    forall|i: int| 0 <= i < nics.len() ==> has_target(#[trigger] nics[i])
}

/// Whether every interface has a network name or a bridge, as `fill_nics` needs.
pub fn every_nic_has_target(nics: &Vec<NetworkAttachment>) -> (r: bool)
    ensures
        r == all_have_targets(nics@),
{
    let mut i: usize = 0;
    while i < nics.len()
        invariant
            i <= nics.len(),
            forall|j: int| 0 <= j < i ==> has_target(#[trigger] nics@[j]),
        decreases nics.len() - i,
    {
        if nics[i].name.is_none() && nics[i].bridge.is_none() {
            return false;
        }
        i = i + 1;
    }
    true
}

/// Fills the interface statuses of a virtual machine: for each interface of its
/// specification the status from `fill_nic_status`. The status is replaced only when
/// its interfaces change; the result says whether they did, that is whether the status
/// must be written back. `NoStatusSubresource` before the machine has a status.
pub fn fill_nics(vm: &mut VirtualMachine) -> (r: Result<bool, Error>)
    requires
        old(vm).metadata.name is Some,
        old(vm).metadata.namespace is Some,
        all_have_targets(old(vm).spec.networks@),
    ensures
        final(vm).metadata == old(vm).metadata,
        final(vm).spec == old(vm).spec,
        match old(vm).status {
            None => final(vm).status is None && (r matches Err(e) && e is NoStatusSubresource),
            Some(s) => r matches Ok(changed) && final(vm).status matches Some(t) && {
                &&& t.scheduled == s.scheduled
                &&& t.running == s.running
                &&& t.migration_pending == s.migration_pending
                &&& t.node == s.node
                &&& t.domain_name == s.domain_name
                &&& t.ip_addresses == s.ip_addresses
                &&& t.ip_addresses_string == s.ip_addresses_string
                &&& statuses_filled(
                    s.networks@,
                    old(vm).spec.networks@,
                    old(vm).metadata.namespace->0@ + "-"@ + old(vm).metadata.name->0@,
                    t.networks@,
                )
                &&& changed == (attachments_view(t.networks@) != attachments_view(s.networks@))
                &&& !changed ==> t.networks == s.networks
            },
        },
{
    let vm_name = vm.metadata.name_prefixed_with_namespace();
    let status_networks: &Vec<NetworkAttachment> = match &vm.status {
        Some(s) => &s.networks,
        None => {
            let name = vm.metadata.name.as_ref().unwrap().clone();
            return Err(Error::NoStatusSubresource(name));
        },
    };
    let mut new_networks: Vec<NetworkAttachment> = Vec::new();
    let mut index: usize = 0;
    while index < vm.spec.networks.len()
        invariant
            index <= vm.spec.networks.len(),
            new_networks.len() == index,
            all_have_targets(vm.spec.networks@),
            forall|i: int|
                0 <= i < index ==> nic_status_filled(
                    status_networks@,
                    vm.spec.networks@[i],
                    vm_name@,
                    i as usize,
                    #[trigger] new_networks@[i],
                ),
        decreases vm.spec.networks.len() - index,
    {
        let nic_status = fill_nic_status(status_networks, &vm.spec.networks[index], vm_name.as_str(), index);
        new_networks.push(nic_status);
        index = index + 1;
    }
    let changed = !attachments_equal(status_networks, &new_networks);
    assert(statuses_filled(status_networks@, vm.spec.networks@, vm_name@, new_networks@));
    let ghost filled = new_networks@;
    if changed {
        match &mut vm.status {
            Some(s) => {
                s.networks = new_networks;
            },
            None => {},
        }
        assert(vm.status matches Some(t) && t.networks@ == filled);
    } else {
        proof {
            lemma_filled_same_view(status_networks@, vm.spec.networks@, vm_name@, filled, status_networks@);
        }
    }
    Ok(changed)
}

/// Gives the virtual machine a libvirt UUID, a fresh one, when it has none; says
/// whether it did, that is whether the object must be written back.
pub fn fill_uuid(vm: &mut VirtualMachine) -> (r: bool)
    ensures
        r == old(vm).spec.uuid is None,
        r ==> (final(vm).spec.uuid matches Some(u) && is_uuid_v4_text(u@)),
        !r ==> final(vm).spec.uuid == old(vm).spec.uuid,
        final(vm).spec == (VirtualMachineSpec { uuid: final(vm).spec.uuid, ..old(vm).spec }),
        final(vm).metadata == old(vm).metadata,
        final(vm).status == old(vm).status,
{
    if vm.spec.uuid.is_none() {
        vm.spec.uuid = Some(new_uuid());
        true
    } else {
        false
    }
}

} // verus!
