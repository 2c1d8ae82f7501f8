use cluster_manager::cluster::libvirt::controller::node::{maintenance_requested, request_reschedule};
use cluster_manager::cluster::libvirt::controller::vm::{
    after_schedule_attempt, initial_status, needs_scheduling, reconcile_start, ReconcileStart,
    ScheduleOutcome,
};
use cluster_manager::cluster::libvirt::controller::{
    fill_nics as fill_nics_v1beta2, fill_uuid as fill_uuid_v1beta2, scheduled_status, status_to_write,
};
use cluster_manager::cluster::libvirt::scheduling::{Node, MAINTENANCE_ANNOTATION, MIGRATION_REQUEST_ANNOTATION};
use cluster_manager::cluster::libvirt::utils::{
    attachments_equal, every_nic_has_target, fill_nic_status, fill_nics, fill_uuid, find_matching_network,
    generate_mac_address, mac_address_from_hash,
};
use cluster_manager::crd::virtualmachine::v1beta2;
use cluster_manager::crd::virtualmachine::v1beta3::{PowerAction, VirtualMachineSpec, VirtualMachineStatus};
use cluster_manager::crd::virtualmachine::{
    migration_status_patch, needs_upgrade, only_latest_version, NetworkAttachment, VirtualMachine,
};
use cluster_manager::errors::Error;
use cluster_manager::json::{JsonNumber, JsonValue};
use cluster_manager::meta::{ObjectMeta, StringMap};
use sha2::{Digest, Sha256};

fn meta(namespace: &str, name: &str) -> ObjectMeta {
    ObjectMeta {
        name: Some(name.to_string()),
        namespace: Some(namespace.to_string()),
        ..ObjectMeta::default()
    }
}

fn nic(name: Option<&str>, bridge: Option<&str>) -> NetworkAttachment {
    NetworkAttachment {
        name: name.map(String::from),
        bridge: bridge.map(String::from),
        ..NetworkAttachment::default()
    }
}

fn status(node: Option<&str>) -> VirtualMachineStatus {
    VirtualMachineStatus {
        scheduled: node.is_some(),
        running: false,
        migration_pending: false,
        node: node.map(String::from),
        domain_name: "ns-vm".to_string(),
        ip_addresses: None,
        ip_addresses_string: None,
        networks: vec![],
    }
}

fn expected_mac(vm_name: &str, target: &str, index: u8) -> String {
    let mut hasher = Sha256::new();
    hasher.update(vm_name);
    hasher.update(target);
    hasher.update(vec![index]);
    let hash = hasher.finalize();
    format!("52:54:00:{:02x}:{:02x}:{:02x}", hash[29], hash[30], hash[31])
}

fn is_uuid_text(s: &str) -> bool {
    let b = s.as_bytes();
    s.len() == 36
        && b[14] == b'4'
        && matches!(b[19], b'8' | b'9' | b'a' | b'b')
        && s.chars().enumerate().all(|(i, c)| {
            if i == 8 || i == 13 || i == 18 || i == 23 {
                c == '-'
            } else {
                c.is_ascii_digit() || ('a'..='f').contains(&c)
            }
        })
}

fn to_serde(v: &JsonValue) -> serde_json::Value {
    match v {
        JsonValue::Null => serde_json::Value::Null,
        JsonValue::Bool(b) => serde_json::Value::Bool(*b),
        JsonValue::Number(JsonNumber::PosInt(n)) => serde_json::Value::from(*n),
        JsonValue::Number(JsonNumber::NegInt(n)) => serde_json::Value::from(*n),
        JsonValue::Number(JsonNumber::Float(s)) => serde_json::Value::String(s.clone()),
        JsonValue::Str(s) => serde_json::Value::String(s.clone()),
        JsonValue::Array(items) => serde_json::Value::Array(items.iter().map(to_serde).collect()),
        JsonValue::Object(entries) => serde_json::Value::Object(
            entries.iter().map(|e| (e.key.clone(), to_serde(&e.value))).collect(),
        ),
    }
}

#[test]
fn mac_address_uses_bytes_29_to_31_in_hex() {
    let mut hash = vec![0u8; 32];
    hash[29] = 0x0a;
    hash[30] = 0xff;
    hash[31] = 0x10;
    assert_eq!(mac_address_from_hash(&hash), "52:54:00:0a:ff:10");
}

#[test]
fn mac_address_octets_are_two_digits() {
    let hash = vec![0u8; 32];
    assert_eq!(mac_address_from_hash(&hash), "52:54:00:00:00:00");
    for index in 0..64 {
        let mac = generate_mac_address("ns-vm", &nic(Some("lan"), None), index);
        assert_eq!(mac.len(), 17);
        assert!(mac.chars().enumerate().all(|(i, c)| if i % 3 == 2 {
            c == ':'
        } else {
            c.is_ascii_digit() || ('a'..='f').contains(&c)
        }));
    }
}

#[test]
fn mac_address_hashes_name_target_and_index() {
    let net = nic(Some("lan"), None);
    assert_eq!(generate_mac_address("ns-vm", &net, 0), expected_mac("ns-vm", "lan", 0));
    assert_eq!(generate_mac_address("ns-vm", &net, 3), expected_mac("ns-vm", "lan", 3));
    let bridged = nic(None, Some("br0"));
    assert_eq!(generate_mac_address("ns-vm", &bridged, 1), expected_mac("ns-vm", "br0", 1));
    assert_ne!(generate_mac_address("ns-vm", &net, 0), generate_mac_address("ns-vm", &net, 1));
    assert!(generate_mac_address("ns-vm", &net, 0).starts_with("52:54:00:"));
}

#[test]
fn mac_address_prefers_network_over_bridge() {
    let both = nic(Some("lan"), Some("br0"));
    assert_eq!(generate_mac_address("x", &both, 0), expected_mac("x", "lan", 0));
}

#[test]
fn matching_network_by_name_then_bridge() {
    let list = vec![nic(Some("a"), None), nic(None, Some("br0")), nic(Some("b"), Some("br0"))];
    let found = find_matching_network(&list, &nic(Some("b"), None)).unwrap();
    assert_eq!(found.name, Some("b".to_string()));
    let found = find_matching_network(&list, &nic(None, Some("br0"))).unwrap();
    assert_eq!(found.name, None);
    assert!(find_matching_network(&list, &nic(Some("c"), Some("br0"))).is_none());
}

#[test]
fn new_nic_status_gets_mac_and_port_id() {
    let spec = NetworkAttachment { queues: Some(4), ..nic(Some("lan"), None) };
    let filled = fill_nic_status(&vec![], &spec, "ns-vm", 2);
    assert_eq!(filled.name, Some("lan".to_string()));
    assert_eq!(filled.queues, Some(4));
    assert_eq!(filled.mac_address, Some(expected_mac("ns-vm", "lan", 2)));
    assert!(is_uuid_text(filled.ovn_id.as_ref().unwrap()));
}

#[test]
fn bridge_nic_gets_no_port_id() {
    let filled = fill_nic_status(&vec![], &nic(None, Some("br0")), "ns-vm", 0);
    assert_eq!(filled.ovn_id, None);
    assert_eq!(filled.mac_address, Some(expected_mac("ns-vm", "br0", 0)));
}

#[test]
fn existing_nic_status_is_kept_and_spec_wins() {
    let existing = vec![NetworkAttachment {
        mac_address: Some("52:54:00:1:2:3".to_string()),
        ovn_id: Some("port".to_string()),
        ..nic(Some("lan"), None)
    }];
    let filled = fill_nic_status(&existing, &nic(Some("lan"), None), "ns-vm", 0);
    assert_eq!(filled.mac_address, Some("52:54:00:1:2:3".to_string()));
    assert_eq!(filled.ovn_id, Some("port".to_string()));
    let spec = NetworkAttachment {
        mac_address: Some("02:00:00:00:00:09".to_string()),
        ovn_id: Some("mine".to_string()),
        ..nic(Some("lan"), None)
    };
    let filled = fill_nic_status(&existing, &spec, "ns-vm", 0);
    assert_eq!(filled.mac_address, Some("02:00:00:00:00:09".to_string()));
    assert_eq!(filled.ovn_id, Some("mine".to_string()));
}

#[test]
fn fill_nics_is_stable() {
    let mut vm = VirtualMachine {
        metadata: meta("ns", "vm"),
        spec: VirtualMachineSpec {
            networks: vec![nic(Some("lan"), None), nic(Some("wan"), None)],
            ..VirtualMachineSpec::default()
        },
        status: Some(status(None)),
    };
    assert!(matches!(fill_nics(&mut vm), Ok(true)));
    let first: Vec<NetworkAttachment> = vm.status.as_ref().unwrap().networks.iter().map(|n| n.copy()).collect();
    assert_eq!(first.len(), 2);
    assert_eq!(first[1].mac_address, Some(expected_mac("ns-vm", "wan", 1)));
    assert!(matches!(fill_nics(&mut vm), Ok(false)));
    assert!(attachments_equal(&first, &vm.status.as_ref().unwrap().networks));
}

#[test]
fn fill_nics_is_stable_with_bridges() {
    let mut vm = VirtualMachine {
        metadata: meta("ns", "vm"),
        spec: VirtualMachineSpec {
            networks: vec![nic(None, Some("br0")), nic(Some("lan"), None), nic(None, Some("br1"))],
            ..VirtualMachineSpec::default()
        },
        status: Some(status(None)),
    };
    assert!(matches!(fill_nics(&mut vm), Ok(true)));
    let first: Vec<NetworkAttachment> = vm.status.as_ref().unwrap().networks.iter().map(|n| n.copy()).collect();
    assert_eq!(first.len(), 3);
    assert_eq!(first[2].mac_address, Some(expected_mac("ns-vm", "br1", 2)));
    assert_eq!(first[0].ovn_id, None);
    assert!(matches!(fill_nics(&mut vm), Ok(false)));
    assert!(attachments_equal(&first, &vm.status.as_ref().unwrap().networks));
}

#[test]
fn fill_nics_needs_a_status() {
    let mut vm = VirtualMachine { metadata: meta("ns", "vm"), ..VirtualMachine::default() };
    assert!(matches!(fill_nics(&mut vm), Err(Error::NoStatusSubresource(n)) if n == "vm"));
}

#[test]
fn fill_uuid_only_once() {
    let mut vm = VirtualMachine { metadata: meta("ns", "vm"), ..VirtualMachine::default() };
    assert!(fill_uuid(&mut vm));
    let uuid = vm.spec.uuid.clone().unwrap();
    assert!(is_uuid_text(&uuid));
    assert!(!fill_uuid(&mut vm));
    assert_eq!(vm.spec.uuid, Some(uuid));
}

#[test]
fn older_version_fills_spec_interfaces() {
    let mut vm = v1beta2::VirtualMachine {
        metadata: meta("ns", "old"),
        spec: v1beta2::VirtualMachineSpec {
            networks: vec![nic(Some("lan"), None), nic(None, Some("br0"))],
            ..v1beta2::VirtualMachineSpec::default()
        },
        status: None,
    };
    fill_nics_v1beta2(&mut vm);
    assert_eq!(vm.spec.networks[0].mac_address, Some(expected_mac("ns-old", "lan", 0)));
    assert!(is_uuid_text(vm.spec.networks[0].ovn_id.as_ref().unwrap()));
    assert_eq!(vm.spec.networks[1].mac_address, Some(expected_mac("ns-old", "br0", 1)));
    assert_eq!(vm.spec.networks[1].ovn_id, None);
    assert!(fill_uuid_v1beta2(&mut vm));
    assert!(!fill_uuid_v1beta2(&mut vm));
}

#[test]
fn older_version_status_defaults_and_names_domain() {
    let s = status_to_write(None, "ns-old");
    assert!(!s.scheduled && !s.running && s.node.is_none());
    assert_eq!(s.domain_name, "ns-old");
    let existing = v1beta2::VirtualMachineStatus {
        scheduled: true,
        running: true,
        migration_pending: false,
        node: Some("hv1".to_string()),
        domain_name: "custom".to_string(),
        ip_addresses: None,
        ip_addresses_string: None,
    };
    let s = status_to_write(Some(existing), "ns-old");
    assert_eq!(s.domain_name, "custom");
    let s = scheduled_status(s, "hv2".to_string());
    assert!(s.scheduled);
    assert_eq!(s.node, Some("hv2".to_string()));
}

#[test]
fn reconcile_starts_by_deletion_or_status() {
    let mut vm = VirtualMachine { metadata: meta("ns", "vm"), ..VirtualMachine::default() };
    match reconcile_start(&vm) {
        ReconcileStart::SetInitialStatus(s) => {
            assert_eq!(s.domain_name, "ns-vm");
            assert!(!s.scheduled && s.networks.is_empty());
        }
        _ => panic!("expected an initial status"),
    }
    vm.status = Some(status(None));
    assert!(matches!(reconcile_start(&vm), ReconcileStart::Continue));
    vm.metadata.deletion_timestamp = Some("2024-01-01T00:00:00Z".to_string());
    assert!(matches!(reconcile_start(&vm), ReconcileStart::WaitForDeletion));
    assert_eq!(initial_status("x").domain_name, "x");
}

#[test]
fn scheduling_needed_when_unscheduled_or_moving() {
    assert!(needs_scheduling(&status(None), false, false));
    assert!(!needs_scheduling(&status(Some("hv1")), false, false));
    assert!(needs_scheduling(&status(Some("hv1")), true, false));
    assert!(needs_scheduling(&status(Some("hv1")), false, true));
}

#[test]
fn schedule_attempt_outcomes() {
    let node = Node { metadata: ObjectMeta { name: Some("hv2".to_string()), ..ObjectMeta::default() } };
    match after_schedule_attempt(status(Some("hv1")), true, false, Ok(node)) {
        ScheduleOutcome::Scheduled(s) => {
            assert_eq!(s.node, Some("hv2".to_string()));
            assert!(s.scheduled && s.migration_pending);
        }
        _ => panic!("expected a schedule"),
    }
    let failed = || Err(Error::ScheduleFailed("vm".to_string()));
    assert!(matches!(
        after_schedule_attempt(status(Some("hv1")), true, false, failed()),
        ScheduleOutcome::RetryIgnoringAffinity
    ));
    assert!(matches!(
        after_schedule_attempt(status(Some("hv1")), true, true, failed()),
        ScheduleOutcome::Failed(Error::ScheduleFailed(_))
    ));
    assert!(matches!(
        after_schedule_attempt(status(None), false, false, failed()),
        ScheduleOutcome::Failed(Error::ScheduleFailed(_))
    ));
}

#[test]
fn maintenance_requested_in_any_case() {
    for (value, expected) in [("true", true), ("TRUE", true), ("True", true), ("yes", false), ("truee", false)] {
        let mut annotations = StringMap::new();
        annotations.insert(MAINTENANCE_ANNOTATION.to_string(), value.to_string());
        let node = Node { metadata: ObjectMeta { annotations, ..ObjectMeta::default() } };
        assert_eq!(maintenance_requested(&node), expected, "{value}");
    }
    assert!(!maintenance_requested(&Node::default()));
}

#[test]
fn reschedule_requested_for_vms_on_node() {
    let mut here = VirtualMachine { metadata: meta("ns", "a"), status: Some(status(Some("hv1"))), ..VirtualMachine::default() };
    assert!(matches!(request_reschedule(&mut here, "hv1"), Ok(true)));
    assert_eq!(here.metadata.annotations.get(MIGRATION_REQUEST_ANNOTATION), Some(&"hv1".to_string()));
    let mut elsewhere = VirtualMachine { metadata: meta("ns", "b"), status: Some(status(Some("hv2"))), ..VirtualMachine::default() };
    assert!(matches!(request_reschedule(&mut elsewhere, "hv1"), Ok(false)));
    assert_eq!(elsewhere.metadata.annotations.get(MIGRATION_REQUEST_ANNOTATION), None);
    let mut none = VirtualMachine { metadata: meta("ns", "c"), ..VirtualMachine::default() };
    assert!(matches!(request_reschedule(&mut none, "hv1"), Err(Error::NoStatusSubresource(_))));
}

#[test]
fn power_action_defaults_to_on() {
    let spec = VirtualMachineSpec::default();
    assert_eq!(spec.get_power_action(), PowerAction::PowerOn);
}

#[test]
fn version_checks() {
    assert!(only_latest_version(&vec!["v1beta3".to_string()]));
    assert!(!only_latest_version(&vec!["v1beta2".to_string(), "v1beta3".to_string()]));
    assert!(needs_upgrade("v1beta2"));
    assert!(!needs_upgrade("v1beta3"));
}

#[test]
fn migration_patch_copies_set_fields() {
    let networks = vec![
        NetworkAttachment {
            mac_address: Some("52:54:00:1:2:3".to_string()),
            queues: Some(2),
            ovn_id: Some("id".to_string()),
            ..nic(Some("lan"), None)
        },
        nic(None, Some("br0")),
    ];
    let patch = to_serde(&migration_status_patch(&networks));
    let expected: serde_json::Value = serde_json::from_str(
        r#"{"status": {"networks": [
            {"name": "lan", "mac_address": "52:54:00:1:2:3", "queues": 2, "ovn_id": "id"},
            {"bridge": "br0"}
        ]}}"#,
    )
    .unwrap();
    assert_eq!(patch, expected);
}

#[test]
fn interfaces_need_a_target() {
    assert!(every_nic_has_target(&vec![nic(Some("lan"), None), nic(None, Some("br0"))]));
    assert!(!every_nic_has_target(&vec![nic(Some("lan"), None), nic(None, None)]));
    assert!(every_nic_has_target(&vec![]));
}
