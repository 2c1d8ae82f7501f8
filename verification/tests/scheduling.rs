use cluster_manager::cluster::libvirt::scheduling::{
    affinity_group, clear_successful_migration, get_nodes_with_label_scheduled,
    get_others_in_affinity_group, get_vm_node, is_in_maintenance, is_uncompliant, label_selector,
    migration_requested, remove_candidate_nodes, remove_nodes_in_maintenance, schedule, Node,
    ANTI_AFFINITY_LABEL, MAINTENANCE_ANNOTATION, MIGRATION_REQUEST_ANNOTATION,
};
use cluster_manager::crd::virtualmachine::v1beta3::VirtualMachineStatus;
use cluster_manager::crd::virtualmachine::VirtualMachine;
use cluster_manager::errors::Error;
use cluster_manager::meta::{ObjectMeta, StringMap};

fn node(name: &str, maintenance: Option<&str>) -> Node {
    let mut annotations = StringMap::new();
    if let Some(value) = maintenance {
        annotations.insert(MAINTENANCE_ANNOTATION.to_string(), value.to_string());
    }
    Node {
        metadata: ObjectMeta {
            name: Some(name.to_string()),
            annotations,
            ..ObjectMeta::default()
        },
    }
}

fn status_on(node: Option<&str>, scheduled: bool) -> VirtualMachineStatus {
    VirtualMachineStatus {
        scheduled,
        running: false,
        migration_pending: false,
        node: node.map(|n| n.to_string()),
        domain_name: String::new(),
        ip_addresses: None,
        ip_addresses_string: None,
        networks: vec![],
    }
}

fn vm(namespace: &str, name: &str, node: Option<&str>) -> VirtualMachine {
    VirtualMachine {
        metadata: ObjectMeta {
            name: Some(name.to_string()),
            namespace: Some(namespace.to_string()),
            ..ObjectMeta::default()
        },
        status: Some(status_on(node, node.is_some())),
        ..VirtualMachine::default()
    }
}

fn with_annotation(mut v: VirtualMachine, key: &str, value: &str) -> VirtualMachine {
    v.metadata.annotations.insert(key.to_string(), value.to_string());
    v
}

fn with_label(mut v: VirtualMachine, key: &str, value: &str) -> VirtualMachine {
    v.metadata.labels.insert(key.to_string(), value.to_string());
    v
}

fn names(nodes: &[Node]) -> Vec<String> {
    nodes.iter().map(|n| n.metadata.name.clone().unwrap()).collect()
}

#[test]
fn vm_node_is_read_from_status() {
    assert_eq!(get_vm_node(&vm("ns", "a", Some("hv1"))), Some("hv1".to_string()));
    assert_eq!(get_vm_node(&vm("ns", "a", None)), None);
    assert_eq!(get_vm_node(&VirtualMachine::default()), None);
}

#[test]
fn migration_requested_only_from_current_node() {
    let base = vm("ns", "a", Some("hv1"));
    assert!(!migration_requested(&base));
    let leaving = with_annotation(vm("ns", "a", Some("hv1")), MIGRATION_REQUEST_ANNOTATION, "hv1");
    assert!(migration_requested(&leaving));
    let moved = with_annotation(vm("ns", "a", Some("hv2")), MIGRATION_REQUEST_ANNOTATION, "hv1");
    assert!(!migration_requested(&moved));
}

#[test]
fn migration_request_is_either_pending_or_completed() {
    for current in ["hv1", "hv2"] {
        let mut v = with_annotation(vm("ns", "a", Some(current)), MIGRATION_REQUEST_ANNOTATION, "hv1");
        let requested = migration_requested(&v);
        let completed = clear_successful_migration(&mut v);
        assert!(requested != completed);
    }
}

#[test]
fn clearing_completed_migration_removes_only_the_request() {
    let v = with_annotation(vm("ns", "a", Some("hv2")), MIGRATION_REQUEST_ANNOTATION, "hv1");
    let mut v = with_label(with_annotation(v, "other", "kept"), ANTI_AFFINITY_LABEL, "db");
    v.metadata.finalizers = Some(vec!["cluster-virt.acl.fi/ovn".to_string()]);
    assert!(clear_successful_migration(&mut v));
    assert_eq!(v.metadata.finalizers, Some(vec!["cluster-virt.acl.fi/ovn".to_string()]));
    assert_eq!(v.metadata.labels.get(ANTI_AFFINITY_LABEL), Some(&"db".to_string()));
    assert_eq!(v.metadata.name, Some("a".to_string()));
    assert_eq!(v.metadata.annotations.get(MIGRATION_REQUEST_ANNOTATION), None);
    assert_eq!(v.metadata.annotations.get("other"), Some(&"kept".to_string()));
    assert!(!migration_requested(&v));
    assert!(!clear_successful_migration(&mut v));
}

#[test]
fn pending_migration_is_not_cleared() {
    let mut v = with_annotation(vm("ns", "a", Some("hv1")), MIGRATION_REQUEST_ANNOTATION, "hv1");
    assert!(!clear_successful_migration(&mut v));
    assert_eq!(
        v.metadata.annotations.get(MIGRATION_REQUEST_ANNOTATION),
        Some(&"hv1".to_string())
    );
}

#[test]
fn label_selector_joins_with_equals() {
    assert_eq!(label_selector(ANTI_AFFINITY_LABEL, "db"), "antiAffinity=db");
}

#[test]
fn affinity_group_comes_from_label() {
    let v = with_label(vm("ns", "a", None), ANTI_AFFINITY_LABEL, "db");
    assert_eq!(affinity_group(&v), Some("db".to_string()));
    assert_eq!(affinity_group(&vm("ns", "a", None)), None);
}

#[test]
fn others_in_group_exclude_the_vm_itself() {
    let me = vm("ns", "a", Some("hv1"));
    let members = vec![vm("ns", "a", Some("hv1")), vm("ns", "b", Some("hv2")), vm("other", "a", None)];
    let others = get_others_in_affinity_group(&me, members);
    let names: Vec<String> = others.iter().map(|v| v.metadata.name_prefixed_with_namespace()).collect();
    assert_eq!(names, vec!["ns-b".to_string(), "other-a".to_string()]);
}

#[test]
fn uncompliant_when_group_member_shares_node() {
    let me = vm("ns", "a", Some("hv1"));
    let others = vec![vm("ns", "b", Some("hv2")), vm("ns", "c", Some("hv1"))];
    assert!(matches!(is_uncompliant(&me, &others), Ok(true)));
    let others = vec![vm("ns", "b", Some("hv2"))];
    assert!(matches!(is_uncompliant(&me, &others), Ok(false)));
}

#[test]
fn unscheduled_vm_is_compliant() {
    let me = vm("ns", "a", None);
    let others = vec![vm("ns", "b", None)];
    assert!(matches!(is_uncompliant(&me, &others), Ok(false)));
}

#[test]
fn compliance_needs_a_status() {
    let mut me = vm("ns", "a", None);
    me.status = None;
    assert!(matches!(is_uncompliant(&me, &vec![]), Err(Error::NoStatusSubresource(_))));
}

#[test]
fn scheduled_nodes_skip_unscheduled_vms() {
    let vms = vec![vm("ns", "a", Some("hv1")), vm("ns", "b", None), vm("ns", "c", Some("hv3"))];
    assert_eq!(
        get_nodes_with_label_scheduled(&vms),
        vec!["hv1".to_string(), "hv3".to_string()]
    );
}

#[test]
fn candidates_lose_removed_nodes() {
    let mut candidates = vec![node("hv1", None), node("hv2", None), node("hv3", None)];
    remove_candidate_nodes(&mut candidates, &vec!["hv2".to_string(), "hv9".to_string()]);
    assert_eq!(names(&candidates), vec!["hv1".to_string(), "hv3".to_string()]);
}

#[test]
fn maintenance_needs_exactly_true() {
    assert!(is_in_maintenance(&node("hv1", Some("true"))));
    assert!(!is_in_maintenance(&node("hv1", Some("TRUE"))));
    assert!(!is_in_maintenance(&node("hv1", Some("false"))));
    assert!(!is_in_maintenance(&node("hv1", None)));
    let mut candidates = vec![node("hv1", Some("true")), node("hv2", None), node("hv3", Some("no"))];
    remove_nodes_in_maintenance(&mut candidates);
    assert_eq!(names(&candidates), vec!["hv2".to_string(), "hv3".to_string()]);
}

#[test]
fn schedule_obeys_all_rules() {
    let me = with_label(
        with_annotation(vm("ns", "a", Some("hv2")), MIGRATION_REQUEST_ANNOTATION, "hv2"),
        ANTI_AFFINITY_LABEL,
        "db",
    );
    let group = vec![vm("ns", "b", Some("hv3"))];
    for _ in 0..20 {
        let nodes = vec![
            node("hv1", Some("true")),
            node("hv2", None),
            node("hv3", None),
            node("hv4", None),
        ];
        let chosen = schedule(&me, false, nodes, &group).unwrap();
        assert_eq!(chosen.metadata.name, Some("hv4".to_string()));
    }
}

#[test]
fn schedule_may_ignore_affinity() {
    let me = with_label(vm("ns", "a", None), ANTI_AFFINITY_LABEL, "db");
    let group = vec![vm("ns", "b", Some("hv1"))];
    let nodes = vec![node("hv1", None)];
    assert!(matches!(schedule(&me, false, nodes, &group), Err(Error::ScheduleFailed(n)) if n == "a"));
    let nodes = vec![node("hv1", None)];
    let chosen = schedule(&me, true, nodes, &group).unwrap();
    assert_eq!(chosen.metadata.name, Some("hv1".to_string()));
}

#[test]
fn schedule_picks_among_candidates() {
    let me = vm("ns", "a", None);
    let mut seen = std::collections::BTreeSet::new();
    for _ in 0..200 {
        let nodes = vec![node("hv1", None), node("hv2", None), node("hv3", Some("true"))];
        let chosen = schedule(&me, false, nodes, &vec![]).unwrap();
        seen.insert(chosen.metadata.name.unwrap());
    }
    assert!(seen.iter().all(|n| n == "hv1" || n == "hv2"));
    assert!(!seen.is_empty());
}

#[test]
fn schedule_fails_without_nodes() {
    let me = vm("ns", "lonely", None);
    assert!(matches!(schedule(&me, false, vec![], &vec![]), Err(Error::ScheduleFailed(n)) if n == "lonely"));
}
