use cluster_manager::cluster::controllers::ovn::{make_ovn_daemonset, OVN_CONTROLLER_MANAGEMENT_LABEL};
use cluster_manager::cluster::controllers::ovn_services::ovn_central::{
    container_base, make_daemonset as make_central_daemonset, ovn_northd_container, ovsdb_container,
    volume_name, OVN_CENTRAL_MANAGED_LABEL,
};
use cluster_manager::cluster::daemonset::make_daemonset as make_host_daemonset;
use cluster_manager::cluster::manifest::VolumeMount;
use cluster_manager::json::{JsonNumber, JsonValue};

fn to_serde(v: &JsonValue) -> serde_json::Value {
    match v {
        JsonValue::Null => serde_json::Value::Null,
        JsonValue::Bool(b) => serde_json::Value::Bool(*b),
        JsonValue::Number(JsonNumber::PosInt(n)) => serde_json::Value::from(*n),
        JsonValue::Number(JsonNumber::NegInt(n)) => serde_json::Value::from(*n),
        JsonValue::Number(JsonNumber::Float(s)) => serde_json::Value::String(s.clone()),
        JsonValue::Str(s) => serde_json::Value::String(s.clone()),
        JsonValue::Array(items) => serde_json::Value::Array(items.iter().map(to_serde).collect()),
        JsonValue::Object(entries) => serde_json::Value::Object(
            entries.iter().map(|e| (e.key.clone(), to_serde(&e.value))).collect(),
        ),
    }
}

fn texts(v: &serde_json::Value) -> Vec<String> {
    v.as_array().unwrap().iter().map(|x| x.as_str().unwrap().to_string()).collect()
}

fn mounts() -> Vec<VolumeMount> {
    vec![VolumeMount { name: "var-run-ovn".to_string(), mount_path: "/var/run/ovn".to_string() }]
}

#[test]
fn volume_names_from_paths() {
    assert_eq!(volume_name("/var/run/openvswitch"), "var-run-openvswitch");
    assert_eq!(volume_name("/etc/openvswitch"), "etc-openvswitch");
    assert_eq!(volume_name("/"), "");
}

#[test]
fn host_controller_daemonset() {
    let ds = to_serde(&make_host_daemonset("registry/controller:1".to_string()).unwrap());
    assert_eq!(ds["apiVersion"], "apps/v1");
    assert_eq!(ds["kind"], "DaemonSet");
    assert_eq!(ds["metadata"]["name"], "libvirt-host-controller");
    assert_eq!(ds["spec"]["selector"]["matchLabels"]["name"], "libvirt-host-controller");
    assert_eq!(ds["spec"]["template"]["metadata"]["labels"]["name"], "libvirt-host-controller");
    let containers = ds["spec"]["template"]["spec"]["containers"].as_array().unwrap();
    assert_eq!(containers.len(), 1);
    assert_eq!(containers[0]["image"], "registry/controller:1");
}

#[test]
fn ovn_controller_daemonset() {
    let ds = to_serde(&make_ovn_daemonset("img:2".to_string(), "cluster").unwrap());
    assert_eq!(ds["metadata"]["name"], "ovn-controller");
    assert_eq!(ds["metadata"]["namespace"], "cluster");
    assert_eq!(ds["metadata"]["labels"]["app"], "ovn-controller");
    let spec = &ds["spec"];
    assert_eq!(spec["selector"]["matchLabels"]["app"], "ovn-controller");
    assert_eq!(spec["updateStrategy"]["type"], "RollingUpdate");
    let pod = &spec["template"]["spec"];
    assert_eq!(pod["hostNetwork"], true);
    assert_eq!(pod["dnsPolicy"], "ClusterFirstWithHostNet");
    assert_eq!(pod["nodeSelector"][OVN_CONTROLLER_MANAGEMENT_LABEL], "managed");
    let c = &pod["containers"][0];
    assert_eq!(c["name"], "ovn-controller");
    assert_eq!(c["image"], "img:2");
    assert_eq!(texts(&c["command"]), vec!["ovn-controller".to_string()]);
    let args = texts(&c["args"]);
    assert_eq!(args.len(), 6);
    assert_eq!(args[0], "unix:/var/run/openvswitch/db.sock");
    assert_eq!(args[5], "--monitor");
    assert_eq!(c["securityContext"]["privileged"], true);
    assert_eq!(c["env"][0]["name"], "OVN_RUNDIR");
    assert_eq!(c["env"][1]["value"], "/var/run/openvswitch");
    assert_eq!(c["volumeMounts"][1]["mountPath"], "/var/run/ovn");
    assert_eq!(pod["volumes"][0]["hostPath"]["type"], "Directory");
    assert!(pod["volumes"][1]["emptyDir"].is_object());
}

#[test]
fn central_container_base() {
    let entries = container_base("img".to_string());
    let keys: Vec<&str> = entries.iter().map(|e| e.key.as_str()).collect();
    assert_eq!(keys, vec!["image", "command", "env", "resources", "securityContext"]);
}

#[test]
fn database_container_script() {
    let c = to_serde(&ovsdb_container(
        "nbdb".to_string(),
        "img".to_string(),
        mounts(),
        "OVN_Northbound".to_string(),
        "ovnnb_db".to_string(),
        6641,
        6643,
    ));
    assert_eq!(c["name"], "nbdb");
    assert_eq!(c["image"], "img");
    let args = texts(&c["args"]);
    assert_eq!(args[0], "-c");
    let script = &args[1];
    assert!(script.starts_with("set -euo pipefail\n"));
    assert!(script.contains(
        "test -f /var/lib/ovn/ovnnb_db.db || ovsdb-tool join-cluster /var/lib/ovn/ovnnb_db.db OVN_Northbound tcp:$local_ip:6643 tcp:10.4.0.31:6643 #temporary remote during migration"
    ));
    assert!(script.ends_with("--remote=ptcp:6641:$local_ip /var/lib/ovn/ovnnb_db.db"));
    assert_eq!(c["volumeMounts"][0]["mountPath"], "/var/run/ovn");
    assert_eq!(c["resources"]["requests"]["ephemeral-storage"], "128Mi");
    assert_eq!(texts(&c["command"]), vec!["bash".to_string()]);
}

#[test]
fn northd_container_script() {
    let c = to_serde(&ovn_northd_container("img".to_string(), mounts(), vec![]));
    assert_eq!(c["name"], "northd");
    let script = texts(&c["args"])[1].clone();
    assert!(script.contains("--ovnnb-db=tcp:10.4.3.1:6641,"));
    assert!(script.ends_with("tcp:10.4.3.6:6642"));
}

#[test]
fn ovn_central_daemonset() {
    let ds = to_serde(&make_central_daemonset("img:3".to_string(), "cluster").unwrap());
    assert_eq!(ds["metadata"]["name"], "ovn-central");
    let pod = &ds["spec"]["template"]["spec"];
    let containers = pod["containers"].as_array().unwrap();
    let names: Vec<&str> = containers.iter().map(|c| c["name"].as_str().unwrap()).collect();
    assert_eq!(names, vec!["nbdb", "sbdb", "northd"]);
    assert!(containers.iter().all(|c| c["image"] == "img:3"));
    let sbdb_script = texts(&containers[1]["args"])[1].clone();
    assert!(sbdb_script.contains("tcp:$local_ip:6644"));
    assert!(sbdb_script.contains("--remote=ptcp:6642:$local_ip /var/lib/ovn/ovnsb_db.db"));
    let volumes = pod["volumes"].as_array().unwrap();
    let volume_names: Vec<&str> = volumes.iter().map(|v| v["name"].as_str().unwrap()).collect();
    assert_eq!(volume_names, vec!["var-run-openvswitch", "var-run-ovn", "var-lib-ovn", "etc-openvswitch"]);
    assert_eq!(volumes[2]["hostPath"]["path"], "/var/lib/ovn");
    assert_eq!(volumes[2]["hostPath"]["type"], "DirectoryOrCreate");
    let mounts = containers[2]["volumeMounts"].as_array().unwrap();
    assert_eq!(mounts.len(), 4);
    assert_eq!(mounts[3]["name"], "etc-openvswitch");
    assert_eq!(mounts[3]["mountPath"], "/etc/openvswitch");
    assert_eq!(pod["nodeSelector"][OVN_CENTRAL_MANAGED_LABEL], "managed");
}
