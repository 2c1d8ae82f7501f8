//! Building blocks of the workload manifests that the cluster controller applies, as
//! JSON documents in the form the Kubernetes API reads.
use vstd::prelude::*;

use crate::json::{entries_view, json_entry, json_object, json_str, values_view, JsonData, JsonEntry, JsonValue};

verus! {

broadcast use crate::json::data::group_json_view;

/// The object with the single member `key`.
pub open spec fn jobj1(key: Seq<char>, value: JsonData) -> JsonData {
    JsonData::Object(seq![(key, value)])
}

/// The object with the members `k1` and `k2`, in this order.
pub open spec fn jobj2(k1: Seq<char>, v1: JsonData, k2: Seq<char>, v2: JsonData) -> JsonData {
    JsonData::Object(seq![(k1, v1), (k2, v2)])
}

/// The JSON string `s`.
pub open spec fn jstr(s: Seq<char>) -> JsonData {
    JsonData::Str(s)
}

/// The object with the single member `key`.
pub fn object1(key: &str, value: JsonValue) -> (r: JsonValue)
    ensures
        r@ == jobj1(key@, value@),
{
    let mut entries: Vec<JsonEntry> = Vec::new();
    entries.push(json_entry(key, value));
    assert(entries_view(entries@) =~= seq![(key@, value@)]);
    json_object(entries)
}

/// The object with the members `k1` and `k2`.
pub fn object2(k1: &str, v1: JsonValue, k2: &str, v2: JsonValue) -> (r: JsonValue)
    ensures
        r@ == jobj2(k1@, v1@, k2@, v2@),
{
    let mut entries: Vec<JsonEntry> = Vec::new();
    entries.push(json_entry(k1, v1));
    entries.push(json_entry(k2, v2));
    assert(entries_view(entries@) =~= seq![(k1@, v1@), (k2@, v2@)]);
    json_object(entries)
}

/// Appends the string `s` to a list of JSON values.
pub fn push_text(items: &mut Vec<JsonValue>, s: &str)
    ensures
        values_view(final(items)@) == values_view(old(items)@).push(jstr(s@)),
{
    let ghost before = values_view(items@);
    items.push(json_str(s));
    assert(values_view(items@) =~= before.push(jstr(s@)));
}

/// Appends an entry to the members of an object.
pub fn push_entry(entries: &mut Vec<JsonEntry>, key: &str, value: JsonValue)
    ensures
        entries_view(final(entries)@) == entries_view(old(entries)@).push((key@, value@)),
{
    let ghost before = entries_view(entries@);
    entries.push(json_entry(key, value));
    assert(entries_view(entries@) =~= before.push((key@, value@)));
}

/// A volume mounted into a container at `mount_path`.
#[derive(Debug, PartialEq, Eq)]
pub struct VolumeMount {
    pub name: String,
    pub mount_path: String,
}

/// The manifest of a volume mount.
pub open spec fn spec_volume_mount(m: VolumeMount) -> JsonData {
    jobj2("name"@, jstr(m.name@), "mountPath"@, jstr(m.mount_path@))
}

/// The manifest of a list of volume mounts.
pub open spec fn spec_volume_mounts(mounts: Seq<VolumeMount>) -> JsonData {
    JsonData::Array(mounts.map_values(|m: VolumeMount| spec_volume_mount(m)))
}

/// The manifest of a list of volume mounts.
pub fn volume_mounts_json(mounts: &Vec<VolumeMount>) -> (r: JsonValue)
    ensures
        r@ == spec_volume_mounts(mounts@),
{
    let mut items: Vec<JsonValue> = Vec::new();
    let mut i: usize = 0;
    while i < mounts.len()
        invariant
            i <= mounts.len(),
            values_view(items@) == mounts@.take(i as int).map_values(|m: VolumeMount| spec_volume_mount(m)),
        decreases mounts.len() - i,
    {
        let ghost before = values_view(items@);
        let m = object2(
            "name",
            json_str(mounts[i].name.as_str()),
            "mountPath",
            json_str(mounts[i].mount_path.as_str()),
        );
        assert(m@ == spec_volume_mount(mounts@[i as int]));
        items.push(m);
        assert(values_view(items@) =~= before.push(spec_volume_mount(mounts@[i as int])));
        assert(mounts@.take(i + 1) =~= mounts@.take(i as int).push(mounts@[i as int]));
        i = i + 1;
        assert(values_view(items@) =~= mounts@.take(i as int).map_values(
            |m: VolumeMount| spec_volume_mount(m),
        ));
    }
    assert(mounts@.take(mounts.len() as int) =~= mounts@);
    JsonValue::Array(items)
}

/// The environment variable `name` with the value `value`.
pub open spec fn spec_env_var(name: Seq<char>, value: Seq<char>) -> JsonData {
    jobj2("name"@, jstr(name), "value"@, jstr(value))
}

/// The environment that points OVN and Open vSwitch to their run directories.
pub open spec fn spec_rundir_env() -> JsonData {
    JsonData::Array(
        seq![
            spec_env_var("OVN_RUNDIR"@, "/var/run/ovn"@),
            spec_env_var("OVS_RUNDIR"@, "/var/run/openvswitch"@),
        ],
    )
}

/// The environment that points OVN and Open vSwitch to their run directories.
pub fn rundir_env() -> (r: JsonValue)
    ensures
        r@ == spec_rundir_env(),
{
    let mut items: Vec<JsonValue> = Vec::new();
    items.push(object2("name", json_str("OVN_RUNDIR"), "value", json_str("/var/run/ovn")));
    items.push(object2("name", json_str("OVS_RUNDIR"), "value", json_str("/var/run/openvswitch")));
    assert(values_view(items@) =~= spec_rundir_env()->Array_0);
    JsonValue::Array(items)
}

/// The security context of a privileged container.
pub open spec fn spec_privileged() -> JsonData {
    jobj1("privileged"@, JsonData::Bool(true))
}

/// The security context of a privileged container.
pub fn privileged() -> (r: JsonValue)
    ensures
        r@ == spec_privileged(),
{
    object1("privileged", JsonValue::Bool(true))
}

/// The labels `app: APP` that select the pods of a workload.
pub open spec fn spec_app_labels(app: Seq<char>) -> JsonData {
    jobj1("app"@, jstr(app))
}

/// The labels `app: APP`.
pub fn app_labels(app: &str) -> (r: JsonValue)
    ensures
        r@ == spec_app_labels(app@),
{
    object1("app", json_str(app))
}

/// The specification of pods that run on the host network of the nodes labelled
/// `node_label: managed`.
pub open spec fn spec_host_pod_spec(containers: Seq<JsonData>, node_label: Seq<char>, volumes: JsonData) -> JsonData {
    JsonData::Object(
        seq![
            ("containers"@, JsonData::Array(containers)),
            ("nodeSelector"@, jobj1(node_label, jstr("managed"@))),
            ("volumes"@, volumes),
            ("hostNetwork"@, JsonData::Bool(true)),
            ("dnsPolicy"@, jstr("ClusterFirstWithHostNet"@)),
        ],
    )
}

/// The specification of pods that run on the host network of the nodes labelled
/// `node_label: managed`.
pub fn host_pod_spec(containers: Vec<JsonValue>, node_label: &str, volumes: JsonValue) -> (r: JsonValue)
    ensures
        r@ == spec_host_pod_spec(values_view(containers@), node_label@, volumes@),
{
    let ghost cv = values_view(containers@);
    let ghost vv = volumes@;
    let mut entries: Vec<JsonEntry> = Vec::new();
    push_entry(&mut entries, "containers", JsonValue::Array(containers));
    push_entry(&mut entries, "nodeSelector", object1(node_label, json_str("managed")));
    push_entry(&mut entries, "volumes", volumes);
    push_entry(&mut entries, "hostNetwork", JsonValue::Bool(true));
    push_entry(&mut entries, "dnsPolicy", json_str("ClusterFirstWithHostNet"));
    assert(entries_view(entries@) =~= spec_host_pod_spec(cv, node_label@, vv)->Object_0);
    json_object(entries)
}

/// A daemon set named `name` in `namespace`, whose pods carry `labels` and follow
/// `pod_spec`, updated pod by pod.
pub open spec fn spec_daemonset(name: Seq<char>, namespace: Seq<char>, labels: JsonData, pod_spec: JsonData) -> JsonData {
    JsonData::Object(
        seq![
            ("apiVersion"@, jstr("apps/v1"@)),
            ("kind"@, jstr("DaemonSet"@)),
            (
                "metadata"@,
                JsonData::Object(
                    seq![("name"@, jstr(name)), ("namespace"@, jstr(namespace)), ("labels"@, labels)],
                ),
            ),
            (
                "spec"@,
                JsonData::Object(
                    seq![
                        ("selector"@, jobj1("matchLabels"@, labels)),
                        ("template"@, jobj2("metadata"@, jobj1("labels"@, labels), "spec"@, pod_spec)),
                        ("updateStrategy"@, jobj1("type"@, jstr("RollingUpdate"@))),
                    ],
                ),
            ),
        ],
    )
}

/// A daemon set named `name` in `namespace`, whose pods carry `labels` and follow
/// `pod_spec`, updated pod by pod.
pub fn daemonset(name: &str, namespace: &str, labels: JsonValue, pod_spec: JsonValue) -> (r: JsonValue)
    ensures
        r@ == spec_daemonset(name@, namespace@, labels@, pod_spec@),
{
    let ghost lv = labels@;
    let ghost pv = pod_spec@;
    let selector_labels = labels.deep_clone();
    let template_labels = labels.deep_clone();
    let mut meta: Vec<JsonEntry> = Vec::new();
    push_entry(&mut meta, "name", json_str(name));
    push_entry(&mut meta, "namespace", json_str(namespace));
    push_entry(&mut meta, "labels", labels);
    let ghost meta_view = entries_view(meta@);
    let mut spec: Vec<JsonEntry> = Vec::new();
    push_entry(&mut spec, "selector", object1("matchLabels", selector_labels));
    push_entry(&mut spec, "template", object2("metadata", object1("labels", template_labels), "spec", pod_spec));
    push_entry(&mut spec, "updateStrategy", object1("type", json_str("RollingUpdate")));
    let ghost spec_view = entries_view(spec@);
    let mut top: Vec<JsonEntry> = Vec::new();
    push_entry(&mut top, "apiVersion", json_str("apps/v1"));
    push_entry(&mut top, "kind", json_str("DaemonSet"));
    push_entry(&mut top, "metadata", json_object(meta));
    push_entry(&mut top, "spec", json_object(spec));
    assert(meta_view =~= seq![("name"@, jstr(name@)), ("namespace"@, jstr(namespace@)), ("labels"@, lv)]);
    assert(spec_view =~= seq![
        ("selector"@, jobj1("matchLabels"@, lv)),
        ("template"@, jobj2("metadata"@, jobj1("labels"@, lv), "spec"@, pv)),
        ("updateStrategy"@, jobj1("type"@, jstr("RollingUpdate"@))),
    ]);
    assert(entries_view(top@) =~= spec_daemonset(name@, namespace@, lv, pv)->Object_0);
    json_object(top)
}

} // verus!
