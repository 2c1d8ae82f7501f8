//! The OVN controller, which runs on every node that carries the OVN management label.
use vstd::prelude::*;

use crate::cluster::manifest::{
    app_labels, daemonset, host_pod_spec, jobj1, jobj2, jstr, object1, object2, privileged, push_entry,
    push_text, rundir_env, spec_app_labels, spec_daemonset, spec_host_pod_spec, spec_privileged,
    spec_rundir_env,
};
use crate::errors::Error;
use crate::json::{entries_view, json_object, json_str, values_view, JsonData, JsonEntry, JsonValue};

verus! {

broadcast use crate::json::data::group_json_view;

/// The name of the OVN controller's daemon set, container and pods.
pub const OVN_CONTROLLER_NAME: &'static str = "ovn-controller";

/// The node label whose value "managed" places an OVN controller on a node.
pub const OVN_CONTROLLER_MANAGEMENT_LABEL: &'static str = "cluster-virt.acl.fi/ovn-controller";

/// The arguments of the OVN controller.
pub open spec fn spec_ovn_controller_args() -> Seq<JsonData> {
    seq![
        jstr("unix:/var/run/openvswitch/db.sock"@),
        jstr("-vfile:info"@),
        jstr("--no-chdir"@),
        jstr("--log-file=/dev/stdout"@),
        jstr("--pidfile=/var/run/ovn/ovn-controller.pid"@),
        jstr("--monitor"@),
    ]
}

/// The volume mounts of the OVN controller.
pub open spec fn spec_ovn_controller_mounts() -> JsonData {
    JsonData::Array(
        seq![
            jobj2("name"@, jstr("ovs-run"@), "mountPath"@, jstr("/var/run/openvswitch"@)),
            jobj2("name"@, jstr("ovn-run"@), "mountPath"@, jstr("/var/run/ovn"@)),
        ],
    )
}

/// The container of the OVN controller, running `image`.
pub open spec fn spec_ovn_controller_container(image: Seq<char>) -> JsonData {
    JsonData::Object(
        seq![
            ("name"@, jstr(OVN_CONTROLLER_NAME@)),
            ("image"@, jstr(image)),
            ("command"@, JsonData::Array(seq![jstr("ovn-controller"@)])),
            ("args"@, JsonData::Array(spec_ovn_controller_args())),
            ("env"@, spec_rundir_env()),
            ("volumeMounts"@, spec_ovn_controller_mounts()),
            ("securityContext"@, spec_privileged()),
        ],
    )
}

/// The volumes of the OVN controller's pods: the host's Open vSwitch run directory, and
/// an empty directory for OVN's own.
pub open spec fn spec_ovn_controller_volumes() -> JsonData {
    JsonData::Array(
        seq![
            jobj2(
                "name"@,
                jstr("ovs-run"@),
                "hostPath"@,
                jobj2("path"@, jstr("/var/run/openvswitch"@), "type"@, jstr("Directory"@)),
            ),
            jobj2("name"@, jstr("ovn-run"@), "emptyDir"@, JsonData::Object(Seq::empty())),
        ],
    )
}

/// The daemon set of the OVN controller in `namespace`, running `image`.
pub open spec fn spec_ovn_daemonset(image: Seq<char>, namespace: Seq<char>) -> JsonData {
    spec_daemonset(
        OVN_CONTROLLER_NAME@,
        namespace,
        spec_app_labels(OVN_CONTROLLER_NAME@),
        spec_host_pod_spec(
            seq![spec_ovn_controller_container(image)],
            OVN_CONTROLLER_MANAGEMENT_LABEL@,
            spec_ovn_controller_volumes(),
        ),
    )
}

fn ovn_controller_container(image: &str) -> (r: JsonValue)
    ensures
        r@ == spec_ovn_controller_container(image@),
{
    let mut command: Vec<JsonValue> = Vec::new();
    push_text(&mut command, "ovn-controller");
    assert(values_view(command@) =~= seq![jstr("ovn-controller"@)]);
    let mut args: Vec<JsonValue> = Vec::new();
    push_text(&mut args, "unix:/var/run/openvswitch/db.sock");
    push_text(&mut args, "-vfile:info");
    push_text(&mut args, "--no-chdir");
    push_text(&mut args, "--log-file=/dev/stdout");
    push_text(&mut args, "--pidfile=/var/run/ovn/ovn-controller.pid");
    push_text(&mut args, "--monitor");
    assert(values_view(args@) =~= spec_ovn_controller_args());
    let mut mounts: Vec<JsonValue> = Vec::new();
    mounts.push(object2("name", json_str("ovs-run"), "mountPath", json_str("/var/run/openvswitch")));
    mounts.push(object2("name", json_str("ovn-run"), "mountPath", json_str("/var/run/ovn")));
    assert(values_view(mounts@) =~= spec_ovn_controller_mounts()->Array_0);
    let ghost command_view = values_view(command@);
    let ghost args_view = values_view(args@);
    let ghost mounts_view = values_view(mounts@);
    let mut entries: Vec<JsonEntry> = Vec::new();
    push_entry(&mut entries, "name", json_str(OVN_CONTROLLER_NAME));
    push_entry(&mut entries, "image", json_str(image));
    push_entry(&mut entries, "command", JsonValue::Array(command));
    push_entry(&mut entries, "args", JsonValue::Array(args));
    push_entry(&mut entries, "env", rundir_env());
    push_entry(&mut entries, "volumeMounts", JsonValue::Array(mounts));
    push_entry(&mut entries, "securityContext", privileged());
    assert(entries_view(entries@) =~= spec_ovn_controller_container(image@)->Object_0);
    json_object(entries)
}

fn ovn_controller_volumes() -> (r: JsonValue)
    ensures
        r@ == spec_ovn_controller_volumes(),
{
    let mut items: Vec<JsonValue> = Vec::new();
    items.push(
        object2(
            "name",
            json_str("ovs-run"),
            "hostPath",
            object2("path", json_str("/var/run/openvswitch"), "type", json_str("Directory")),
        ),
    );
    let empty: Vec<JsonEntry> = Vec::new();
    assert(entries_view(empty@) =~= Seq::<(Seq<char>, JsonData)>::empty());
    items.push(object2("name", json_str("ovn-run"), "emptyDir", json_object(empty)));
    assert(values_view(items@) =~= spec_ovn_controller_volumes()->Array_0);
    JsonValue::Array(items)
}

/// The daemon set that runs the OVN controller, from `image`, in `namespace`, on the
/// nodes labelled for it.
pub fn make_ovn_daemonset(image: String, namespace: &str) -> (r: Result<JsonValue, Error>)
    ensures
        r matches Ok(ds) && ds@ == spec_ovn_daemonset(image@, namespace@),
{
    let container = ovn_controller_container(image.as_str());
    let mut containers: Vec<JsonValue> = Vec::new();
    containers.push(container);
    let ghost cv = values_view(containers@);
    assert(cv =~= seq![spec_ovn_controller_container(image@)]);
    let pod_spec = host_pod_spec(containers, OVN_CONTROLLER_MANAGEMENT_LABEL, ovn_controller_volumes());
    let ds = daemonset(OVN_CONTROLLER_NAME, namespace, app_labels(OVN_CONTROLLER_NAME), pod_spec);
    Ok(ds)
}

} // verus!
