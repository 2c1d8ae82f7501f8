//! The daemon set of the libvirt host controllers.
use vstd::prelude::*;

use crate::cluster::manifest::{jobj1, jobj2, jstr, object1, object2, push_entry};
use crate::errors::Error;
use crate::json::{entries_view, json_object, json_str, values_view, JsonData, JsonEntry, JsonValue};

verus! {

broadcast use crate::json::data::group_json_view;

/// The name of the libvirt host controllers' daemon set, pods and container.
pub const HOST_CONTROLLER_NAME: &'static str = "libvirt-host-controller";

/// The daemon set that runs a libvirt host controller, from `image`, on every node.
pub open spec fn spec_host_daemonset(image: Seq<char>) -> JsonData {
    JsonData::Object(
        seq![
            ("apiVersion"@, jstr("apps/v1"@)),
            ("kind"@, jstr("DaemonSet"@)),
            (
                "metadata"@,
                jobj2("name"@, jstr(HOST_CONTROLLER_NAME@), "labels"@, JsonData::Object(Seq::empty())),
            ),
            (
                "spec"@,
                jobj2(
                    "selector"@,
                    jobj1("matchLabels"@, jobj1("name"@, jstr(HOST_CONTROLLER_NAME@))),
                    "template"@,
                    jobj2(
                        "metadata"@,
                        jobj1("labels"@, jobj1("name"@, jstr(HOST_CONTROLLER_NAME@))),
                        "spec"@,
                        jobj1(
                            "containers"@,
                            JsonData::Array(
                                seq![jobj2("name"@, jstr(HOST_CONTROLLER_NAME@), "image"@, jstr(image))],
                            ),
                        ),
                    ),
                ),
            ),
        ],
    )
}

/// The daemon set that runs a libvirt host controller, from `image`, on every node.
pub fn make_daemonset(image: String) -> (r: Result<JsonValue, Error>)
    ensures
        r matches Ok(ds) && ds@ == spec_host_daemonset(image@),
{
    let empty: Vec<JsonEntry> = Vec::new();
    assert(entries_view(empty@) =~= Seq::<(Seq<char>, JsonData)>::empty());
    let metadata = object2("name", json_str(HOST_CONTROLLER_NAME), "labels", json_object(empty));
    let mut containers: Vec<JsonValue> = Vec::new();
    containers.push(object2("name", json_str(HOST_CONTROLLER_NAME), "image", json_str(image.as_str())));
    assert(values_view(containers@) =~= seq![
        jobj2("name"@, jstr(HOST_CONTROLLER_NAME@), "image"@, jstr(image@)),
    ]);
    let spec = object2(
        "selector",
        object1("matchLabels", object1("name", json_str(HOST_CONTROLLER_NAME))),
        "template",
        object2(
            "metadata",
            object1("labels", object1("name", json_str(HOST_CONTROLLER_NAME))),
            "spec",
            object1("containers", JsonValue::Array(containers)),
        ),
    );
    let mut top: Vec<JsonEntry> = Vec::new();
    push_entry(&mut top, "apiVersion", json_str("apps/v1"));
    push_entry(&mut top, "kind", json_str("DaemonSet"));
    push_entry(&mut top, "metadata", metadata);
    push_entry(&mut top, "spec", spec);
    assert(entries_view(top@) =~= spec_host_daemonset(image@)->Object_0);
    Ok(json_object(top))
}

} // verus!
