//! Virtual machines.
use vstd::prelude::*;

use crate::errors::Error;
use crate::json::{entries_view, json_entry, json_object, json_str, values_view, JsonData, JsonEntry, JsonNumber, JsonValue, NumberData};
use crate::meta::ObjectMeta;
use crate::text::{clone_opt_string, str_equal};

pub mod v1beta2;
pub mod v1beta3;

verus! {

broadcast use crate::json::data::group_json_view;

/// The newest version of the virtual machine resource.
pub const LATEST_VERSION: &'static str = "v1beta3";

/// A volume attached to a virtual machine.
#[derive(Debug, PartialEq, Eq, Default)]
pub struct VolumeAttachment {
    pub name: String,
}

/// A network interface of a virtual machine: a managed network (`name`) or an
/// externally created host bridge (`bridge`).
#[derive(Debug, PartialEq, Eq, Default)]
pub struct NetworkAttachment {
    pub name: Option<String>,
    pub bridge: Option<String>,
    pub mac_address: Option<String>,
    pub queues: Option<u8>,
    pub ovn_id: Option<String>,
}

impl NetworkAttachment {
    /// A copy of the attachment.
    pub fn copy(&self) -> (r: NetworkAttachment)
        ensures
            r == *self,
    {
        NetworkAttachment {
            name: clone_opt_string(&self.name),
            bridge: clone_opt_string(&self.bridge),
            mac_address: clone_opt_string(&self.mac_address),
            queues: self.queues,
            ovn_id: clone_opt_string(&self.ovn_id),
        }
    }
}

/// A virtual machine resource in the newest version.
#[derive(Debug, PartialEq, Eq, Default)]
pub struct VirtualMachine {
    pub metadata: ObjectMeta,
    pub spec: v1beta3::VirtualMachineSpec,
    pub status: Option<v1beta3::VirtualMachineStatus>,
}

impl VirtualMachine {
    /// The status of the virtual machine; `NoStatusSubresource` with its name (empty when
    /// it has none) before it has one.
    pub fn try_status(&self) -> (r: Result<&v1beta3::VirtualMachineStatus, Error>)
        ensures
            match r {
                Ok(s) => self.status == Some(*s),
                Err(e) => self.status is None && e is NoStatusSubresource,
            },
    {
        match &self.status {
            Some(s) => Ok(s),
            None => {
                let name = match &self.metadata.name {
                    Some(n) => n.clone(),
                    None => String::new(),
                };
                Err(Error::NoStatusSubresource(name))
            },
        }
    }
}

/// The resource is declared with exactly one version, the newest, so that no objects
/// need migrating.
pub open spec fn spec_only_latest(versions: Seq<Seq<char>>) -> bool {
    versions.len() == 1 && versions[0] == LATEST_VERSION@
}

/// Whether the resource is declared with exactly one version, the newest.
pub fn only_latest_version(versions: &Vec<String>) -> (r: bool)
    ensures
        r == spec_only_latest(crate::text::string_views(versions@)),
{
    versions.len() == 1 && str_equal(versions[0].as_str(), LATEST_VERSION)
}

/// The stored version whose objects are migrated to the newest version.
pub open spec fn spec_needs_upgrade(version: Seq<char>) -> bool {
    version == "v1beta2"@
}

/// Whether objects stored in `version` are migrated to the newest version.
pub fn needs_upgrade(version: &str) -> (r: bool)
    ensures
        r == spec_needs_upgrade(version@),
{
    str_equal(version, "v1beta2")
}

/// The member `key` holding the text `value`, when there is one.
pub open spec fn optional_member(key: Seq<char>, value: Option<String>) -> Seq<(Seq<char>, JsonData)> {
    match value {
        Some(v) => seq![(key, JsonData::Str(v@))],
        None => Seq::empty(),
    }
}

/// The JSON form of an interface: its fields that are set, in declaration order.
pub open spec fn spec_attachment_json(n: NetworkAttachment) -> JsonData {
    JsonData::Object(
        optional_member("name"@, n.name) + optional_member("bridge"@, n.bridge) + optional_member(
            "mac_address"@,
            n.mac_address,
        ) + match n.queues {
            Some(q) => seq![("queues"@, JsonData::Number(NumberData::PosInt(q as u64)))],
            None => Seq::empty(),
        } + optional_member("ovn_id"@, n.ovn_id),
    )
}

fn push_optional(entries: &mut Vec<JsonEntry>, key: &str, value: &Option<String>)
    ensures
        entries_view(final(entries)@) == entries_view(old(entries)@) + optional_member(key@, *value),
{
    match value {
        Some(v) => {
            let ghost before = entries_view(entries@);
            entries.push(json_entry(key, json_str(v.as_str())));
            assert(entries_view(entries@) =~= before + optional_member(key@, *value));
        },
        None => {
            assert(entries_view(entries@) =~= entries_view(entries@) + optional_member(key@, *value));
        },
    }
}

/// The JSON form of an interface.
pub fn attachment_json(n: &NetworkAttachment) -> (r: JsonValue)
    ensures
        r@ == spec_attachment_json(*n),
{
    let mut entries: Vec<JsonEntry> = Vec::new();
    assert(entries_view(entries@) =~= Seq::<(Seq<char>, JsonData)>::empty());
    push_optional(&mut entries, "name", &n.name);
    push_optional(&mut entries, "bridge", &n.bridge);
    push_optional(&mut entries, "mac_address", &n.mac_address);
    let ghost before = entries_view(entries@);
    match n.queues {
        Some(q) => {
            entries.push(json_entry("queues", JsonValue::Number(JsonNumber::PosInt(q as u64))));
            assert(entries_view(entries@) =~= before + seq![
                ("queues"@, JsonData::Number(NumberData::PosInt(q as u64))),
            ]);
        },
        None => {
            assert(entries_view(entries@) =~= before + Seq::<(Seq<char>, JsonData)>::empty());
        },
    }
    push_optional(&mut entries, "ovn_id", &n.ovn_id);
    json_object(entries)
}

/// The merge patch that copies the interfaces of a virtual machine stored in an older
/// version into the status of the newest version.
pub open spec fn spec_migration_status_patch(networks: Seq<NetworkAttachment>) -> JsonData {
    JsonData::Object(
        seq![
            (
                "status"@,
                JsonData::Object(
                    seq![
                        (
                            "networks"@,
                            JsonData::Array(networks.map_values(|n: NetworkAttachment| spec_attachment_json(n))),
                        ),
                    ],
                ),
            ),
        ],
    )
}

/// The merge patch that copies the interfaces of a virtual machine stored in an older
/// version into the status of the newest version.
pub fn migration_status_patch(networks: &Vec<NetworkAttachment>) -> (r: JsonValue)
    ensures
        r@ == spec_migration_status_patch(networks@),
{
    let mut items: Vec<JsonValue> = Vec::new();
    let mut i: usize = 0;
    while i < networks.len()
        invariant
            i <= networks.len(),
            values_view(items@) == networks@.take(i as int).map_values(
                |n: NetworkAttachment| spec_attachment_json(n),
            ),
        decreases networks.len() - i,
    {
        let ghost before = values_view(items@);
        let item = attachment_json(&networks[i]);
        items.push(item);
        assert(values_view(items@) =~= before.push(spec_attachment_json(networks@[i as int])));
        assert(networks@.take(i + 1) =~= networks@.take(i as int).push(networks@[i as int]));
        i = i + 1;
        assert(values_view(items@) =~= networks@.take(i as int).map_values(
            |n: NetworkAttachment| spec_attachment_json(n),
        ));
    }
    assert(networks@.take(networks.len() as int) =~= networks@);
    let ghost list = values_view(items@);
    let mut inner: Vec<JsonEntry> = Vec::new();
    inner.push(json_entry("networks", JsonValue::Array(items)));
    let ghost inner_view = entries_view(inner@);
    assert(inner_view =~= seq![("networks"@, JsonData::Array(list))]);
    let mut outer: Vec<JsonEntry> = Vec::new();
    outer.push(json_entry("status", json_object(inner)));
    assert(entries_view(outer@) =~= spec_migration_status_patch(networks@)->Object_0);
    json_object(outer)
}

} // verus!
