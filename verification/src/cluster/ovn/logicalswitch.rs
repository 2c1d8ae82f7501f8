//! Logical switches.
use vstd::prelude::*;

use crate::cluster::ovn::common::{OvnBasicType, OvnCommon, OvnNamed, OvnNamedGetters};
use crate::cluster::ovn::deserialization::{
    deserialize_object, deserialize_string, deserialize_uuid, spec_row_string, spec_row_uuid,
};
use crate::cluster::ovn::logicalswitchport::{LogicalSwitchPort, LogicalSwitchPortBuilder};
use crate::cluster::ovn::lowlevel::{TYPE_LOGICAL_SWITCH, TYPE_LOGICAL_SWITCH_PORT};
use crate::cluster::ovn::ops::{
    jstr, insert_named_op, mutate_op, mutations, object1, object4, set_of_one, spec_insert_named_op,
    spec_mutate_op, spec_mutations, spec_set_of_one, spec_update_op, spec_where_uuid, update_op,
    where_uuid,
};
use crate::errors::Error;
use crate::json::{
    clone_entries, entries_view, json_array1, json_array2, json_entry, json_object, json_str,
    object_insert, object_set, values_view, JsonData, JsonEntry, JsonValue,
};

verus! {

broadcast use crate::json::data::group_json_view;

/// A row of `Logical_Switch`.
pub struct LogicalSwitch {
    pub uuid: String,
    pub name: String,
}

/// The view of a logical switch.
pub struct LogicalSwitchView {
    pub uuid: Seq<char>,
    pub name: Seq<char>,
}

impl View for LogicalSwitch {
    type V = LogicalSwitchView;

    open spec fn view(&self) -> LogicalSwitchView {
        LogicalSwitchView { uuid: self.uuid@, name: self.name@ }
    }
}

/// The row of a new port: the extra columns, with `name` set to the port's name.
pub open spec fn spec_port_row(extra_params: Option<Seq<(Seq<char>, JsonData)>>, lsp_name: Seq<char>) -> JsonData {
    let base = match extra_params {
        Some(p) => p,
        None => Seq::empty(),
    };
    JsonData::Object(object_set(base, "name"@, jstr(lsp_name)))
}

/// The transaction that creates a port named `lsp_name` and adds it to the switch with
/// UUID `ls_uuid`.
pub open spec fn spec_add_port_ops(
    ls_uuid: Seq<char>,
    lsp_name: Seq<char>,
    extra_params: Option<Seq<(Seq<char>, JsonData)>>,
) -> Seq<JsonData> {
    seq![
        spec_insert_named_op(TYPE_LOGICAL_SWITCH_PORT@, spec_port_row(extra_params, lsp_name), "new_lsp"@),
        spec_mutate_op(
            TYPE_LOGICAL_SWITCH@,
            ls_uuid,
            spec_mutations("ports"@, "insert"@, spec_set_of_one("named-uuid"@, "new_lsp"@)),
        ),
    ]
}

/// The optional extra columns as a view.
pub open spec fn extra_view(extra_params: Option<&Vec<JsonEntry>>) -> Option<Seq<(Seq<char>, JsonData)>> {
    match extra_params {
        Some(p) => Some(entries_view(p@)),
        None => None,
    }
}

/// The transaction that creates a port and adds it to a switch.
pub fn add_port_ops(ls_uuid: &str, lsp_name: &str, extra_params: Option<&Vec<JsonEntry>>) -> (r: Vec<JsonValue>)
    ensures
        values_view(r@) == spec_add_port_ops(ls_uuid@, lsp_name@, extra_view(extra_params)),
{
    let mut params: Vec<JsonEntry> = match extra_params {
        Some(p) => clone_entries(p),
        None => Vec::new(),
    };
    assert(entries_view(params@) == match extra_view(extra_params) {
        Some(p) => p,
        None => Seq::<(Seq<char>, JsonData)>::empty(),
    });
    object_insert(&mut params, "name".to_owned(), json_str(lsp_name));
    let add_lsp = insert_named_op(TYPE_LOGICAL_SWITCH_PORT, json_object(params), "new_lsp");
    let add_lsp_to_ls = mutate_op(
        TYPE_LOGICAL_SWITCH,
        ls_uuid,
        mutations("ports", "insert", set_of_one("named-uuid", "new_lsp")),
    );
    let ops = vec![add_lsp, add_lsp_to_ls];
    assert(values_view(ops@) =~= spec_add_port_ops(ls_uuid@, lsp_name@, extra_view(extra_params)));
    ops
}

/// The `update` that sets the `subnet` of a switch.
pub open spec fn spec_set_cidr(uuid: Seq<char>, cidr: Seq<char>) -> JsonData {
    spec_update_op(
        "Logical_Switch"@,
        uuid,
        JsonData::Object(
            seq![
                (
                    "other_config"@,
                    JsonData::Array(
                        seq![
                            jstr("map"@),
                            JsonData::Array(seq![JsonData::Array(seq![jstr("subnet"@), jstr(cidr)])]),
                        ],
                    ),
                ),
            ],
        ),
    )
}

/// The `mutate` that removes the port with UUID `lsp_uuid` from the switch `ls_uuid`.
pub open spec fn spec_del_port(ls_uuid: Seq<char>, lsp_uuid: Seq<char>) -> JsonData {
    spec_mutate_op(
        TYPE_LOGICAL_SWITCH@,
        ls_uuid,
        spec_mutations("ports"@, "delete"@, spec_set_of_one("uuid"@, lsp_uuid)),
    )
}

/// The `select` of the `ports` column of the switch with UUID `ls_uuid`.
pub open spec fn spec_select_ports(ls_uuid: Seq<char>) -> JsonData {
    JsonData::Object(
        seq![
            ("op"@, jstr("select"@)),
            ("table"@, jstr(TYPE_LOGICAL_SWITCH@)),
            ("where"@, spec_where_uuid(ls_uuid)),
            ("columns"@, JsonData::Array(seq![jstr("ports"@)])),
        ],
    )
}

impl LogicalSwitch {
    /// The operation that reads the UUIDs of this switch's ports.
    pub fn select_ports(&self) -> (r: JsonValue)
        ensures
            r@ == spec_select_ports(self.uuid@),
    {
        object4(
            json_entry("op", json_str("select")),
            json_entry("table", json_str(TYPE_LOGICAL_SWITCH)),
            json_entry("where", where_uuid(self.uuid.as_str())),
            json_entry("columns", json_array1(json_str("ports"))),
        )
    }

    /// A builder of ports on this switch.
    pub fn lsp(&self) -> (r: LogicalSwitchPortBuilder<'_>)
        ensures
            r.ls == self,
    {
        LogicalSwitchPortBuilder { ls: self }
    }

    /// The operation that sets the subnet of this switch to `cidr`.
    pub fn set_cidr(&self, cidr: &str) -> (r: JsonValue)
        ensures
            r@ == spec_set_cidr(self.uuid@, cidr@),
    {
        let map = json_array2(
            json_str("map"),
            json_array1(json_array2(json_str("subnet"), json_str(cidr))),
        );
        update_op("Logical_Switch", self.uuid.as_str(), object1(json_entry("other_config", map)))
    }

    /// The operations that create a port named `lsp_name`, with the extra columns given,
    /// and add it to this switch.
    pub fn add_lsp(&self, lsp_name: &str, extra_params: Option<&Vec<JsonEntry>>) -> (r: Vec<JsonValue>)
        ensures
            values_view(r@) == spec_add_port_ops(self.uuid@, lsp_name@, extra_view(extra_params)),
    {
        add_port_ops(self.uuid.as_str(), lsp_name, extra_params)
    }

    /// The operation that removes the port named `lsp_id` from this switch, looked up
    /// among `ports`; `OvnNotFound` when no port has that name.
    pub fn del_lsp(&self, ports: Vec<LogicalSwitchPort>, lsp_id: &str) -> (r: Result<JsonValue, Error>)
        ensures
            match r {
                Ok(op) => exists|i: int|
                    0 <= i < ports.len() && ports@[i].name@ == lsp_id@ && (forall|j: int|
                        0 <= j < i ==> (#[trigger] ports@[j]).name@ != lsp_id@) && op@
                        == spec_del_port(self.uuid@, ports@[i].uuid@),
                Err(e) => (forall|i: int| 0 <= i < ports.len() ==> (#[trigger] ports@[i]).name@ != lsp_id@)
                    && (e matches Error::OvnNotFound(t, n) && t@ == TYPE_LOGICAL_SWITCH_PORT@ && n@ == lsp_id@),
            },
    {
        let ghost all = ports@;
        match LogicalSwitchPort::get_by_name(ports, lsp_id) {
            Ok(lsp) => {
                let op = mutate_op(
                    TYPE_LOGICAL_SWITCH,
                    self.uuid.as_str(),
                    mutations("ports", "delete", set_of_one("uuid", lsp.uuid.as_str())),
                );
                proof {
                    let i = choose|i: int|
                        0 <= i < all.len() && all[i] == lsp && LogicalSwitchPort::spec_name(lsp@)
                            == lsp_id@ && forall|j: int|
                            0 <= j < i ==> LogicalSwitchPort::spec_name(#[trigger] all[j]@)
                                != lsp_id@;
                    assert forall|j: int| 0 <= j < i implies (#[trigger] all[j]).name@ != lsp_id@ by {
                        assert(LogicalSwitchPort::spec_name(all[j]@) != lsp_id@);
                    }
                }
                Ok(op)
            },
            Err(e) => {
                proof {
                    assert forall|i: int| 0 <= i < all.len() implies (#[trigger] all[i]).name@ != lsp_id@ by {
                        assert(LogicalSwitchPort::spec_name(all[i]@) != lsp_id@);
                    }
                }
                Err(e)
            },
        }
    }
}

impl OvnCommon for LogicalSwitch {
    open spec fn spec_uuid(v: LogicalSwitchView) -> Seq<char> {
        v.uuid
    }

    open spec fn spec_ovn_type() -> Seq<char> {
        TYPE_LOGICAL_SWITCH@
    }

    open spec fn spec_deserialize(row: JsonData) -> Option<LogicalSwitchView> {
        match row {
            JsonData::Object(o) => match (spec_row_uuid(o), spec_row_string(o, "name"@)) {
                (Some(u), Some(n)) => Some(LogicalSwitchView { uuid: u, name: n }),
                _ => None,
            },
            _ => None,
        }
    }

    fn uuid(&self) -> (r: String) {
        self.uuid.clone()
    }

    fn ovn_type() -> (r: String) {
        TYPE_LOGICAL_SWITCH.to_owned()
    }

    fn deserialize(value: &JsonValue) -> (r: Result<Self, Error>) {
        let object = deserialize_object(value)?;
        let uuid = deserialize_uuid(object)?;
        let name = deserialize_string(object, "name")?;
        Ok(LogicalSwitch { uuid, name })
    }
}

impl OvnNamed for LogicalSwitch {
    open spec fn spec_name(v: LogicalSwitchView) -> Seq<char> {
        v.name
    }

    fn name(&self) -> (r: String) {
        self.name.clone()
    }
}

impl OvnBasicType for LogicalSwitch {}

} // verus!
