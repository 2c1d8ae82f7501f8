//! Logical router ports.
use vstd::prelude::*;

use crate::cluster::ovn::common::{Ensured, OvnCommon, OvnNamed, OvnNamedGetters};
use crate::cluster::ovn::deserialization::{
    deserialize_object, deserialize_string, deserialize_uuid, spec_row_string, spec_row_uuid,
};
use crate::cluster::ovn::lowlevel::{TYPE_LOGICAL_ROUTER, TYPE_LOGICAL_ROUTER_PORT};
use crate::cluster::ovn::ops::{
    inserted_refs, insert_named_op, jstr, lemma_insert_named_op_parts, lemma_mutate_op_targets,
    lemma_mutations_insert_one, mutate_op, mutations, object3, op_string, selected_uuid, set_of_one,
    spec_insert_named_op, spec_mutate_op, spec_mutations, spec_set_of_one, spec_update_op, update_op,
    written_string,
};
use crate::errors::Error;
use crate::json::{json_entry, json_str, values_view, JsonData, JsonValue};

verus! {

broadcast use crate::json::data::group_json_view;

/// The MAC address that router ports get.
pub const ROUTER_PORT_MAC: &'static str = "02:00:00:00:00:01";

/// The columns of a router port named `name` on `networks`.
pub open spec fn spec_router_port_row(name: Seq<char>, networks: Seq<char>) -> JsonData {
    JsonData::Object(
        seq![
            ("name"@, jstr(name)),
            ("mac"@, jstr(ROUTER_PORT_MAC@)),
            ("networks"@, jstr(networks)),
        ],
    )
}

/// The transaction that creates a router port and adds it to the router `lr_uuid`.
pub open spec fn spec_add_router_port_ops(lr_uuid: Seq<char>, lrp_name: Seq<char>, networks: Seq<char>) -> Seq<
    JsonData,
> {
    seq![
        spec_insert_named_op(TYPE_LOGICAL_ROUTER_PORT@, spec_router_port_row(lrp_name, networks), "new_lrp"@),
        spec_mutate_op(
            TYPE_LOGICAL_ROUTER@,
            lr_uuid,
            spec_mutations("ports"@, "insert"@, spec_set_of_one("named-uuid"@, "new_lrp"@)),
        ),
    ]
}

fn router_port_row(name: &str, networks: &str) -> (r: JsonValue)
    ensures
        r@ == spec_router_port_row(name@, networks@),
{
    object3(
        json_entry("name", json_str(name)),
        json_entry("mac", json_str(ROUTER_PORT_MAC)),
        json_entry("networks", json_str(networks)),
    )
}

/// Building ports on the router with UUID `lr_uuid`.
pub struct LogicalRouterPortBuilder {
    pub lr_uuid: String,
}

impl LogicalRouterPortBuilder {
    /// The operations that create a port named `lrp_name` on `networks` and add it to
    /// the router.
    pub fn create(self, lrp_name: &str, networks: &str) -> (r: Vec<JsonValue>)
        ensures
            values_view(r@) == spec_add_router_port_ops(self.lr_uuid@, lrp_name@, networks@),
    {
        let add_lrp = insert_named_op(
            TYPE_LOGICAL_ROUTER_PORT,
            router_port_row(lrp_name, networks),
            "new_lrp",
        );
        let add_lrp_to_lr = mutate_op(
            TYPE_LOGICAL_ROUTER,
            self.lr_uuid.as_str(),
            mutations("ports", "insert", set_of_one("named-uuid", "new_lrp")),
        );
        let ops = vec![add_lrp, add_lrp_to_lr];
        assert(values_view(ops@) =~= spec_add_router_port_ops(self.lr_uuid@, lrp_name@, networks@));
        ops
    }

    /// The port named `lrp_name` among `ports`, or the operations that create it.
    pub fn create_if_missing(self, ports: Vec<LogicalRouterPort>, lrp_name: &str, networks: &str) -> (r:
        Ensured<LogicalRouterPort>)
        ensures
            match r {
                Ensured::Existing(p) => p.name@ == lrp_name@ && exists|i: int|
                    0 <= i < ports.len() && ports@[i] == p && forall|j: int|
                        0 <= j < i ==> (#[trigger] ports@[j]).name@ != lrp_name@,
                Ensured::Create(ops) => (forall|i: int|
                    0 <= i < ports.len() ==> (#[trigger] ports@[i]).name@ != lrp_name@) && values_view(
                    ops@,
                ) == spec_add_router_port_ops(self.lr_uuid@, lrp_name@, networks@),
            },
    {
        let ghost all = ports@;
        match LogicalRouterPort::get_by_name(ports, lrp_name) {
            Ok(p) => {
                proof {
                    let i = choose|i: int|
                        0 <= i < all.len() && all[i] == p && LogicalRouterPort::spec_name(p@)
                            == lrp_name@ && forall|j: int|
                            0 <= j < i ==> LogicalRouterPort::spec_name(#[trigger] all[j]@)
                                != lrp_name@;
                    assert forall|j: int| 0 <= j < i implies (#[trigger] all[j]).name@ != lrp_name@ by {
                        assert(LogicalRouterPort::spec_name(all[j]@) != lrp_name@);
                    }
                }
                Ensured::Existing(p)
            },
            Err(_) => {
                proof {
                    assert forall|i: int| 0 <= i < all.len() implies (#[trigger] all[i]).name@ != lrp_name@ by {
                        assert(LogicalRouterPort::spec_name(all[i]@) != lrp_name@);
                    }
                }
                Ensured::Create(self.create(lrp_name, networks))
            },
        }
    }
}

/// A row of `Logical_Router_Port`.
pub struct LogicalRouterPort {
    pub uuid: String,
    pub name: String,
}

/// The view of a router port.
pub struct LogicalRouterPortView {
    pub uuid: Seq<char>,
    pub name: Seq<char>,
}

impl View for LogicalRouterPort {
    type V = LogicalRouterPortView;

    open spec fn view(&self) -> LogicalRouterPortView {
        LogicalRouterPortView { uuid: self.uuid@, name: self.name@ }
    }
}

impl LogicalRouterPort {
    /// The operation that sets the port's networks, keeping its name and MAC.
    pub fn update(&self, networks: &str) -> (r: JsonValue)
        ensures
            r@ == spec_update_op(
                TYPE_LOGICAL_ROUTER_PORT@,
                self.uuid@,
                spec_router_port_row(self.name@, networks@),
            ),
    {
        update_op(
            TYPE_LOGICAL_ROUTER_PORT,
            self.uuid.as_str(),
            router_port_row(self.name.as_str(), networks),
        )
    }
}

impl OvnCommon for LogicalRouterPort {
    open spec fn spec_uuid(v: LogicalRouterPortView) -> Seq<char> {
        v.uuid
    }

    open spec fn spec_ovn_type() -> Seq<char> {
        TYPE_LOGICAL_ROUTER_PORT@
    }

    open spec fn spec_deserialize(row: JsonData) -> Option<LogicalRouterPortView> {
        match row {
            JsonData::Object(o) => match (spec_row_uuid(o), spec_row_string(o, "name"@)) {
                (Some(u), Some(n)) => Some(LogicalRouterPortView { uuid: u, name: n }),
                _ => None,
            },
            _ => None,
        }
    }

    fn uuid(&self) -> (r: String) {
        self.uuid.clone()
    }

    fn ovn_type() -> (r: String) {
        TYPE_LOGICAL_ROUTER_PORT.to_owned()
    }

    fn deserialize(value: &JsonValue) -> (r: Result<Self, Error>) {
        let object = deserialize_object(value)?;
        let uuid = deserialize_uuid(object)?;
        let name = deserialize_string(object, "name")?;
        Ok(LogicalRouterPort { uuid, name })
    }
}

impl OvnNamed for LogicalRouterPort {
    open spec fn spec_name(v: LogicalRouterPortView) -> Seq<char> {
        v.name
    }

    fn name(&self) -> (r: String) {
        self.name.clone()
    }
}

/// Creating a router port connects it to the router: of the two operations that
/// `create` gives, the first inserts into the router ports a row with the port's name,
/// the router-port MAC address and the networks, under a name for the transaction, and
/// the second mutates the router `lr_uuid`, inserting that named row into its ports.
pub proof fn lemma_router_port_joins_router(lr_uuid: Seq<char>, lrp_name: Seq<char>, networks: Seq<char>)
    ensures
        spec_add_router_port_ops(lr_uuid, lrp_name, networks).len() == 2,
        op_string(spec_add_router_port_ops(lr_uuid, lrp_name, networks)[0], "op"@) == Some("insert"@),
        op_string(spec_add_router_port_ops(lr_uuid, lrp_name, networks)[0], "table"@) == Some(
            TYPE_LOGICAL_ROUTER_PORT@,
        ),
        written_string(spec_add_router_port_ops(lr_uuid, lrp_name, networks)[0], "name"@) == Some(lrp_name),
        written_string(spec_add_router_port_ops(lr_uuid, lrp_name, networks)[0], "mac"@) == Some(
            ROUTER_PORT_MAC@,
        ),
        written_string(spec_add_router_port_ops(lr_uuid, lrp_name, networks)[0], "networks"@) == Some(networks),
        op_string(spec_add_router_port_ops(lr_uuid, lrp_name, networks)[1], "op"@) == Some("mutate"@),
        op_string(spec_add_router_port_ops(lr_uuid, lrp_name, networks)[1], "table"@) == Some(
            TYPE_LOGICAL_ROUTER@,
        ),
        selected_uuid(spec_add_router_port_ops(lr_uuid, lrp_name, networks)[1]) == Some(lr_uuid),
        op_string(spec_add_router_port_ops(lr_uuid, lrp_name, networks)[0], "uuid-name"@) matches Some(n)
            && inserted_refs(spec_add_router_port_ops(lr_uuid, lrp_name, networks)[1], "ports"@).contains(
            JsonData::Array(seq![JsonData::Str("named-uuid"@), JsonData::Str(n)]),
        ),
{
    let ops = spec_add_router_port_ops(lr_uuid, lrp_name, networks);
    let row = spec_router_port_row(lrp_name, networks);
    let muts = spec_mutations("ports"@, "insert"@, spec_set_of_one("named-uuid"@, "new_lrp"@));
    lemma_insert_named_op_parts(TYPE_LOGICAL_ROUTER_PORT@, row, "new_lrp"@);
    lemma_mutate_op_targets(TYPE_LOGICAL_ROUTER@, lr_uuid, muts);
    lemma_mutations_insert_one("ports"@, "named-uuid"@, "new_lrp"@);
    reveal_strlit("name");
    reveal_strlit("mac");
    reveal_strlit("networks");
    let e0 = ("name"@, jstr(lrp_name));
    let e1 = ("mac"@, jstr(ROUTER_PORT_MAC@));
    let e2 = ("networks"@, jstr(networks));
    crate::json::lemma_lookup3(e0, e1, e2, "name"@);
    crate::json::lemma_lookup3(e0, e1, e2, "mac"@);
    crate::json::lemma_lookup3(e0, e1, e2, "networks"@);
    assert("name"@.len() == 4 && "mac"@.len() == 3 && "networks"@.len() == 8);
    let refs = inserted_refs(ops[1], "ports"@);
    assert(refs[0] == JsonData::Array(seq![JsonData::Str("named-uuid"@), JsonData::Str("new_lrp"@)]));
}

} // verus!
