//! The decisions of the OVN controllers: which objects a network, a router or a
//! virtual machine needs, under which names, and with which operations.
use vstd::prelude::*;

use crate::cluster::ovn::common::{
    spec_delete_by_uuid, Ensured, OvnBasicActions, OvnCommon, OvnNamed, OvnNamedGetters,
};
use crate::cluster::ovn::dhcpoptions::{
    spec_dhcp_server_address, spec_create_dhcp_options, spec_dhcp_option_list, spec_set_options,
    DhcpOptions,
};
use crate::cluster::ovn::logicalrouter::LogicalRouter;
use crate::cluster::ovn::logicalswitch::{spec_set_cidr, LogicalSwitch};
use crate::cluster::ovn::lowlevel::{
    lemma_list_objects_parts, lemma_selected_column, lists_column, selected_members, spec_list_columns,
    spec_list_objects, TYPE_DHCP_OPTIONS, TYPE_LOGICAL_ROUTER, TYPE_LOGICAL_ROUTER_PORT,
    TYPE_LOGICAL_ROUTER_STATIC_ROUTE, TYPE_LOGICAL_SWITCH, TYPE_LOGICAL_SWITCH_PORT,
};
use crate::cluster::ovn::ops::jstr;
use crate::crd::ovn::{DhcpOptions as DhcpOptionsCrd, RouterAttachment, RouterSpec};
use crate::crd::virtualmachine::{NetworkAttachment, VirtualMachine};
use crate::crd::virtualmachine::v1beta3::VirtualMachineStatus;
use crate::errors::Error;
use crate::json::{
    entries_view, json_array1, json_array2, json_entry, json_str, values_view, JsonData,
    JsonEntry, JsonValue,
};
use crate::meta::ObjectMeta;
use crate::text::{concat3, join_seq, join_strings, push_str, split_char, split_seq, string_views};

verus! {

broadcast use crate::json::data::group_json_view;

/// The finalizer that keeps a network, a router or a virtual machine until its OVN
/// objects are removed.
pub const OVN_FINALIZER: &'static str = "cluster-virt.acl.fi/ovn";

/// The network of the metadata service next to a router.
pub const METADATA_SERVICE_NETWORK: &'static str = "169.254.169.253/30";

/// The MAC address of the metadata service's port.
pub const METADATA_SERVICE_MAC: &'static str = "02:00:00:00:00:02";

/// The name of the router's port towards a switch: "lr_ROUTER_ls_SWITCH".
pub open spec fn spec_router_port_name(router: Seq<char>, switch: Seq<char>) -> Seq<char> {
    "lr_"@ + router + "_ls_"@ + switch
}

/// The name of the switch's port towards a router: "ls_SWITCH_lr_ROUTER".
pub open spec fn spec_switch_port_name(router: Seq<char>, switch: Seq<char>) -> Seq<char> {
    "ls_"@ + switch + "_lr_"@ + router
}

/// The extra columns of the switch port that leads to the router port `lrp_name`.
pub open spec fn spec_router_link_params(lrp_name: Seq<char>) -> Seq<(Seq<char>, JsonData)> {
    seq![
        ("type"@, jstr("router"@)),
        ("addresses"@, jstr("router"@)),
        (
            "options"@,
            JsonData::Array(
                seq![
                    jstr("map"@),
                    JsonData::Array(seq![JsonData::Array(seq![jstr("router-port"@), jstr(lrp_name)])]),
                ],
            ),
        ),
    ]
}

/// The two ports that connect a router to a switch: the router's port, and the
/// switch's port of type "router" that points at it.
pub struct RouterLink {
    pub lrp_name: String,
    pub lsp_name: String,
    pub lsp_params: Vec<JsonEntry>,
}

/// The names and columns of the ports that connect `router` to `switch`; the router's
/// port gets the router's address on the switch's network.
pub fn connect_router_to_ls(router: &LogicalRouter, switch: &LogicalSwitch) -> (r: RouterLink)
    ensures
        r.lrp_name@ == spec_router_port_name(router.name@, switch.name@),
        r.lsp_name@ == spec_switch_port_name(router.name@, switch.name@),
        entries_view(r.lsp_params@) == spec_router_link_params(r.lrp_name@),
{
    let mut lrp_name = concat3("lr_", router.name.as_str(), "_ls_");
    push_str(&mut lrp_name, switch.name.as_str());
    let mut lsp_name = concat3("ls_", switch.name.as_str(), "_lr_");
    push_str(&mut lsp_name, router.name.as_str());
    let options = json_array2(
        json_str("map"),
        json_array1(json_array2(json_str("router-port"), json_str(lrp_name.as_str()))),
    );
    let params = vec![
        json_entry("type", json_str("router")),
        json_entry("addresses", json_str("router")),
        json_entry("options", options),
    ];
    assert(entries_view(params@) =~= spec_router_link_params(lrp_name@));
    RouterLink { lrp_name, lsp_name, lsp_params: params }
}

/// The namespace and name of the router that an attachment names: "NAME" is a router in
/// the network's namespace, "NAMESPACE/NAME" one in the given namespace.
pub open spec fn spec_attachment_target(network_ns: Seq<char>, attachment_name: Seq<char>) -> (Seq<char>, Seq<char>) {
    let parts = split_seq(attachment_name, '/');
    if parts.len() == 1 {
        (network_ns, parts[0])
    } else {
        (parts[0], parts[1])
    }
}

/// Whether a router attachment names a router as "NAME" or "NAMESPACE/NAME", as
/// `ensure_router_attachment` needs.
pub fn router_name_is_valid(name: &str) -> (r: bool)
    ensures
        r == (split_seq(name@, '/').len() <= 2),
{
    let parts = split_char(name, '/');
    proof {
        assert(string_views(parts@).len() == parts@.len());
    }
    parts.len() <= 2
}

/// The names of the logical router and logical switch that a router attachment of a
/// network connects: "NAMESPACE-ROUTER" and "NAMESPACE-NETWORK".
pub fn ensure_router_attachment(network: &ObjectMeta, router_attachment: &RouterAttachment) -> (r: (
    String,
    String,
))
    requires
        network.name is Some,
        network.namespace is Some,
        split_seq(router_attachment.name@, '/').len() <= 2,
    ensures
        r.0@ == spec_attachment_target(network.namespace->0@, router_attachment.name@).0 + "-"@
            + spec_attachment_target(network.namespace->0@, router_attachment.name@).1,
        r.1@ == network.namespace->0@ + "-"@ + network.name->0@,
{
    let network_ns = network.namespace.as_ref().unwrap();
    let split = split_char(router_attachment.name.as_str(), '/');
    proof {
        crate::text::lemma_split_seq_nonempty(router_attachment.name@, '/');
        assert(string_views(split@)[0] == split@[0]@);
    }
    let lr_name = if split.len() == 1 {
        concat3(network_ns.as_str(), "-", split[0].as_str())
    } else {
        assert(string_views(split@)[1] == split@[1]@);
        concat3(split[0].as_str(), "-", split[1].as_str())
    };
    let ls_name = network.name_prefixed_with_namespace();
    (lr_name, ls_name)
}

/// The DHCP option set for `cidr` among `options`, or the operation that creates it.
pub fn dhcp_options_for(options: Vec<DhcpOptions>, cidr: &str) -> (r: Ensured<DhcpOptions>)
    ensures
        match r {
            Ensured::Existing(x) => x.cidr@ == cidr@ && exists|i: int|
                0 <= i < options.len() && options@[i] == x && forall|j: int|
                    0 <= j < i ==> (#[trigger] options@[j]).cidr@ != cidr@,
            Ensured::Create(ops) => (forall|i: int|
                0 <= i < options.len() ==> (#[trigger] options@[i]).cidr@ != cidr@) && values_view(ops@)
                == seq![spec_create_dhcp_options(cidr@)],
        },
        match r {
            Ensured::Existing(x) => first_for_cidr(options@, cidr@) == Some(x),
            Ensured::Create(_) => first_for_cidr(options@, cidr@) is None,
        },
{
    let ghost all = options@;
    match DhcpOptions::get_by_cidr(options, cidr) {
        Ok(x) => {
            proof {
                let i = choose|i: int|
                    0 <= i < all.len() && all[i] == x && x.cidr@ == cidr@ && forall|j: int|
                        0 <= j < i ==> (#[trigger] all[j]).cidr@ != cidr@;
                lemma_first_for_cidr_at(all, cidr@, i);
            }
            Ensured::Existing(x)
        },
        Err(_) => {
            proof {
                lemma_first_for_cidr_none(all, cidr@);
            }
            let ops = vec![DhcpOptions::create(cidr)];
            assert(values_view(ops@) =~= seq![spec_create_dhcp_options(cidr@)]);
            Ensured::Create(ops)
        },
    }
}

/// How many of `options` are for the network `cidr`.
pub open spec fn count_for_cidr(options: Seq<DhcpOptions>, cidr: Seq<char>) -> nat
    decreases options.len(),
{
    if options.len() == 0 {
        0
    } else {
        count_for_cidr(options.drop_last(), cidr) + if options.last().cidr@ == cidr {
            1nat
        } else {
            0nat
        }
    }
}

/// The first of `options` for the network `cidr`.
pub open spec fn first_for_cidr(options: Seq<DhcpOptions>, cidr: Seq<char>) -> Option<DhcpOptions>
    decreases options.len(),
{
    if options.len() == 0 {
        None
    } else if options[0].cidr@ == cidr {
        Some(options[0])
    } else {
        first_for_cidr(options.drop_first(), cidr)
    }
}

proof fn lemma_first_for_cidr_at(options: Seq<DhcpOptions>, cidr: Seq<char>, i: int)
    requires
        0 <= i < options.len(),
        options[i].cidr@ == cidr,
        forall|j: int| 0 <= j < i ==> (#[trigger] options[j]).cidr@ != cidr,
    ensures
        first_for_cidr(options, cidr) == Some(options[i]),
    decreases i,
{
    if i > 0 {
        assert(options[0].cidr@ != cidr);
        assert forall|j: int| 0 <= j < i - 1 implies (#[trigger] options.drop_first()[j]).cidr@ != cidr by {
            assert(options.drop_first()[j] == options[j + 1]);
        }
        lemma_first_for_cidr_at(options.drop_first(), cidr, i - 1);
    }
}

proof fn lemma_first_for_cidr_none(options: Seq<DhcpOptions>, cidr: Seq<char>)
    requires
        forall|j: int| 0 <= j < options.len() ==> (#[trigger] options[j]).cidr@ != cidr,
    ensures
        first_for_cidr(options, cidr) is None,
    decreases options.len(),
{
    if options.len() > 0 {
        assert(options[0].cidr@ != cidr);
        assert forall|j: int| 0 <= j < options.len() - 1 implies (#[trigger] options.drop_first()[j]).cidr@ != cidr by {
            assert(options.drop_first()[j] == options[j + 1]);
        }
        lemma_first_for_cidr_none(options.drop_first(), cidr);
    }
}

proof fn lemma_first_for_cidr_push(options: Seq<DhcpOptions>, cidr: Seq<char>, x: DhcpOptions)
    requires
        first_for_cidr(options, cidr) is None,
        x.cidr@ == cidr,
    ensures
        first_for_cidr(options.push(x), cidr) == Some(x),
    decreases options.len(),
{
    if options.len() > 0 {
        assert(options.push(x)[0] == options[0]);
        assert(options.push(x).drop_first() =~= options.drop_first().push(x));
        lemma_first_for_cidr_push(options.drop_first(), cidr, x);
    }
}

proof fn lemma_count_for_cidr_none(options: Seq<DhcpOptions>, cidr: Seq<char>)
    requires
        forall|i: int| 0 <= i < options.len() ==> (#[trigger] options[i]).cidr@ != cidr,
    ensures
        count_for_cidr(options, cidr) == 0,
    decreases options.len(),
{
    if options.len() > 0 {
        let init = options.drop_last();
        assert forall|i: int| 0 <= i < init.len() implies (#[trigger] init[i]).cidr@ != cidr by {
            assert(init[i] == options[i]);
        }
        lemma_count_for_cidr_none(init, cidr);
        assert(options.last() == options[options.len() - 1]);
    }
}

/// `first_for_cidr` finds nothing only when no set is for the network.
proof fn lemma_first_for_cidr_found(options: Seq<DhcpOptions>, cidr: Seq<char>)
    ensures
        first_for_cidr(options, cidr) is None ==> forall|i: int|
            0 <= i < options.len() ==> (#[trigger] options[i]).cidr@ != cidr,
    decreases options.len(),
{
    if options.len() > 0 {
        lemma_first_for_cidr_found(options.drop_first(), cidr);
        if first_for_cidr(options, cidr) is None {
            assert forall|i: int| 0 <= i < options.len() implies (#[trigger] options[i]).cidr@ != cidr by {
                if i > 0 {
                    assert(options[i] == options.drop_first()[i - 1]);
                }
            }
        }
    }
}

/// The option sets once the outcome of `dhcp_options_for` is run: the same when a set
/// was for the network `cidr`, else with `inserted`, the row that its create operation
/// adds.
pub open spec fn dhcp_table_after(options: Seq<DhcpOptions>, cidr: Seq<char>, inserted: DhcpOptions) -> Seq<
    DhcpOptions,
> {
    if first_for_cidr(options, cidr) is Some {
        options
    } else {
        options.push(inserted)
    }
}

/// Setting up DHCP a second time changes nothing. The first setup finds the option set
/// for the network or adds one, then configures the set that the table holds for the
/// network; the second finds that same set, adds none, and so configures the same set,
/// whose operations `ensure_dhcp` fixes from the set, the switch and the settings
/// alone. The first setup added at most one set for the network.
pub proof fn lemma_dhcp_setup_twice(options: Seq<DhcpOptions>, cidr: Seq<char>, inserted: DhcpOptions)
    requires
        inserted.cidr@ == cidr,
    ensures
        first_for_cidr(dhcp_table_after(options, cidr, inserted), cidr) is Some,
        dhcp_table_after(dhcp_table_after(options, cidr, inserted), cidr, inserted) == dhcp_table_after(
            options,
            cidr,
            inserted,
        ),
        first_for_cidr(options, cidr) is None ==> first_for_cidr(dhcp_table_after(options, cidr, inserted), cidr)
            == Some(inserted),
        first_for_cidr(options, cidr) is Some ==> first_for_cidr(dhcp_table_after(options, cidr, inserted), cidr)
            == first_for_cidr(options, cidr),
        first_for_cidr(options, cidr) is None ==> count_for_cidr(dhcp_table_after(options, cidr, inserted), cidr) == 1,
        first_for_cidr(options, cidr) is Some ==> count_for_cidr(dhcp_table_after(options, cidr, inserted), cidr)
            == count_for_cidr(options, cidr),
{
    if first_for_cidr(options, cidr) is None {
        lemma_first_for_cidr_push(options, cidr, inserted);
        lemma_first_for_cidr_found(options, cidr);
        lemma_count_for_cidr_none(options, cidr);
        let after = options.push(inserted);
        assert(after.drop_last() =~= options);
        assert(after[options.len() as int] == inserted);
    }
}

/// The operations that configure DHCP on a switch once its option set exists: the
/// options from the network's settings, and the switch's subnet. `None` when the
/// option set's network has fewer than two host addresses.
pub fn ensure_dhcp(dhcp_options: &DhcpOptions, switch: &LogicalSwitch, dhcp: &DhcpOptionsCrd) -> (r: Option<
    Result<Vec<JsonValue>, Error>,
>)
    ensures
        match spec_dhcp_server_address(dhcp_options.cidr@) {
            Some(Some(server_id)) => r matches Some(Ok(ops)) && values_view(ops@) == seq![
                spec_set_options(dhcp_options.uuid@, spec_dhcp_option_list(server_id, *dhcp)),
                spec_set_cidr(switch.uuid@, dhcp.cidr@),
            ],
            Some(None) => r is None,
            None => r matches Some(Err(Error::ParseNetwork(_))),
        },
{
    match dhcp_options.try_set_options(dhcp) {
        None => None,
        Some(Err(e)) => Some(Err(e)),
        Some(Ok(op)) => {
            let set_cidr = switch.set_cidr(dhcp.cidr.as_str());
            let ghost expected = seq![op@, set_cidr@];
            let ops = vec![op, set_cidr];
            assert(values_view(ops@) =~= expected);
            Some(Ok(ops))
        },
    }
}

/// The operation that deletes the switch named `name` among `switches`; `OvnNotFound`
/// with the table and the name when no switch has that name.
pub fn delete_network(switches: Vec<LogicalSwitch>, name: &str) -> (r: Result<JsonValue, Error>)
    ensures
        match r {
            Ok(op) => exists|i: int|
                0 <= i < switches.len() && switches@[i].name@ == name@ && op@ == spec_delete_by_uuid(
                    LogicalSwitch::spec_ovn_type(),
                    switches@[i].uuid@,
                ),
            Err(e) => (forall|i: int| 0 <= i < switches.len() ==> (#[trigger] switches@[i]).name@ != name@)
                && (e matches Error::OvnNotFound(t, n) && t@ == LogicalSwitch::spec_ovn_type() && n@ == name@),
        },
{
    let ghost all = switches@;
    match LogicalSwitch::get_by_name(switches, name) {
        Ok(ls) => Ok(ls.delete()),
        Err(e) => {
            proof {
                assert forall|i: int| 0 <= i < all.len() implies (#[trigger] all[i]).name@ != name@ by {
                    assert(LogicalSwitch::spec_name(all[i]@) != name@);
                }
            }
            Err(e)
        },
    }
}

/// The operation that deletes the router named `name` among `routers`; `OvnNotFound`
/// with the table and the name when no router has that name.
pub fn delete_router(routers: Vec<LogicalRouter>, name: &str) -> (r: Result<JsonValue, Error>)
    ensures
        match r {
            Ok(op) => exists|i: int|
                0 <= i < routers.len() && routers@[i].name@ == name@ && op@ == spec_delete_by_uuid(
                    LogicalRouter::spec_ovn_type(),
                    routers@[i].uuid@,
                ),
            Err(e) => (forall|i: int| 0 <= i < routers.len() ==> (#[trigger] routers@[i]).name@ != name@)
                && (e matches Error::OvnNotFound(t, n) && t@ == LogicalRouter::spec_ovn_type() && n@ == name@),
        },
{
    let ghost all = routers@;
    match LogicalRouter::get_by_name(routers, name) {
        Ok(lr) => Ok(lr.delete()),
        Err(e) => {
            proof {
                assert forall|i: int| 0 <= i < all.len() implies (#[trigger] all[i]).name@ != name@ by {
                    assert(LogicalRouter::spec_name(all[i]@) != name@);
                }
            }
            Err(e)
        },
    }
}

/// The router asks for a metadata service.
pub fn wants_metadata_service(spec: &RouterSpec) -> (r: bool)
    ensures
        r == (spec.metadata_service == Some(true)),
{
    match spec.metadata_service {
        Some(true) => true,
        _ => false,
    }
}

/// The name of the switch and port of a router's metadata service: "mds-ROUTER".
pub fn metadata_service_name(router_name: &str) -> (r: String)
    ensures
        r@ == "mds-"@ + router_name@,
{
    let r = concat3("mds-", router_name, "");
    proof {
        reveal_strlit("");
        assert(r@ =~= "mds-"@ + router_name@);
    }
    r
}

/// The interfaces of a virtual machine that are on OVN networks: those of its status
/// that have a port id, in order.
pub open spec fn ovn_nics(networks: Seq<NetworkAttachment>) -> Seq<NetworkAttachment>
    decreases networks.len(),
{
    if networks.len() == 0 {
        Seq::empty()
    } else {
        let prev = ovn_nics(networks.drop_last());
        if networks.last().ovn_id is Some {
            prev.push(networks.last())
        } else {
            prev
        }
    }
}

/// The OVN interfaces of a virtual machine, none before it has a status.
pub fn get_vm_ovn_nics(vm: &VirtualMachine) -> (r: Vec<NetworkAttachment>)
    ensures
        r@ == match vm.status {
            Some(s) => ovn_nics(s.networks@),
            None => Seq::empty(),
        },
{
    let mut out: Vec<NetworkAttachment> = Vec::new();
    match &vm.status {
        Some(status) => {
            let nets = &status.networks;
            let mut i: usize = 0;
            while i < nets.len()
                invariant
                    i <= nets.len(),
                    out@ == ovn_nics(nets@.take(i as int)),
                decreases nets.len() - i,
            {
                proof {
                    assert(nets@.take(i + 1).drop_last() =~= nets@.take(i as int));
                }
                if nets[i].ovn_id.is_some() {
                    out.push(nets[i].copy());
                }
                i = i + 1;
            }
            assert(nets@.take(nets.len() as int) =~= nets@);
            out
        },
        None => {
            assert(out@ =~= Seq::<NetworkAttachment>::empty());
            out
        },
    }
}

/// Where an interface of a virtual machine attaches: the switch "NAMESPACE-NETWORK", the
/// port named by the interface's port id, and the interface's MAC address.
pub fn vm_nic_port(namespace: &str, nic: &NetworkAttachment) -> (r: (String, String, String))
    requires
        nic.name is Some,
        nic.mac_address is Some,
        nic.ovn_id is Some,
    ensures
        r.0@ == namespace@ + "-"@ + nic.name->0@,
        r.1@ == nic.ovn_id->0@,
        r.2@ == nic.mac_address->0@,
{
    let ls_name = concat3(namespace, "-", nic.name.as_ref().unwrap().as_str());
    (ls_name, nic.ovn_id.as_ref().unwrap().clone(), nic.mac_address.as_ref().unwrap().clone())
}

/// The status of a virtual machine with its dynamic IP addresses, as a list and joined
/// with commas.
pub fn status_with_ip_addresses(status: VirtualMachineStatus, ip_addresses: Vec<String>) -> (r:
    VirtualMachineStatus)
    ensures
        r.ip_addresses == Some(ip_addresses),
        r.ip_addresses_string matches Some(s) && s@ == join_seq(string_views(ip_addresses@), ","@),
        r.scheduled == status.scheduled,
        r.running == status.running,
        r.migration_pending == status.migration_pending,
        r.node == status.node,
        r.domain_name == status.domain_name,
        r.networks == status.networks,
{
    let ip_addresses_string = join_strings(&ip_addresses, ",");
    VirtualMachineStatus {
        ip_addresses: Some(ip_addresses),
        ip_addresses_string: Some(ip_addresses_string),
        ..status
    }
}

/// A table's listing reads the column `column` when the listing's columns hold it.
proof fn lemma_listing_reads(object_type: Seq<char>, column: Seq<char>, i: int)
    requires
        0 <= i < spec_list_columns(object_type).len(),
        spec_list_columns(object_type)[i] == column,
    ensures
        lists_column(spec_list_objects(object_type), column),
{
    lemma_list_objects_parts(object_type, column);
}

/// Listing a table reads every column that reading its objects needs. The listing that
/// `list_objects` makes selects all rows of the table, and a row cut down to the
/// columns it reads describes the same option set, router, static route, switch or
/// router port as the whole row; for a switch port, whose addresses a listing does not
/// read, the cut row describes a port exactly when the whole row does, with the same
/// UUID and name.
pub proof fn lemma_listing_reads_needed_columns(row: Seq<(Seq<char>, JsonData)>)
    ensures
        forall|t: Seq<char>|
            crate::cluster::ovn::ops::op_string(#[trigger] spec_list_objects(t), "op"@) == Some("select"@)
                && crate::cluster::ovn::ops::op_string(spec_list_objects(t), "table"@) == Some(t)
                && crate::json::json_member(spec_list_objects(t), "where"@) == Some(JsonData::Array(Seq::empty())),
        DhcpOptions::spec_deserialize(
            JsonData::Object(selected_members(spec_list_objects(TYPE_DHCP_OPTIONS@), row)),
        ) == DhcpOptions::spec_deserialize(JsonData::Object(row)),
        LogicalRouter::spec_deserialize(
            JsonData::Object(selected_members(spec_list_objects(TYPE_LOGICAL_ROUTER@), row)),
        ) == LogicalRouter::spec_deserialize(JsonData::Object(row)),
        crate::cluster::ovn::staticroute::StaticRoute::spec_deserialize(
            JsonData::Object(selected_members(spec_list_objects(TYPE_LOGICAL_ROUTER_STATIC_ROUTE@), row)),
        ) == crate::cluster::ovn::staticroute::StaticRoute::spec_deserialize(JsonData::Object(row)),
        LogicalSwitch::spec_deserialize(
            JsonData::Object(selected_members(spec_list_objects(TYPE_LOGICAL_SWITCH@), row)),
        ) == LogicalSwitch::spec_deserialize(JsonData::Object(row)),
        crate::cluster::ovn::logicalrouterport::LogicalRouterPort::spec_deserialize(
            JsonData::Object(selected_members(spec_list_objects(TYPE_LOGICAL_ROUTER_PORT@), row)),
        ) == crate::cluster::ovn::logicalrouterport::LogicalRouterPort::spec_deserialize(JsonData::Object(row)),
        match (
            crate::cluster::ovn::logicalswitchport::LogicalSwitchPort::spec_deserialize(
                JsonData::Object(selected_members(spec_list_objects(TYPE_LOGICAL_SWITCH_PORT@), row)),
            ),
            crate::cluster::ovn::logicalswitchport::LogicalSwitchPort::spec_deserialize(JsonData::Object(row)),
        ) {
            (Some(cut), Some(whole)) => cut.uuid == whole.uuid && cut.name == whole.name,
            (None, None) => true,
            _ => false,
        },
{
    assert forall|t: Seq<char>|
        crate::cluster::ovn::ops::op_string(#[trigger] spec_list_objects(t), "op"@) == Some("select"@)
            && crate::cluster::ovn::ops::op_string(spec_list_objects(t), "table"@) == Some(t)
            && crate::json::json_member(spec_list_objects(t), "where"@) == Some(JsonData::Array(Seq::empty())) by {
        lemma_list_objects_parts(t, "_uuid"@);
    }
    reveal_strlit("DHCP_Options");
    reveal_strlit("Logical_Router");
    reveal_strlit("Logical_Router_Static_Route");
    reveal_strlit("Logical_Switch");
    reveal_strlit("Logical_Router_Port");
    reveal_strlit("Logical_Switch_Port");
    assert(TYPE_DHCP_OPTIONS@.len() == 12 && TYPE_LOGICAL_ROUTER@.len() == 14
        && TYPE_LOGICAL_ROUTER_STATIC_ROUTE@.len() == 27 && TYPE_LOGICAL_SWITCH@.len() == 14
        && TYPE_LOGICAL_ROUTER_PORT@.len() == 19 && TYPE_LOGICAL_SWITCH_PORT@.len() == 19);
    assert(TYPE_LOGICAL_ROUTER@[8] != TYPE_LOGICAL_SWITCH@[8]);
    assert(TYPE_LOGICAL_ROUTER_PORT@[8] != TYPE_LOGICAL_SWITCH_PORT@[8]);
    let dhcp = spec_list_objects(TYPE_DHCP_OPTIONS@);
    let lr = spec_list_objects(TYPE_LOGICAL_ROUTER@);
    let lsr = spec_list_objects(TYPE_LOGICAL_ROUTER_STATIC_ROUTE@);
    let ls = spec_list_objects(TYPE_LOGICAL_SWITCH@);
    let lrp = spec_list_objects(TYPE_LOGICAL_ROUTER_PORT@);
    let lsp = spec_list_objects(TYPE_LOGICAL_SWITCH_PORT@);
    lemma_listing_reads(TYPE_DHCP_OPTIONS@, "_uuid"@, 0);
    lemma_listing_reads(TYPE_DHCP_OPTIONS@, "cidr"@, 1);
    lemma_selected_column(dhcp, row, "_uuid"@);
    lemma_selected_column(dhcp, row, "cidr"@);
    lemma_listing_reads(TYPE_LOGICAL_ROUTER@, "_uuid"@, 0);
    lemma_listing_reads(TYPE_LOGICAL_ROUTER@, "name"@, 1);
    lemma_selected_column(lr, row, "_uuid"@);
    lemma_selected_column(lr, row, "name"@);
    lemma_listing_reads(TYPE_LOGICAL_ROUTER_STATIC_ROUTE@, "_uuid"@, 0);
    lemma_listing_reads(TYPE_LOGICAL_ROUTER_STATIC_ROUTE@, "ip_prefix"@, 1);
    lemma_listing_reads(TYPE_LOGICAL_ROUTER_STATIC_ROUTE@, "nexthop"@, 2);
    lemma_selected_column(lsr, row, "_uuid"@);
    lemma_selected_column(lsr, row, "ip_prefix"@);
    lemma_selected_column(lsr, row, "nexthop"@);
    lemma_listing_reads(TYPE_LOGICAL_SWITCH@, "_uuid"@, 0);
    lemma_listing_reads(TYPE_LOGICAL_SWITCH@, "name"@, 1);
    lemma_selected_column(ls, row, "_uuid"@);
    lemma_selected_column(ls, row, "name"@);
    lemma_listing_reads(TYPE_LOGICAL_ROUTER_PORT@, "_uuid"@, 0);
    lemma_listing_reads(TYPE_LOGICAL_ROUTER_PORT@, "name"@, 1);
    lemma_selected_column(lrp, row, "_uuid"@);
    lemma_selected_column(lrp, row, "name"@);
    lemma_listing_reads(TYPE_LOGICAL_SWITCH_PORT@, "_uuid"@, 0);
    lemma_listing_reads(TYPE_LOGICAL_SWITCH_PORT@, "name"@, 1);
    lemma_selected_column(lsp, row, "_uuid"@);
    lemma_selected_column(lsp, row, "name"@);
}

} // verus!
