//! Logical switch ports.
use vstd::prelude::*;

use crate::cluster::ovn::common::{
    count_named, has_named, lemma_create_if_missing_twice, table_after_ensure, Ensured, OvnCommon, OvnNamed,
    OvnNamedGetters,
};
use crate::cluster::ovn::deserialization::{
    deserialize_object, deserialize_string, deserialize_uuid, spec_row_string, spec_row_uuid,
};
use crate::cluster::ovn::dhcpoptions::DhcpOptions;
use crate::cluster::ovn::logicalswitch::{add_port_ops, extra_view, spec_add_port_ops, LogicalSwitch};
use crate::cluster::ovn::lowlevel::{TYPE_DHCP_OPTIONS, TYPE_LOGICAL_SWITCH_PORT};
use crate::cluster::ovn::ops::{
    jstr, lemma_update_op_targets, object1, op_string, selected_uuid, spec_update_op, spec_uuid_ref, update_op,
    uuid_ref, written_string,
};
use crate::errors::Error;
use crate::json::{json_entry, json_str, values_view, JsonData, JsonEntry, JsonValue};
use crate::text::{concat3, contains_seq, split_char, split_seq, str_contains, str_equal, string_views};

verus! {

broadcast use crate::json::data::group_json_view;

/// A row of `Logical_Switch_Port`.
pub struct LogicalSwitchPort {
    pub uuid: String,
    pub name: String,
    pub addresses: String,
    pub dynamic_addresses: String,
}

/// The view of a logical switch port.
pub struct LogicalSwitchPortView {
    pub uuid: Seq<char>,
    pub name: Seq<char>,
    pub addresses: Seq<char>,
    pub dynamic_addresses: Seq<char>,
}

impl View for LogicalSwitchPort {
    type V = LogicalSwitchPortView;

    open spec fn view(&self) -> LogicalSwitchPortView {
        LogicalSwitchPortView {
            uuid: self.uuid@,
            name: self.name@,
            addresses: self.addresses@,
            dynamic_addresses: self.dynamic_addresses@,
        }
    }
}

/// Views of a sequence of ports.
pub open spec fn ports_view(ports: Seq<LogicalSwitchPort>) -> Seq<LogicalSwitchPortView> {
    ports.map_values(|p: LogicalSwitchPort| p@)
}

/// The IP address in a `dynamic_addresses` column "MAC IP ...": its second word.
pub open spec fn spec_dynamic_ip(dynamic_addresses: Seq<char>) -> Option<Seq<char>> {
    let words = split_seq(dynamic_addresses, ' ');
    if words.len() > 1 {
        Some(words[1])
    } else {
        None
    }
}

/// The dynamic IP of a port, or the empty text when it has none.
pub open spec fn ip_or_empty(p: LogicalSwitchPortView) -> Seq<char> {
    match spec_dynamic_ip(p.dynamic_addresses) {
        Some(ip) => ip,
        None => Seq::empty(),
    }
}

/// The ports whose dynamic IP (the empty text for none) is `ip`, in order.
pub open spec fn ports_with_ip(ports: Seq<LogicalSwitchPortView>, ip: Seq<char>) -> Seq<LogicalSwitchPortView>
    decreases ports.len(),
{
    if ports.len() == 0 {
        Seq::empty()
    } else {
        let prev = ports_with_ip(ports.drop_last(), ip);
        if ip_or_empty(ports.last()) == ip {
            prev.push(ports.last())
        } else {
            prev
        }
    }
}

/// The port belongs to the switch whose ports are `port_ids` and lists `mac` among its
/// addresses.
pub open spec fn port_has_mac(p: LogicalSwitchPortView, port_ids: Seq<Seq<char>>, mac: Seq<char>) -> bool {
    port_ids.contains(p.uuid) && contains_seq(p.addresses, mac)
}

/// The `update` that sets the addresses of port `uuid` to "MAC dynamic".
pub open spec fn spec_set_address(uuid: Seq<char>, mac: Seq<char>) -> JsonData {
    spec_update_op(
        TYPE_LOGICAL_SWITCH_PORT@,
        uuid,
        JsonData::Object(seq![("addresses"@, jstr(mac + " dynamic"@))]),
    )
}

/// The `update` that points port `uuid` at the DHCP options `dhcp_uuid`.
pub open spec fn spec_set_dhcp_options(uuid: Seq<char>, dhcp_uuid: Seq<char>) -> JsonData {
    spec_update_op(
        "Logical_Switch_Port"@,
        uuid,
        JsonData::Object(seq![("dhcpv4_options"@, spec_uuid_ref("uuid"@, dhcp_uuid))]),
    )
}

/// The first of `lsps` that is on the switch with ports `port_ids` and has address `mac`.
pub fn find_by_mac(lsps: Vec<LogicalSwitchPort>, port_ids: &Vec<String>, mac: &str) -> (r: Result<
    LogicalSwitchPort,
    Error,
>)
    ensures
        match r {
            Ok(x) => exists|i: int|
                0 <= i < lsps.len() && lsps@[i] == x && port_has_mac(x@, string_views(port_ids@), mac@)
                    && forall|j: int|
                    0 <= j < i ==> !port_has_mac(
                        (#[trigger] lsps@[j])@,
                        string_views(port_ids@),
                        mac@,
                    ),
            Err(e) => (forall|i: int|
                0 <= i < lsps.len() ==> !port_has_mac(
                    (#[trigger] lsps@[i])@,
                    string_views(port_ids@),
                    mac@,
                )) && (e matches Error::OvnNotFound(t, n) && t@ == TYPE_LOGICAL_SWITCH_PORT@ && n@
                == mac@),
        },
{
    let ghost ids = string_views(port_ids@);
    let mut i: usize = 0;
    while i < lsps.len()
        invariant
            i <= lsps.len(),
            ids == string_views(port_ids@),
            forall|j: int| 0 <= j < i ==> !port_has_mac((#[trigger] lsps@[j])@, ids, mac@),
        decreases lsps.len() - i,
    {
        let on_switch = contains_string(port_ids, &lsps[i].uuid);
        if on_switch && str_contains(lsps[i].addresses.as_str(), mac) {
            let ghost before = lsps@;
            let mut remaining = lsps;
            let x = remaining.remove(i);
            assert(before[i as int] == x);
            return Ok(x);
        }
        i = i + 1;
    }
    Err(Error::OvnNotFound(TYPE_LOGICAL_SWITCH_PORT.to_owned(), mac.to_owned()))
}

/// Whether `list` holds a string with the text of `s`.
pub fn contains_string(list: &Vec<String>, s: &String) -> (r: bool)
    ensures
        r == string_views(list@).contains(s@),
{
    let mut i: usize = 0;
    while i < list.len()
        invariant
            i <= list.len(),
            forall|j: int| 0 <= j < i ==> list@[j]@ != s@,
        decreases list.len() - i,
    {
        if list[i] == *s {
            assert(string_views(list@)[i as int] == s@);
            return true;
        }
        i = i + 1;
    }
    assert(!string_views(list@).contains(s@)) by {
        if string_views(list@).contains(s@) {
            let k = choose|k: int| 0 <= k < list.len() && string_views(list@)[k] == s@;
            assert(list@[k]@ == s@);
        }
    }
    false
}

/// Building ports on a switch.
pub struct LogicalSwitchPortBuilder<'a> {
    pub ls: &'a LogicalSwitch,
}

impl LogicalSwitchPortBuilder<'_> {
    /// The operations that create a port named `lsp_name` on the switch.
    pub fn create(self, lsp_name: &str, extra_params: Option<&Vec<JsonEntry>>) -> (r: Vec<JsonValue>)
        ensures
            values_view(r@) == spec_add_port_ops(self.ls.uuid@, lsp_name@, extra_view(extra_params)),
    {
        add_port_ops(self.ls.uuid.as_str(), lsp_name, extra_params)
    }

    /// The port named `lsp_name` among `ports`, or the operations that create it on the
    /// switch.
    pub fn create_if_missing(
        self,
        ports: Vec<LogicalSwitchPort>,
        lsp_name: &str,
        extra_params: Option<&Vec<JsonEntry>>,
    ) -> (r: Ensured<LogicalSwitchPort>)
        ensures
            match r {
                Ensured::Existing(p) => p.name@ == lsp_name@ && exists|i: int|
                    0 <= i < ports.len() && ports@[i] == p && forall|j: int|
                        0 <= j < i ==> (#[trigger] ports@[j]).name@ != lsp_name@,
                Ensured::Create(ops) => (forall|i: int|
                    0 <= i < ports.len() ==> (#[trigger] ports@[i]).name@ != lsp_name@) && values_view(
                    ops@,
                ) == spec_add_port_ops(self.ls.uuid@, lsp_name@, extra_view(extra_params)),
            },
    {
        let ghost all = ports@;
        match LogicalSwitchPort::get_by_name(ports, lsp_name) {
            Ok(p) => {
                proof {
                    let i = choose|i: int|
                        0 <= i < all.len() && all[i] == p && LogicalSwitchPort::spec_name(p@)
                            == lsp_name@ && forall|j: int|
                            0 <= j < i ==> LogicalSwitchPort::spec_name(#[trigger] all[j]@)
                                != lsp_name@;
                    assert forall|j: int| 0 <= j < i implies (#[trigger] all[j]).name@ != lsp_name@ by {
                        assert(LogicalSwitchPort::spec_name(all[j]@) != lsp_name@);
                    }
                }
                Ensured::Existing(p)
            },
            Err(_) => {
                proof {
                    assert forall|i: int| 0 <= i < all.len() implies (#[trigger] all[i]).name@ != lsp_name@ by {
                        assert(LogicalSwitchPort::spec_name(all[i]@) != lsp_name@);
                    }
                }
                Ensured::Create(self.create(lsp_name, extra_params))
            },
        }
    }

    /// The first of `lsps` that is a port of the switch, whose ports are `port_ids`, and
    /// has `mac_address` among its addresses.
    pub fn get_by_mac(self, lsps: Vec<LogicalSwitchPort>, port_ids: &Vec<String>, mac_address: &str) -> (r: Result<
        LogicalSwitchPort,
        Error,
    >)
        ensures
            match r {
                Ok(x) => exists|i: int|
                    0 <= i < lsps.len() && lsps@[i] == x && port_has_mac(
                        x@,
                        string_views(port_ids@),
                        mac_address@,
                    ) && forall|j: int|
                        0 <= j < i ==> !port_has_mac(
                            (#[trigger] lsps@[j])@,
                            string_views(port_ids@),
                            mac_address@,
                        ),
                Err(e) => (forall|i: int|
                    0 <= i < lsps.len() ==> !port_has_mac(
                        (#[trigger] lsps@[i])@,
                        string_views(port_ids@),
                        mac_address@,
                    )) && (e matches Error::OvnNotFound(t, n) && t@ == TYPE_LOGICAL_SWITCH_PORT@
                    && n@ == mac_address@),
            },
    {
        find_by_mac(lsps, port_ids, mac_address)
    }
}

impl LogicalSwitchPort {
    /// The operation that sets the address of this port to "MAC dynamic": none when the
    /// port already lists the MAC; `OvnConflict` when another port of its switch, among
    /// `lsps` with the switch's ports `switch_port_ids`, lists it.
    pub fn set_address(&self, mac_address: &str, lsps: Vec<LogicalSwitchPort>, switch_port_ids: &Vec<String>) -> (r:
        Result<Option<JsonValue>, Error>)
        ensures
            contains_seq(self.addresses@, mac_address@) ==> r matches Ok(None),
            !contains_seq(self.addresses@, mac_address@) && (exists|i: int|
                0 <= i < lsps.len() && port_has_mac(
                    (#[trigger] lsps@[i])@,
                    string_views(switch_port_ids@),
                    mac_address@,
                )) ==> (r matches Err(Error::OvnConflict(m)) && m@ == mac_address@),
            !contains_seq(self.addresses@, mac_address@) && (forall|i: int|
                0 <= i < lsps.len() ==> !port_has_mac(
                    (#[trigger] lsps@[i])@,
                    string_views(switch_port_ids@),
                    mac_address@,
                )) ==> (r matches Ok(Some(op)) && op@ == spec_set_address(self.uuid@, mac_address@)),
    {
        if str_contains(self.addresses.as_str(), mac_address) {
            return Ok(None);
        }
        match find_by_mac(lsps, switch_port_ids, mac_address) {
            Ok(_) => {
                return Err(Error::OvnConflict(mac_address.to_owned()));
            },
            Err(_) => {},
        }
        let addresses = concat3(mac_address, " dynamic", "");
        proof {
            reveal_strlit("");
            assert(addresses@ =~= mac_address@ + " dynamic"@);
        }
        Ok(
            Some(
                update_op(
                    TYPE_LOGICAL_SWITCH_PORT,
                    self.uuid.as_str(),
                    object1(json_entry("addresses", json_str(addresses.as_str()))),
                ),
            ),
        )
    }

    /// The operation that points this port at the DHCP options for `cidr`, looked up among
    /// `options`; `OvnNotFound` when none has that CIDR.
    pub fn set_dhcp_options(&self, options: Vec<DhcpOptions>, cidr: &str) -> (r: Result<JsonValue, Error>)
        ensures
            match r {
                Ok(op) => exists|i: int|
                    0 <= i < options.len() && options@[i].cidr@ == cidr@ && op@
                        == spec_set_dhcp_options(self.uuid@, options@[i].uuid@),
                Err(e) => (forall|i: int| 0 <= i < options.len() ==> (#[trigger] options@[i]).cidr@ != cidr@)
                    && (e matches Error::OvnNotFound(t, n) && t@ == TYPE_DHCP_OPTIONS@ && n@ == cidr@),
            },
    {
        let dhcp_options = DhcpOptions::get_by_cidr(options, cidr)?;
        Ok(
            update_op(
                "Logical_Switch_Port",
                self.uuid.as_str(),
                object1(json_entry("dhcpv4_options", uuid_ref("uuid", dhcp_options.uuid.as_str()))),
            ),
        )
    }

    /// The IP address in the port's dynamic addresses, if there is one.
    pub fn dynamic_ip(&self) -> (r: Option<String>)
        ensures
            match r {
                Some(ip) => spec_dynamic_ip(self.dynamic_addresses@) == Some(ip@),
                None => spec_dynamic_ip(self.dynamic_addresses@) is None,
            },
    {
        let mut words = split_char(self.dynamic_addresses.as_str(), ' ');
        if words.len() > 1 {
            assert(string_views(words@)[1] == words@[1]@);
            Some(words.remove(1))
        } else {
            None
        }
    }

    /// The ports among `ports` whose dynamic IP is `ip`, the empty text standing for none.
    pub fn get_by_ip(ports: Vec<LogicalSwitchPort>, ip: String) -> (r: Vec<LogicalSwitchPort>)
        ensures
            ports_view(r@) == ports_with_ip(ports_view(ports@), ip@),
    {
        let ghost pv = ports_view(ports@);
        let mut out: Vec<LogicalSwitchPort> = Vec::new();
        let mut i: usize = 0;
        while i < ports.len()
            invariant
                i <= ports.len(),
                pv == ports_view(ports@),
                ports_view(out@) == ports_with_ip(pv.take(i as int), ip@),
            decreases ports.len() - i,
        {
            let port_ip = match ports[i].dynamic_ip() {
                Some(a) => a,
                None => String::new(),
            };
            proof {
                assert(pv.take(i + 1).drop_last() =~= pv.take(i as int));
                assert(pv.take(i + 1).last() == ports@[i as int]@);
            }
            if port_ip == ip {
                let ghost before = ports_view(out@);
                out.push(ports[i].copy());
                assert(ports_view(out@) =~= before.push(ports@[i as int]@));
            }
            i = i + 1;
        }
        assert(pv.take(ports.len() as int) =~= pv);
        out
    }

    /// A copy of the port.
    pub fn copy(&self) -> (r: LogicalSwitchPort)
        ensures
            r@ == self@,
    {
        LogicalSwitchPort {
            uuid: self.uuid.clone(),
            name: self.name.clone(),
            addresses: self.addresses.clone(),
            dynamic_addresses: self.dynamic_addresses.clone(),
        }
    }
}

impl OvnCommon for LogicalSwitchPort {
    open spec fn spec_uuid(v: LogicalSwitchPortView) -> Seq<char> {
        v.uuid
    }

    open spec fn spec_ovn_type() -> Seq<char> {
        TYPE_LOGICAL_SWITCH_PORT@
    }

    open spec fn spec_deserialize(row: JsonData) -> Option<LogicalSwitchPortView> {
        match row {
            JsonData::Object(o) => match (spec_row_uuid(o), spec_row_string(o, "name"@)) {
                (Some(u), Some(n)) => Some(
                    LogicalSwitchPortView {
                        uuid: u,
                        name: n,
                        addresses: match spec_row_string(o, "addresses"@) {
                            Some(a) => a,
                            None => Seq::empty(),
                        },
                        dynamic_addresses: match spec_row_string(o, "dynamic_addresses"@) {
                            Some(a) => a,
                            None => Seq::empty(),
                        },
                    },
                ),
                _ => None,
            },
            _ => None,
        }
    }

    fn uuid(&self) -> (r: String) {
        self.uuid.clone()
    }

    fn ovn_type() -> (r: String) {
        TYPE_LOGICAL_SWITCH_PORT.to_owned()
    }

    fn deserialize(value: &JsonValue) -> (r: Result<Self, Error>) {
        let object = deserialize_object(value)?;
        let uuid = deserialize_uuid(object)?;
        let name = deserialize_string(object, "name")?;
        let addresses = match deserialize_string(object, "addresses") {
            Ok(a) => a,
            Err(_) => String::new(),
        };
        let dynamic_addresses = match deserialize_string(object, "dynamic_addresses") {
            Ok(a) => a,
            Err(_) => String::new(),
        };
        Ok(LogicalSwitchPort { uuid, name, addresses, dynamic_addresses })
    }
}

impl OvnNamed for LogicalSwitchPort {
    open spec fn spec_name(v: LogicalSwitchPortView) -> Seq<char> {
        v.name
    }

    fn name(&self) -> (r: String) {
        self.name.clone()
    }
}

/// Creating a port of a switch by name twice creates it at most once. The builder's
/// `create_if_missing` finds a port named `lsp_name` among the ports when there is one
/// and otherwise gives the operations that add `inserted`; once that outcome is run, a
/// port is named `lsp_name`, so a second call finds it and the ports stay as the first
/// call left them, and the first call added at most one port of that name.
pub proof fn lemma_lsp_create_if_missing_twice(
    ports: Seq<LogicalSwitchPort>,
    lsp_name: Seq<char>,
    inserted: LogicalSwitchPort,
)
    requires
        inserted.name@ == lsp_name,
    ensures
        has_named(table_after_ensure(ports, lsp_name, inserted), lsp_name),
        table_after_ensure(table_after_ensure(ports, lsp_name, inserted), lsp_name, inserted)
            == table_after_ensure(ports, lsp_name, inserted),
        count_named(table_after_ensure(ports, lsp_name, inserted), lsp_name) == if has_named(ports, lsp_name) {
            count_named(ports, lsp_name)
        } else {
            1
        },
{
    lemma_create_if_missing_twice(ports, lsp_name, inserted);
}

/// Giving a port its MAC address asks OVN for a dynamic IP address too: the update of
/// port `uuid` that `set_address` makes writes to its addresses column the MAC
/// address, then a space and the word "dynamic", and nothing else.
pub proof fn lemma_set_address_requests_dynamic_ip(uuid: Seq<char>, mac: Seq<char>)
    ensures
        op_string(spec_set_address(uuid, mac), "op"@) == Some("update"@),
        op_string(spec_set_address(uuid, mac), "table"@) == Some(TYPE_LOGICAL_SWITCH_PORT@),
        selected_uuid(spec_set_address(uuid, mac)) == Some(uuid),
        written_string(spec_set_address(uuid, mac), "addresses"@) matches Some(a) && a.len() == mac.len() + 8
            && a.take(mac.len() as int) == mac && a[mac.len() as int] == ' ' && a.skip(mac.len() as int + 1)
            == "dynamic"@,
{
    let row = JsonData::Object(seq![("addresses"@, jstr(mac + " dynamic"@))]);
    lemma_update_op_targets(TYPE_LOGICAL_SWITCH_PORT@, uuid, row);
    crate::json::lemma_lookup1(("addresses"@, jstr(mac + " dynamic"@)), "addresses"@);
    reveal_strlit(" dynamic");
    reveal_strlit("dynamic");
    let a = mac + " dynamic"@;
    assert(a.take(mac.len() as int) =~= mac);
    assert(a.skip(mac.len() as int + 1) =~= "dynamic"@);
}

} // verus!
