//! DHCP option sets of logical switches.
use vstd::prelude::*;

use crate::cluster::ovn::common::OvnCommon;
use crate::cluster::ovn::deserialization::{
    deserialize_object, deserialize_string, deserialize_uuid, spec_row_string, spec_row_uuid,
};
use crate::cluster::ovn::lowlevel::TYPE_DHCP_OPTIONS;
use crate::cluster::ovn::ops::{
    insert_named_op, jstr, lemma_update_op_targets, object1, op_string, selected_uuid, spec_insert_named_op,
    spec_update_op, update_op,
};
use crate::crd::ovn::DhcpOptions as DhcpOptionsCrd;
use crate::errors::Error;
use crate::json::{json_array2, json_entry, json_member, json_str, values_view, JsonData, JsonValue};
use crate::text::{decimal_seq, opt_view, str_equal, u64_to_decimal};

verus! {

broadcast use crate::json::data::group_json_view;

/// Host address number `n` (counting from 0) of the network `cidr` in its usual text
/// form: outer `None` when `cidr` is no network, inner `None` when the network has at
/// most `n` host addresses.
pub uninterp spec fn spec_cidr_nth_host(cidr: Seq<char>, n: usize) -> Option<Option<Seq<char>>>;

/// Parses `cidr` as an IPv4 or IPv6 network with `ipnet`'s `FromStr for IpNet`, takes
/// address number `n` of `IpNet::hosts` with `Iterator::nth` and prints it with
/// `Display`. The contract claims only that the result depends on `cidr` and `n` alone
/// and how the parse error shows.
#[verifier::external_body]
fn cidr_nth_host(cidr: &str, n: usize) -> (r: Result<Option<String>, ipnet::AddrParseError>)
    ensures
        match r {
            Ok(h) => spec_cidr_nth_host(cidr@, n) == Some(
                match h {
                    Some(s) => Some(s@),
                    None => None::<Seq<char>>,
                },
            ),
            Err(_) => spec_cidr_nth_host(cidr@, n) is None,
        },
{
    let net: ipnet::IpNet = cidr.parse()?;
    match net.hosts().nth(n) {
        Some(host) => Ok(Some(host.to_string())),
        None => Ok(None),
    }
}

/// The position among the host addresses of its network that the DHCP server takes:
/// the second one.
pub const DHCP_SERVER_HOST: usize = 1;

/// The address of the DHCP server of the network `cidr`: its second host address.
pub open spec fn spec_dhcp_server_address(cidr: Seq<char>) -> Option<Option<Seq<char>>> {
    spec_cidr_nth_host(cidr, DHCP_SERVER_HOST)
}

/// A row of `DHCP_Options`.
pub struct DhcpOptions {
    pub uuid: String,
    pub cidr: String,
}

/// The view of a DHCP option set.
pub struct DhcpOptionsView {
    pub uuid: Seq<char>,
    pub cidr: Seq<char>,
}

impl View for DhcpOptions {
    type V = DhcpOptionsView;

    open spec fn view(&self) -> DhcpOptionsView {
        DhcpOptionsView { uuid: self.uuid@, cidr: self.cidr@ }
    }
}

/// The `insert` that creates the option set for `cidr`.
pub open spec fn spec_create_dhcp_options(cidr: Seq<char>) -> JsonData {
    spec_insert_named_op(
        TYPE_DHCP_OPTIONS@,
        JsonData::Object(seq![("cidr"@, jstr(cidr))]),
        "new_dhcp_options"@,
    )
}

/// A pair `[NAME, VALUE]` of the options map.
pub open spec fn spec_option(name: Seq<char>, value: Seq<char>) -> JsonData {
    JsonData::Array(seq![jstr(name), jstr(value)])
}

/// The option for a field of the custom resource, when it is set.
pub open spec fn spec_optional_option(name: Seq<char>, value: Option<Seq<char>>) -> Seq<JsonData> {
    match value {
        Some(v) => seq![spec_option(name, v)],
        None => Seq::empty(),
    }
}

/// The options of a DHCP server with address `server_id`: the server's address and MAC,
/// then lease time, DNS server, domain name and router, each when the resource sets it.
pub open spec fn spec_dhcp_option_list(server_id: Seq<char>, crd: DhcpOptionsCrd) -> Seq<JsonData> {
    seq![spec_option("server_id"@, server_id), spec_option("server_mac"@, "c0:ff:ee:00:00:01"@)]
        + spec_optional_option(
        "lease_time"@,
        match crd.lease_time {
            Some(t) => Some(decimal_seq(t as nat)),
            None => None,
        },
    ) + spec_optional_option("dns_server"@, opt_view(crd.dns_server)) + spec_optional_option(
        "domain_name"@,
        opt_view(crd.domain_name),
    ) + spec_optional_option("router"@, opt_view(crd.router))
}

/// The `update` that sets the options of the set `uuid`.
pub open spec fn spec_set_options(uuid: Seq<char>, options: Seq<JsonData>) -> JsonData {
    spec_update_op(
        TYPE_DHCP_OPTIONS@,
        uuid,
        JsonData::Object(
            seq![("options"@, JsonData::Array(seq![jstr("map"@), JsonData::Array(options)]))],
        ),
    )
}

fn push_option(options: &mut Vec<JsonValue>, name: &str, value: &str)
    ensures
        values_view(final(options)@) == values_view(old(options)@).push(spec_option(name@, value@)),
{
    let ghost before = values_view(options@);
    options.push(json_array2(json_str(name), json_str(value)));
    assert(values_view(options@) =~= before.push(spec_option(name@, value@)));
}

fn push_optional_option(options: &mut Vec<JsonValue>, name: &str, value: &Option<String>)
    ensures
        values_view(final(options)@) == values_view(old(options)@) + spec_optional_option(
            name@,
            opt_view(*value),
        ),
{
    match value {
        Some(v) => {
            push_option(options, name, v.as_str());
            assert(values_view(options@) =~= values_view(old(options)@) + spec_optional_option(
                name@,
                opt_view(*value),
            ));
        },
        None => {
            assert(values_view(options@) =~= values_view(old(options)@) + spec_optional_option(
                name@,
                opt_view(*value),
            ));
        },
    }
}

impl DhcpOptions {
    /// The operation that creates an option set for `cidr`.
    pub fn create(cidr: &str) -> (r: JsonValue)
        ensures
            r@ == spec_create_dhcp_options(cidr@),
    {
        insert_named_op(
            TYPE_DHCP_OPTIONS,
            object1(json_entry("cidr", json_str(cidr))),
            "new_dhcp_options",
        )
    }

    /// The first of `options` for `cidr`, or `OvnNotFound` with the table and the CIDR.
    pub fn get_by_cidr(options: Vec<DhcpOptions>, cidr: &str) -> (r: Result<DhcpOptions, Error>)
        ensures
            match r {
                Ok(x) => exists|i: int|
                    0 <= i < options.len() && options@[i] == x && x.cidr@ == cidr@ && forall|j: int|
                        0 <= j < i ==> (#[trigger] options@[j]).cidr@ != cidr@,
                Err(e) => (forall|i: int| 0 <= i < options.len() ==> (#[trigger] options@[i]).cidr@ != cidr@)
                    && (e matches Error::OvnNotFound(t, n) && t@ == TYPE_DHCP_OPTIONS@ && n@ == cidr@),
            },
    {
        let mut i: usize = 0;
        while i < options.len()
            invariant
                i <= options.len(),
                forall|j: int| 0 <= j < i ==> (#[trigger] options@[j]).cidr@ != cidr@,
            decreases options.len() - i,
        {
            if str_equal(options[i].cidr.as_str(), cidr) {
                let ghost before = options@;
                let mut remaining = options;
                let x = remaining.remove(i);
                assert(before[i as int] == x);
                return Ok(x);
            }
            i = i + 1;
        }
        Err(Error::OvnNotFound(Self::ovn_type(), cidr.to_owned()))
    }

    /// The operation that sets the options of this set from the network's DHCP settings;
    /// the DHCP server takes the second host address of the set's network.
    /// `ParseNetwork` when the set's CIDR is no network.
    pub fn set_options(&self, dhcp_options: &DhcpOptionsCrd) -> (r: Result<JsonValue, Error>)
        requires
            spec_dhcp_server_address(self.cidr@) != Some(None::<Seq<char>>),
        ensures
            match spec_dhcp_server_address(self.cidr@) {
                Some(Some(server_id)) => r matches Ok(op) && op@ == spec_set_options(
                    self.uuid@,
                    spec_dhcp_option_list(server_id, *dhcp_options),
                ),
                _ => r matches Err(Error::ParseNetwork(_)),
            },
    {
        let host = match cidr_nth_host(self.cidr.as_str(), DHCP_SERVER_HOST) {
            Ok(h) => h,
            Err(e) => {
                return Err(Error::ParseNetwork(e));
            },
        };
        let server_id = host.unwrap();
        let mut options: Vec<JsonValue> = Vec::new();
        push_option(&mut options, "server_id", server_id.as_str());
        push_option(&mut options, "server_mac", "c0:ff:ee:00:00:01");
        let lease_time = match dhcp_options.lease_time {
            Some(t) => Some(u64_to_decimal(t)),
            None => None,
        };
        push_optional_option(&mut options, "lease_time", &lease_time);
        push_optional_option(&mut options, "dns_server", &dhcp_options.dns_server);
        push_optional_option(&mut options, "domain_name", &dhcp_options.domain_name);
        push_optional_option(&mut options, "router", &dhcp_options.router);
        proof {
            let expected = spec_dhcp_option_list(server_id@, *dhcp_options);
            assert(opt_view(lease_time) == match dhcp_options.lease_time {
                Some(t) => Some(decimal_seq(t as nat)),
                None => None,
            });
            assert(values_view(options@) =~= expected);
        }
        let map = json_array2(json_str("map"), JsonValue::Array(options));
        Ok(update_op(TYPE_DHCP_OPTIONS, self.uuid.as_str(), object1(json_entry("options", map))))
    }

    /// Sets the options as `set_options` does, or `None` when the set's network has
    /// fewer than two host addresses.
    pub fn try_set_options(&self, dhcp_options: &DhcpOptionsCrd) -> (r: Option<Result<JsonValue, Error>>)
        ensures
            match spec_dhcp_server_address(self.cidr@) {
                Some(Some(server_id)) => r matches Some(Ok(op)) && op@ == spec_set_options(
                    self.uuid@,
                    spec_dhcp_option_list(server_id, *dhcp_options),
                ),
                Some(None) => r is None,
                None => r matches Some(Err(Error::ParseNetwork(_))),
            },
    {
        match cidr_nth_host(self.cidr.as_str(), DHCP_SERVER_HOST) {
            Ok(None) => None,
            _ => Some(self.set_options(dhcp_options)),
        }
    }
}

impl OvnCommon for DhcpOptions {
    open spec fn spec_uuid(v: DhcpOptionsView) -> Seq<char> {
        v.uuid
    }

    open spec fn spec_ovn_type() -> Seq<char> {
        TYPE_DHCP_OPTIONS@
    }

    open spec fn spec_deserialize(row: JsonData) -> Option<DhcpOptionsView> {
        match row {
            JsonData::Object(o) => match (spec_row_uuid(o), spec_row_string(o, "cidr"@)) {
                (Some(u), Some(c)) => Some(DhcpOptionsView { uuid: u, cidr: c }),
                _ => None,
            },
            _ => None,
        }
    }

    fn uuid(&self) -> (r: String) {
        self.uuid.clone()
    }

    fn ovn_type() -> (r: String) {
        TYPE_DHCP_OPTIONS.to_owned()
    }

    fn deserialize(value: &JsonValue) -> (r: Result<Self, Error>) {
        let object = deserialize_object(value)?;
        let uuid = deserialize_uuid(object)?;
        let cidr = deserialize_string(object, "cidr")?;
        Ok(DhcpOptions { uuid, cidr })
    }
}

/// The value of the option `name` among `[NAME, VALUE]` pairs: that of the first pair
/// with that name and a text value.
pub open spec fn option_value(pairs: Seq<JsonData>, name: Seq<char>) -> Option<Seq<char>>
    decreases pairs.len(),
{
    if pairs.len() == 0 {
        None
    } else {
        match pairs[0] {
            JsonData::Array(p) => if p.len() == 2 && p[0] == JsonData::Str(name) && p[1] is Str {
                Some(p[1]->Str_0)
            } else {
                option_value(pairs.drop_first(), name)
            },
            _ => option_value(pairs.drop_first(), name),
        }
    }
}

/// The value that an update of a DHCP option set writes for the option `name`: its
/// options column is the map `["map", [[NAME, VALUE], ...]]`.
pub open spec fn written_option(op: JsonData, name: Seq<char>) -> Option<Seq<char>> {
    match json_member(op, "row"@) {
        Some(row) => match json_member(row, "options"@) {
            Some(JsonData::Array(m)) => if m.len() == 2 && m[0] == JsonData::Str("map"@) {
                match m[1] {
                    JsonData::Array(pairs) => option_value(pairs, name),
                    _ => None,
                }
            } else {
                None
            },
            _ => None,
        },
        None => None,
    }
}

proof fn lemma_option_value_concat(a: Seq<JsonData>, b: Seq<JsonData>, name: Seq<char>)
    ensures
        option_value(a + b, name) == if option_value(a, name) is Some {
            option_value(a, name)
        } else {
            option_value(b, name)
        },
    decreases a.len(),
{
    if a.len() == 0 {
        assert(a + b =~= b);
    } else {
        assert((a + b)[0] == a[0]);
        assert((a + b).drop_first() =~= a.drop_first() + b);
        lemma_option_value_concat(a.drop_first(), b, name);
    }
}

proof fn lemma_option_value_one(option: Seq<char>, value: Seq<char>, name: Seq<char>)
    ensures
        option_value(seq![spec_option(option, value)], name) == if option == name {
            Some(value)
        } else {
            None::<Seq<char>>
        },
{
    let pairs = seq![spec_option(option, value)];
    let p = seq![jstr(option), jstr(value)];
    assert(pairs[0] == JsonData::Array(p));
    assert(p.len() == 2 && p[0] == JsonData::Str(option) && p[1] == JsonData::Str(value));
    assert(pairs.drop_first() =~= Seq::<JsonData>::empty());
    assert(option_value(Seq::<JsonData>::empty(), name) is None);
}

proof fn lemma_optional_option_value(option: Seq<char>, value: Option<Seq<char>>, name: Seq<char>)
    ensures
        option_value(spec_optional_option(option, value), name) == if option == name {
            value
        } else {
            None::<Seq<char>>
        },
{
    match value {
        Some(v) => lemma_option_value_one(option, v, name),
        None => {},
    }
}

/// Configuring DHCP writes each setting under its own name: the update of the option
/// set `uuid` that `set_options` makes gives the option `server_id` the server's
/// address and `server_mac` the server's MAC address, and for each optional setting of
/// the network (lease time, DNS server, domain name, router) the option named after it
/// is there exactly when the setting is set, with the setting's value.
pub proof fn lemma_dhcp_options_follow_settings(uuid: Seq<char>, server_id: Seq<char>, crd: DhcpOptionsCrd)
    ensures
        op_string(spec_set_options(uuid, spec_dhcp_option_list(server_id, crd)), "op"@) == Some("update"@),
        op_string(spec_set_options(uuid, spec_dhcp_option_list(server_id, crd)), "table"@) == Some(
            TYPE_DHCP_OPTIONS@,
        ),
        selected_uuid(spec_set_options(uuid, spec_dhcp_option_list(server_id, crd))) == Some(uuid),
        written_option(spec_set_options(uuid, spec_dhcp_option_list(server_id, crd)), "server_id"@) == Some(
            server_id,
        ),
        written_option(spec_set_options(uuid, spec_dhcp_option_list(server_id, crd)), "server_mac"@) == Some(
            "c0:ff:ee:00:00:01"@,
        ),
        written_option(spec_set_options(uuid, spec_dhcp_option_list(server_id, crd)), "lease_time"@) == match crd.lease_time {
            Some(t) => Some(decimal_seq(t as nat)),
            None => None,
        },
        written_option(spec_set_options(uuid, spec_dhcp_option_list(server_id, crd)), "dns_server"@) == opt_view(
            crd.dns_server,
        ),
        written_option(spec_set_options(uuid, spec_dhcp_option_list(server_id, crd)), "domain_name"@)
            == opt_view(crd.domain_name),
        written_option(spec_set_options(uuid, spec_dhcp_option_list(server_id, crd)), "router"@) == opt_view(
            crd.router,
        ),
{
    let options = spec_dhcp_option_list(server_id, crd);
    let row = JsonData::Object(
        seq![("options"@, JsonData::Array(seq![jstr("map"@), JsonData::Array(options)]))],
    );
    lemma_update_op_targets(TYPE_DHCP_OPTIONS@, uuid, row);
    reveal_strlit("options");
    crate::json::lemma_lookup1(("options"@, JsonData::Array(seq![jstr("map"@), JsonData::Array(options)])), "options"@);
    reveal_strlit("server_id");
    reveal_strlit("server_mac");
    reveal_strlit("lease_time");
    reveal_strlit("dns_server");
    reveal_strlit("domain_name");
    reveal_strlit("router");
    let lease = match crd.lease_time {
        Some(t) => Some(decimal_seq(t as nat)),
        None => None,
    };
    let fixed = seq![spec_option("server_id"@, server_id), spec_option("server_mac"@, "c0:ff:ee:00:00:01"@)];
    let p1 = spec_optional_option("lease_time"@, lease);
    let p2 = spec_optional_option("dns_server"@, opt_view(crd.dns_server));
    let p3 = spec_optional_option("domain_name"@, opt_view(crd.domain_name));
    let p4 = spec_optional_option("router"@, opt_view(crd.router));
    assert(options == fixed + p1 + p2 + p3 + p4);
    assert(fixed =~= seq![spec_option("server_id"@, server_id)] + seq![spec_option("server_mac"@, "c0:ff:ee:00:00:01"@)]);
    lemma_option_list_value(server_id, crd, "server_id"@);
    lemma_option_list_value(server_id, crd, "server_mac"@);
    lemma_option_list_value(server_id, crd, "lease_time"@);
    lemma_option_list_value(server_id, crd, "dns_server"@);
    lemma_option_list_value(server_id, crd, "domain_name"@);
    lemma_option_list_value(server_id, crd, "router"@);
    assert("server_id"@.len() == 9 && "server_mac"@.len() == 10 && "lease_time"@.len() == 10
        && "dns_server"@.len() == 10 && "domain_name"@.len() == 11 && "router"@.len() == 6);
    assert("server_mac"@[0] != "lease_time"@[0] && "server_mac"@[0] != "dns_server"@[0]
        && "lease_time"@[0] != "dns_server"@[0]);
}

proof fn lemma_option_list_value(server_id: Seq<char>, crd: DhcpOptionsCrd, name: Seq<char>)
    ensures
        option_value(spec_dhcp_option_list(server_id, crd), name) == if name == "server_id"@ {
            Some(server_id)
        } else if name == "server_mac"@ {
            Some("c0:ff:ee:00:00:01"@)
        } else if name == "lease_time"@ {
            match crd.lease_time {
                Some(t) => Some(decimal_seq(t as nat)),
                None => None,
            }
        } else if name == "dns_server"@ {
            opt_view(crd.dns_server)
        } else if name == "domain_name"@ {
            opt_view(crd.domain_name)
        } else if name == "router"@ {
            opt_view(crd.router)
        } else {
            None
        },
{
    reveal_strlit("server_id");
    reveal_strlit("server_mac");
    reveal_strlit("lease_time");
    reveal_strlit("dns_server");
    reveal_strlit("domain_name");
    reveal_strlit("router");
    let names = seq!["server_id"@, "server_mac"@, "lease_time"@, "dns_server"@, "domain_name"@, "router"@];
    assert("server_id"@.len() == 9 && "server_mac"@.len() == 10 && "lease_time"@.len() == 10
        && "dns_server"@.len() == 10 && "domain_name"@.len() == 11 && "router"@.len() == 6);
    assert("server_mac"@[0] != "lease_time"@[0] && "server_mac"@[0] != "dns_server"@[0]
        && "lease_time"@[0] != "dns_server"@[0]);
    assert forall|i: int, j: int| 0 <= i < j < 6 implies #[trigger] names[i] != #[trigger] names[j] by {}
    assert(names[0] == "server_id"@ && names[1] == "server_mac"@ && names[2] == "lease_time"@
        && names[3] == "dns_server"@ && names[4] == "domain_name"@ && names[5] == "router"@);
    let options = spec_dhcp_option_list(server_id, crd);
    let lease = match crd.lease_time {
        Some(t) => Some(decimal_seq(t as nat)),
        None => None,
    };
    let a = seq![spec_option("server_id"@, server_id)];
    let b = seq![spec_option("server_mac"@, "c0:ff:ee:00:00:01"@)];
    let fixed = seq![spec_option("server_id"@, server_id), spec_option("server_mac"@, "c0:ff:ee:00:00:01"@)];
    assert(fixed =~= a + b);
    let p1 = spec_optional_option("lease_time"@, lease);
    let p2 = spec_optional_option("dns_server"@, opt_view(crd.dns_server));
    let p3 = spec_optional_option("domain_name"@, opt_view(crd.domain_name));
    let p4 = spec_optional_option("router"@, opt_view(crd.router));
    assert(options == fixed + p1 + p2 + p3 + p4);
    lemma_option_value_one("server_id"@, server_id, name);
    lemma_option_value_one("server_mac"@, "c0:ff:ee:00:00:01"@, name);
    lemma_option_value_concat(a, b, name);
    lemma_optional_option_value("lease_time"@, lease, name);
    lemma_optional_option_value("dns_server"@, opt_view(crd.dns_server), name);
    lemma_optional_option_value("domain_name"@, opt_view(crd.domain_name), name);
    lemma_optional_option_value("router"@, opt_view(crd.router), name);
    lemma_option_value_concat(fixed, p1, name);
    lemma_option_value_concat(fixed + p1, p2, name);
    lemma_option_value_concat(fixed + p1 + p2, p3, name);
    lemma_option_value_concat(fixed + p1 + p2 + p3, p4, name);
}

} // verus!
