use cluster_manager::cluster::ovn::common::{Ensured, OvnBasicActions, OvnCommon, OvnGetters, OvnNamedGetters};
use cluster_manager::cluster::ovn::controller::{
    connect_router_to_ls, delete_network, delete_router, dhcp_options_for, ensure_router_attachment, metadata_service_name,
    router_name_is_valid, wants_metadata_service,
};
use cluster_manager::cluster::ovn::dhcpoptions::DhcpOptions;
use cluster_manager::cluster::ovn::jsonrpc::{answers, next_id, request_message, Message, Params};
use cluster_manager::cluster::ovn::logicalrouter::LogicalRouter;
use cluster_manager::cluster::ovn::logicalswitch::LogicalSwitch;
use cluster_manager::cluster::ovn::logicalswitchport::LogicalSwitchPort;
use cluster_manager::cluster::ovn::deserialization::{deserialize_uuid_set, uuid_set_column_is_well_formed};
use cluster_manager::cluster::ovn::lowlevel::{
    select_rows, select_rows_are_ok, transact_params, transact_response_is_ok, transact_results,
};
use cluster_manager::crd::ovn::{DhcpOptions as DhcpOptionsCrd, RouterAttachment, RouterSpec};
use cluster_manager::errors::Error;
use cluster_manager::json::{JsonEntry, JsonNumber, JsonValue};
use cluster_manager::meta::ObjectMeta;

fn to_serde(v: &JsonValue) -> serde_json::Value {
    match v {
        JsonValue::Null => serde_json::Value::Null,
        JsonValue::Bool(b) => serde_json::Value::Bool(*b),
        JsonValue::Number(JsonNumber::PosInt(n)) => serde_json::Value::from(*n),
        JsonValue::Number(JsonNumber::NegInt(n)) => serde_json::Value::from(*n),
        JsonValue::Number(JsonNumber::Float(s)) => serde_json::Value::String(s.clone()),
        JsonValue::Str(s) => serde_json::Value::String(s.clone()),
        JsonValue::Array(items) => serde_json::Value::Array(items.iter().map(to_serde).collect()),
        JsonValue::Object(entries) => serde_json::Value::Object(
            entries.iter().map(|e| (e.key.clone(), to_serde(&e.value))).collect(),
        ),
    }
}

fn from_serde(v: &serde_json::Value) -> JsonValue {
    match v {
        serde_json::Value::Null => JsonValue::Null,
        serde_json::Value::Bool(b) => JsonValue::Bool(*b),
        serde_json::Value::Number(n) => match (n.as_u64(), n.as_i64()) {
            (Some(u), _) => JsonValue::Number(JsonNumber::PosInt(u)),
            (None, Some(i)) => JsonValue::Number(JsonNumber::NegInt(i)),
            _ => JsonValue::Number(JsonNumber::Float(n.to_string())),
        },
        serde_json::Value::String(s) => JsonValue::Str(s.clone()),
        serde_json::Value::Array(items) => JsonValue::Array(items.iter().map(from_serde).collect()),
        serde_json::Value::Object(map) => JsonValue::Object(
            map.iter().map(|(k, v)| JsonEntry { key: k.clone(), value: from_serde(v) }).collect(),
        ),
    }
}

fn parse(text: &str) -> serde_json::Value {
    serde_json::from_str(text).unwrap()
}

fn switch(uuid: &str, name: &str) -> LogicalSwitch {
    LogicalSwitch { uuid: uuid.to_string(), name: name.to_string() }
}

fn dhcp(cidr: &str) -> DhcpOptionsCrd {
    DhcpOptionsCrd { cidr: cidr.to_string(), lease_time: Some(3600), ..DhcpOptionsCrd::default() }
}

#[test]
fn dhcp_server_takes_second_host() {
    let set = DhcpOptions { uuid: "d1".to_string(), cidr: "10.0.0.0/24".to_string() };
    let op = to_serde(&set.set_options(&dhcp("10.0.0.0/24")).unwrap());
    assert_eq!(op["op"], "update");
    assert_eq!(op["table"], "DHCP_Options");
    assert_eq!(op["where"], parse(r#"[["_uuid", "==", ["uuid", "d1"]]]"#));
    assert_eq!(
        op["row"]["options"],
        parse(
            r#"["map", [["server_id", "10.0.0.2"], ["server_mac", "c0:ff:ee:00:00:01"],
                        ["lease_time", "3600"]]]"#
        )
    );
}

#[test]
fn dhcp_options_errors() {
    let bad = DhcpOptions { uuid: "d1".to_string(), cidr: "not-a-network".to_string() };
    assert!(matches!(bad.set_options(&dhcp("x")), Err(Error::ParseNetwork(_))));
    let tiny = DhcpOptions { uuid: "d2".to_string(), cidr: "10.0.0.1/32".to_string() };
    assert!(tiny.try_set_options(&dhcp("10.0.0.1/32")).is_none());
    let v6 = DhcpOptions { uuid: "d3".to_string(), cidr: "fd00::/64".to_string() };
    let op = to_serde(&v6.try_set_options(&dhcp("fd00::/64")).unwrap().unwrap());
    assert_eq!(op["row"]["options"][1][0], parse(r#"["server_id", "fd00::1"]"#));
}

#[test]
fn dhcp_options_by_cidr() {
    let sets = vec![
        DhcpOptions { uuid: "a".to_string(), cidr: "10.0.0.0/24".to_string() },
        DhcpOptions { uuid: "b".to_string(), cidr: "10.0.1.0/24".to_string() },
    ];
    assert_eq!(DhcpOptions::get_by_cidr(sets, "10.0.1.0/24").unwrap().uuid, "b");
    let sets = vec![DhcpOptions { uuid: "a".to_string(), cidr: "10.0.0.0/24".to_string() }];
    assert!(matches!(
        DhcpOptions::get_by_cidr(sets, "10.9.0.0/24"),
        Err(Error::OvnNotFound(t, c)) if t == "DHCP_Options" && c == "10.9.0.0/24"
    ));
    assert_eq!(
        to_serde(&DhcpOptions::create("10.0.0.0/24")),
        parse(r#"{"op": "insert", "table": "DHCP_Options", "row": {"cidr": "10.0.0.0/24"}, "uuid-name": "new_dhcp_options"}"#)
    );
}

#[test]
fn switches_from_rows() {
    let rows = vec![
        from_serde(&parse(r#"{"_uuid": ["uuid", "u1"], "name": "ns-a"}"#)),
        from_serde(&parse(r#"{"_uuid": ["uuid", "u2"], "name": "ns-b"}"#)),
    ];
    let switches = LogicalSwitch::list(&rows).unwrap();
    assert_eq!(switches.len(), 2);
    let b = LogicalSwitch::get_by_name(switches, "ns-b").unwrap();
    assert_eq!(b.uuid, "u2");
    let bad = vec![from_serde(&parse(r#"{"name": "no-uuid"}"#))];
    assert!(matches!(LogicalSwitch::list(&bad), Err(Error::OvnDeserializationFailed)));
    assert!(matches!(LogicalSwitch::deserialize(&from_serde(&parse("[1]"))), Err(Error::OvnDeserializationFailed)));
}

#[test]
fn switch_created_only_when_missing() {
    match LogicalSwitch::create_if_missing(vec![switch("u1", "ns-a")], "ns-a") {
        Ensured::Existing(ls) => assert_eq!(ls.uuid, "u1"),
        Ensured::Create(_) => panic!("the switch exists"),
    }
    match LogicalSwitch::create_if_missing(vec![switch("u1", "ns-a")], "ns-b") {
        Ensured::Create(ops) => {
            assert_eq!(ops.len(), 1);
            assert_eq!(
                to_serde(&ops[0]),
                parse(r#"{"op": "insert", "table": "Logical_Switch", "row": {"name": "ns-b"}}"#)
            );
        }
        Ensured::Existing(_) => panic!("the switch is missing"),
    }
}

#[test]
fn deleting_networks_and_routers() {
    let op = delete_network(vec![switch("u1", "ns-a"), switch("u2", "ns-b")], "ns-b").unwrap();
    assert_eq!(
        to_serde(&op),
        parse(r#"{"op": "delete", "table": "Logical_Switch", "where": [["_uuid", "==", ["uuid", "u2"]]]}"#)
    );
    assert!(matches!(delete_network(vec![], "ns-x"),
        Err(Error::OvnNotFound(t, n)) if t == "Logical_Switch" && n == "ns-x"));
    let routers = vec![LogicalRouter { uuid: "r1".to_string(), name: "ns-r".to_string() }];
    let op = to_serde(&delete_router(routers, "ns-r").unwrap());
    assert_eq!(op["table"], "Logical_Router");
    let other = vec![LogicalRouter { uuid: "r2".to_string(), name: "ns-other".to_string() }];
    assert!(matches!(delete_router(other, "ns-r"),
        Err(Error::OvnNotFound(t, n)) if t == "Logical_Router" && n == "ns-r"));
}

#[test]
fn router_link_names() {
    let lr = LogicalRouter { uuid: "r1".to_string(), name: "ns-r".to_string() };
    let ls = switch("s1", "ns-net");
    let link = connect_router_to_ls(&lr, &ls);
    assert_eq!(link.lrp_name, "lr_ns-r_ls_ns-net");
    assert_eq!(link.lsp_name, "ls_ns-net_lr_ns-r");
    let params = to_serde(&JsonValue::Object(link.lsp_params));
    assert_eq!(
        params,
        parse(r#"{"type": "router", "addresses": "router", "options": ["map", [["router-port", "lr_ns-r_ls_ns-net"]]]}"#)
    );
}

#[test]
fn router_attachment_names() {
    let network = ObjectMeta {
        name: Some("net".to_string()),
        namespace: Some("ns".to_string()),
        ..ObjectMeta::default()
    };
    let local = RouterAttachment { name: "edge".to_string(), address: "10.0.0.1/24".to_string() };
    assert_eq!(ensure_router_attachment(&network, &local), ("ns-edge".to_string(), "ns-net".to_string()));
    let remote = RouterAttachment { name: "infra/edge".to_string(), address: "10.0.0.1/24".to_string() };
    assert_eq!(ensure_router_attachment(&network, &remote), ("infra-edge".to_string(), "ns-net".to_string()));
}

#[test]
fn metadata_service() {
    assert!(wants_metadata_service(&RouterSpec { routes: None, metadata_service: Some(true) }));
    assert!(!wants_metadata_service(&RouterSpec { routes: None, metadata_service: Some(false) }));
    assert!(!wants_metadata_service(&RouterSpec::default()));
    assert_eq!(metadata_service_name("ns-r"), "mds-ns-r");
}

#[test]
fn json_rpc_requests_and_answers() {
    let mut counter = 7u64;
    let id = next_id(&mut counter);
    assert_eq!((id, counter), (7, 8));
    let ops = vec![from_serde(&parse(r#"{"op": "comment", "comment": "x"}"#))];
    let params = transact_params(&ops);
    match &params {
        Params::ByPosition(items) => {
            assert_eq!(to_serde(&items[0]), parse(r#""OVN_Northbound""#));
            assert_eq!(items.len(), 2);
        }
        Params::ByName(_) => panic!("transact takes positional parameters"),
    }
    match request_message(id, "transact", params) {
        Message::Request { id, method, .. } => {
            assert_eq!(to_serde(&id), parse("7"));
            assert_eq!(method, "transact");
        }
        Message::Response { .. } => panic!("expected a request"),
    }
    let response = Message::Response {
        id: JsonValue::Number(JsonNumber::PosInt(7)),
        result: JsonValue::Array(vec![]),
        error: JsonValue::Null,
    };
    assert!(answers(&response, &JsonValue::Number(JsonNumber::PosInt(7))));
    assert!(!answers(&response, &JsonValue::Number(JsonNumber::PosInt(8))));
}

fn response(result: &str, error: &str) -> Message {
    Message::Response {
        id: JsonValue::Number(JsonNumber::PosInt(1)),
        result: from_serde(&parse(result)),
        error: from_serde(&parse(error)),
    }
}

#[test]
fn transaction_responses() {
    let ok = response(r#"[{"rows": [{"name": "a"}]}, {"uuid": ["uuid", "x"], "error": null}]"#, "null");
    assert!(transact_response_is_ok(&ok));
    let results = transact_results(&ok);
    assert_eq!(results.len(), 2);
    assert!(select_rows_are_ok(&results));
    let rows = select_rows(&results);
    assert_eq!(to_serde(&rows[0]), parse(r#"{"name": "a"}"#));
    assert!(!transact_response_is_ok(&response("[]", r#""failure""#)));
    assert!(!transact_response_is_ok(&response(r#"[{"error": "constraint violation"}]"#, "null")));
    assert!(!transact_response_is_ok(&response(r#"{"rows": []}"#, "null")));
    assert!(!select_rows_are_ok(&vec![]));
    assert!(!select_rows_are_ok(&vec![from_serde(&parse(r#"{"count": 1}"#))]));
}

fn row(text: &str) -> Vec<JsonEntry> {
    match from_serde(&parse(text)) {
        JsonValue::Object(entries) => entries,
        _ => panic!("a row is an object"),
    }
}

#[test]
fn uuid_set_columns() {
    let single = row(r#"{"ports": ["uuid", "p1"]}"#);
    assert!(uuid_set_column_is_well_formed(&single, "ports"));
    assert_eq!(deserialize_uuid_set(&single, "ports").unwrap(), vec!["p1".to_string()]);
    let many = row(r#"{"ports": ["set", [["uuid", "p1"], ["uuid", "p2"]]]}"#);
    assert!(uuid_set_column_is_well_formed(&many, "ports"));
    assert_eq!(deserialize_uuid_set(&many, "ports").unwrap(), vec!["p1".to_string(), "p2".to_string()]);
    let empty = row(r#"{"ports": ["set", []]}"#);
    assert_eq!(deserialize_uuid_set(&empty, "ports").unwrap(), Vec::<String>::new());
    assert!(!uuid_set_column_is_well_formed(&row(r#"{"ports": ["map", []]}"#), "ports"));
    assert!(!uuid_set_column_is_well_formed(&row(r#"{"ports": ["set", [["named-uuid", "x"]]]}"#), "ports"));
    let missing = row(r#"{"name": "x"}"#);
    assert!(uuid_set_column_is_well_formed(&missing, "ports"));
    assert!(matches!(deserialize_uuid_set(&missing, "ports"), Err(Error::OvnDeserializationFailed)));
}

#[test]
fn switch_port_select() {
    assert_eq!(
        to_serde(&switch("u1", "ns-a").select_ports()),
        parse(r#"{"op": "select", "table": "Logical_Switch", "where": [["_uuid", "==", ["uuid", "u1"]]], "columns": ["ports"]}"#)
    );
}

#[test]
fn router_names() {
    assert!(router_name_is_valid("edge"));
    assert!(router_name_is_valid("infra/edge"));
    assert!(!router_name_is_valid("a/b/c"));
}

#[test]
fn ensuring_twice_creates_once() {
    let created = LogicalRouter::create_if_missing(vec![], "ns-r");
    assert!(matches!(&created, Ensured::Create(ops) if ops.len() == 1));
    let after = vec![LogicalRouter { uuid: "r1".to_string(), name: "ns-r".to_string() }];
    assert!(matches!(LogicalRouter::create_if_missing(after, "ns-r"), Ensured::Existing(lr) if lr.uuid == "r1"));

    let ls = switch("s1", "ns-net");
    assert!(matches!(ls.lsp().create_if_missing(vec![], "port-1", None), Ensured::Create(_)));
    let ports = vec![LogicalSwitchPort {
        uuid: "p1".to_string(),
        name: "port-1".to_string(),
        addresses: String::new(),
        dynamic_addresses: String::new(),
    }];
    assert!(matches!(ls.lsp().create_if_missing(ports, "port-1", None), Ensured::Existing(p) if p.uuid == "p1"));

    let first = dhcp_options_for(vec![], "10.0.0.0/24");
    assert!(matches!(&first, Ensured::Create(ops) if ops.len() == 1));
    let after = vec![DhcpOptions { uuid: "d1".to_string(), cidr: "10.0.0.0/24".to_string() }];
    assert!(matches!(dhcp_options_for(after, "10.0.0.0/24"), Ensured::Existing(d) if d.uuid == "d1"));
}
