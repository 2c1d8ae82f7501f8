//! Tables of the OVN northbound database and the generic operations on them.
use vstd::prelude::*;

use crate::cluster::ovn::common::{spec_delete_by_uuid, OvnCommon};
use crate::cluster::ovn::jsonrpc::{params_view, Message, Params};
use crate::cluster::ovn::ops::{jstr, object3, object4, where_uuid};
use crate::cluster::ovn::staticroute::{StaticRoute, StaticRouteView};
use crate::errors::Error;
use crate::json::{
    entries_view, json_array1, json_array2, json_array3, json_entry, json_str, object_get,
    object_lookup, values_view, JsonData, JsonValue,
};

verus! {

broadcast use crate::json::data::group_json_view;

pub const TYPE_LOGICAL_SWITCH: &'static str = "Logical_Switch";

pub const TYPE_LOGICAL_SWITCH_PORT: &'static str = "Logical_Switch_Port";

pub const TYPE_LOGICAL_ROUTER: &'static str = "Logical_Router";

pub const TYPE_LOGICAL_ROUTER_PORT: &'static str = "Logical_Router_Port";

pub const TYPE_LOGICAL_ROUTER_STATIC_ROUTE: &'static str = "Logical_Router_Static_Route";

pub const TYPE_DHCP_OPTIONS: &'static str = "DHCP_Options";

/// An `insert` of the row `params` into `object_type`.
pub fn insert(object_type: &str, params: JsonValue) -> (r: JsonValue)
    requires
        params@ is Object,
    ensures
        r@ == JsonData::Object(
            seq![("op"@, jstr("insert"@)), ("table"@, jstr(object_type@)), ("row"@, params@)],
        ),
{
    object3(
        json_entry("op", json_str("insert")),
        json_entry("table", json_str(object_type)),
        json_entry("row", params),
    )
}

/// A `delete` of the row with the given UUID from `object_type`.
pub fn delete_by_uuid(object_type: &str, uuid: &str) -> (r: JsonValue)
    ensures
        r@ == spec_delete_by_uuid(object_type@, uuid@),
{
    object3(
        json_entry("op", json_str("delete")),
        json_entry("table", json_str(object_type)),
        json_entry("where", where_uuid(uuid)),
    )
}

/// The database that the controllers transact on.
pub const DATABASE: &'static str = "OVN_Northbound";

/// The parameters of a `transact` call: the database name, then the operations.
pub fn transact_params(operations: &Vec<JsonValue>) -> (r: Params)
    ensures
        r is ByPosition,
        params_view(r) == JsonData::Array(seq![jstr(DATABASE@)] + values_view(operations@)),
{
    let mut params: Vec<JsonValue> = Vec::new();
    params.push(json_str(DATABASE));
    let mut i: usize = 0;
    while i < operations.len()
        invariant
            i <= operations.len(),
            values_view(params@) == seq![jstr(DATABASE@)] + values_view(operations@).take(i as int),
        decreases operations.len() - i,
    {
        let ghost before = values_view(params@);
        params.push(operations[i].deep_clone());
        assert(values_view(params@) =~= before.push(operations@[i as int]@));
        i = i + 1;
        assert(values_view(params@) =~= seq![jstr(DATABASE@)] + values_view(operations@).take(
            i as int,
        ));
    }
    assert(values_view(operations@).take(operations.len() as int) =~= values_view(operations@));
    Params::ByPosition(params)
}

/// One result of a transaction reports no error: its `error` member is missing or null.
pub open spec fn result_ok(result: JsonData) -> bool {
    &&& result is Object
    &&& match object_lookup(result->Object_0, "error"@) {
        Some(e) => e is Null,
        None => true,
    }
}

/// The response to a `transact` succeeded: no error, and an array of results that each
/// report no error.
pub open spec fn transact_response_ok(response: Message) -> bool {
    match response {
        Message::Response { error, result, .. } => {
            &&& error@ is Null
            &&& result@ is Array
            &&& forall|i: int|
                0 <= i < result@->Array_0.len() ==> result_ok(#[trigger] result@->Array_0[i])
        },
        _ => false,
    }
}

/// The results of a successful transaction, one per operation.
pub fn transact_results(response: &Message) -> (r: Vec<JsonValue>)
    requires
        transact_response_ok(*response),
    ensures
        response matches Message::Response { result, .. } && values_view(r@) == result@->Array_0,
{
    match response {
        Message::Response { result, .. } => {
            let items = result.as_array().unwrap();
            let mut out: Vec<JsonValue> = Vec::new();
            let mut i: usize = 0;
            while i < items.len()
                invariant
                    i <= items.len(),
                    values_view(out@) == values_view(items@).take(i as int),
                decreases items.len() - i,
            {
                let ghost before = values_view(out@);
                out.push(items[i].deep_clone());
                assert(values_view(out@) =~= before.push(items@[i as int]@));
                i = i + 1;
                assert(values_view(out@) =~= values_view(items@).take(i as int));
            }
            assert(values_view(items@).take(items.len() as int) =~= values_view(items@));
            out
        },
        _ => Vec::new(),
    }
}

/// The columns that a listing of `object_type` reads.
pub open spec fn spec_list_columns(object_type: Seq<char>) -> Seq<Seq<char>> {
    if object_type == TYPE_DHCP_OPTIONS@ {
        seq!["_uuid"@, "cidr"@]
    } else if object_type == TYPE_LOGICAL_ROUTER@ {
        seq!["_uuid"@, "name"@, "static_routes"@]
    } else if object_type == TYPE_LOGICAL_ROUTER_STATIC_ROUTE@ {
        seq!["_uuid"@, "ip_prefix"@, "nexthop"@]
    } else {
        seq!["_uuid"@, "name"@]
    }
}

/// The `select` of all rows of `object_type`, reading the columns it needs.
pub open spec fn spec_list_objects(object_type: Seq<char>) -> JsonData {
    JsonData::Object(
        seq![
            ("op"@, jstr("select"@)),
            ("table"@, jstr(object_type)),
            ("where"@, JsonData::Array(Seq::empty())),
            ("columns"@, JsonData::Array(spec_list_columns(object_type).map_values(|c: Seq<char>| jstr(c)))),
        ],
    )
}

fn list_columns(object_type: &str) -> (r: JsonValue)
    ensures
        r@ == JsonData::Array(spec_list_columns(object_type@).map_values(|c: Seq<char>| jstr(c))),
{
    let r = if crate::text::str_equal(object_type, TYPE_DHCP_OPTIONS) {
        json_array2(json_str("_uuid"), json_str("cidr"))
    } else if crate::text::str_equal(object_type, TYPE_LOGICAL_ROUTER) {
        json_array3(json_str("_uuid"), json_str("name"), json_str("static_routes"))
    } else if crate::text::str_equal(object_type, TYPE_LOGICAL_ROUTER_STATIC_ROUTE) {
        json_array3(json_str("_uuid"), json_str("ip_prefix"), json_str("nexthop"))
    } else {
        json_array2(json_str("_uuid"), json_str("name"))
    };
    assert(r@->Array_0 =~= spec_list_columns(object_type@).map_values(|c: Seq<char>| jstr(c)));
    r
}

/// The operation that lists all rows of `object_type`.
pub fn list_objects(object_type: &str) -> (r: JsonValue)
    ensures
        r@ == spec_list_objects(object_type@),
{
    let no_conditions: Vec<JsonValue> = Vec::new();
    assert(values_view(no_conditions@) =~= Seq::<JsonData>::empty());
    let where_clause = JsonValue::Array(no_conditions);
    object4(
        json_entry("op", json_str("select")),
        json_entry("table", json_str(object_type)),
        json_entry("where", where_clause),
        json_entry("columns", list_columns(object_type)),
    )
}

/// The rows that the first result of a `select` returned.
pub open spec fn select_rows_ok(results: Seq<JsonData>) -> bool {
    &&& results.len() > 0
    &&& results[0] is Object
    &&& object_lookup(results[0]->Object_0, "rows"@) matches Some(rows) && rows is Array
}

/// Whether one result of a transaction reports no error.
fn result_is_ok(result: &JsonValue) -> (r: bool)
    ensures
        r == result_ok(result@),
{
    match result.as_object() {
        Some(o) => match object_get(o, "error") {
            Some(e) => e.is_null(),
            None => true,
        },
        None => false,
    }
}

/// Whether the response to a `transact` succeeded.
#[verifier::loop_isolation(false)]
pub fn transact_response_is_ok(response: &Message) -> (r: bool)
    ensures
        r == transact_response_ok(*response),
{
    match response {
        Message::Response { error, result, .. } => {
            if !error.is_null() {
                return false;
            }
            match result.as_array() {
                Some(items) => {
                    let mut i: usize = 0;
                    while i < items.len()
                        invariant
                            i <= items.len(),
                            result@ == JsonData::Array(values_view(items@)),
                            forall|j: int| 0 <= j < i ==> result_ok(#[trigger] values_view(items@)[j]),
                        decreases items.len() - i,
                    {
                        assert(values_view(items@)[i as int] == items@[i as int]@);
                        if !result_is_ok(&items[i]) {
                            assert(!result_ok(result@->Array_0[i as int]));
                            return false;
                        }
                        i = i + 1;
                    }
                    true
                },
                None => false,
            }
        },
        Message::Request { .. } => false,
    }
}

/// Whether the results of a transaction start with the rows of a `select`.
pub fn select_rows_are_ok(results: &Vec<JsonValue>) -> (r: bool)
    ensures
        r == select_rows_ok(values_view(results@)),
{
    if results.len() == 0 {
        return false;
    }
    assert(values_view(results@)[0] == results@[0]@);
    match results[0].as_object() {
        Some(o) => match object_get(o, "rows") {
            Some(rows) => rows.as_array().is_some(),
            None => false,
        },
        None => false,
    }
}

/// The rows of the first result of a transaction whose first operation was a `select`.
pub fn select_rows(results: &Vec<JsonValue>) -> (r: Vec<JsonValue>)
    requires
        select_rows_ok(values_view(results@)),
    ensures
        object_lookup(values_view(results@)[0]->Object_0, "rows"@) == Some(
            JsonData::Array(values_view(r@)),
        ),
{
    assert(values_view(results@)[0] == results@[0]@);
    let first = results[0].as_object().unwrap();
    let rows = object_get(first, "rows").unwrap().as_array().unwrap();
    let mut out: Vec<JsonValue> = Vec::new();
    let mut i: usize = 0;
    while i < rows.len()
        invariant
            i <= rows.len(),
            values_view(out@) == values_view(rows@).take(i as int),
        decreases rows.len() - i,
    {
        let ghost before = values_view(out@);
        out.push(rows[i].deep_clone());
        assert(values_view(out@) =~= before.push(rows@[i as int]@));
        i = i + 1;
        assert(values_view(out@) =~= values_view(rows@).take(i as int));
    }
    assert(values_view(rows@).take(rows.len() as int) =~= values_view(rows@));
    out
}

/// The `select` of the static routes column of the router named `router_name`.
pub open spec fn spec_get_lr_routes_operation(router_name: Seq<char>) -> JsonData {
    JsonData::Object(
        seq![
            ("op"@, jstr("select"@)),
            ("table"@, jstr(TYPE_LOGICAL_ROUTER@)),
            ("where"@, JsonData::Array(seq![JsonData::Array(seq![jstr("name"@), jstr("=="@), jstr(router_name)])])),
            ("columns"@, JsonData::Array(seq![jstr("static_routes"@)])),
        ],
    )
}

/// The operation that reads the static routes of the router named `router_name`.
pub fn get_lr_routes_operation(router_name: &str) -> (r: JsonValue)
    ensures
        r@ == spec_get_lr_routes_operation(router_name@),
{
    object4(
        json_entry("op", json_str("select")),
        json_entry("table", json_str(TYPE_LOGICAL_ROUTER)),
        json_entry("where", json_array1(json_array3(json_str("name"), json_str("=="), json_str(router_name)))),
        json_entry("columns", json_array1(json_str("static_routes"))),
    )
}

/// The second item of the `static_routes` column of a router row: a single UUID
/// string, or a list of `["uuid", UUID]` pairs.
pub open spec fn static_routes_item(row: JsonData) -> JsonData {
    match object_lookup(row->Object_0, "static_routes"@) {
        Some(JsonData::Array(a)) => a[1],
        _ => JsonData::Null,
    }
}

/// The router row holds a `static_routes` column in one of the two forms.
pub open spec fn router_row_well_formed(row: JsonData) -> bool {
    &&& row is Object
    &&& object_lookup(row->Object_0, "static_routes"@) matches Some(JsonData::Array(a)) && a.len() > 1
    &&& static_routes_item(row) is Str || (static_routes_item(row) is Array && forall|i: int|
        0 <= i < static_routes_item(row)->Array_0.len() ==> {
            let pair = #[trigger] static_routes_item(row)->Array_0[i];
            pair is Array && pair->Array_0.len() > 1 && pair->Array_0[1] is Str
        })
}

/// The UUIDs of the router's static routes.
pub open spec fn router_route_uuids(row: JsonData) -> Seq<Seq<char>> {
    match static_routes_item(row) {
        JsonData::Str(u) => seq![u],
        JsonData::Array(pairs) => pairs.map_values(|p: JsonData| p->Array_0[1]->Str_0),
        _ => Seq::empty(),
    }
}

/// Views of a sequence of static routes.
pub open spec fn routes_view(routes: Seq<StaticRoute>) -> Seq<StaticRouteView> {
    routes.map_values(|r: StaticRoute| r@)
}

/// `route` is the first of `routes` with UUID `uuid`.
pub open spec fn first_route_with_uuid(routes: Seq<StaticRouteView>, uuid: Seq<char>, route: StaticRouteView) -> bool {
    exists|k: int|
        0 <= k < routes.len() && routes[k] == route && route.uuid == uuid && forall|j: int|
            0 <= j < k ==> (#[trigger] routes[j]).uuid != uuid
}

/// Every route UUID of the router is the UUID of one of `routes`.
pub open spec fn routes_known(row: JsonData, routes: Seq<StaticRouteView>) -> bool {
    forall|i: int|
        0 <= i < router_route_uuids(row).len() ==> exists|k: int|
            0 <= k < routes.len() && routes[k].uuid == #[trigger] router_route_uuids(row)[i]
}

fn find_route(routes: &Vec<StaticRoute>, uuid: &String) -> (r: StaticRoute)
    requires
        exists|k: int| 0 <= k < routes.len() && routes@[k].uuid@ == uuid@,
    ensures
        first_route_with_uuid(routes_view(routes@), uuid@, r@),
{
    let ghost rv = routes_view(routes@);
    let mut i: usize = 0;
    while i < routes.len()
        invariant
            i <= routes.len(),
            rv == routes_view(routes@),
            exists|k: int| 0 <= k < routes.len() && routes@[k].uuid@ == uuid@,
            forall|j: int| 0 <= j < i ==> (#[trigger] rv[j]).uuid != uuid@,
        decreases routes.len() - i,
    {
        if routes[i].uuid == *uuid {
            let r = routes[i].copy();
            assert(rv[i as int] == r@);
            return r;
        }
        assert(rv[i as int] == routes@[i as int]@);
        i = i + 1;
    }
    assert(false) by {
        let k = choose|k: int| 0 <= k < routes.len() && routes@[k].uuid@ == uuid@;
        assert(rv[k] == routes@[k]@);
    }
    routes[0].copy()
}

/// The static routes of a router, given the rows of the router's `select` and all
/// static routes: each UUID of the router's column resolved, in order, to the first
/// route with it. `OvnNotFound` when no router row came back.
pub fn get_lr_routes(router_name: &str, rows: &Vec<JsonValue>, all_routes: &Vec<StaticRoute>) -> (r: Result<
    Vec<StaticRoute>,
    Error,
>)
    requires
        rows.len() > 0 ==> router_row_well_formed(rows@[0]@) && routes_known(
            rows@[0]@,
            routes_view(all_routes@),
        ),
    ensures
        rows.len() == 0 ==> (r matches Err(Error::OvnNotFound(t, n)) && t@ == "LogicalRouter"@ && n@
            == router_name@),
        rows.len() > 0 ==> (r matches Ok(v) && v.len() == router_route_uuids(rows@[0]@).len() && forall|i: int|
            0 <= i < v.len() ==> first_route_with_uuid(
                routes_view(all_routes@),
                router_route_uuids(rows@[0]@)[i],
                (#[trigger] v@[i])@,
            )),
{
    if rows.len() == 0 {
        return Err(Error::OvnNotFound("LogicalRouter".to_owned(), router_name.to_owned()));
    }
    let ghost row = rows@[0]@;
    let router = rows[0].as_object().unwrap();
    let column = object_get(router, "static_routes").unwrap().as_array().unwrap();
    assert(values_view(column@)[1] == column@[1]@);
    assert(static_routes_item(row) == column@[1]@);
    let uuids: Vec<String> = match column[1].as_str() {
        Some(u) => {
            let mut v: Vec<String> = Vec::new();
            v.push(u.clone());
            v
        },
        None => {
            let pairs = column[1].as_array().unwrap();
            let ghost pv = values_view(pairs@);
            assert(static_routes_item(row)->Array_0 == pv);
            let mut v: Vec<String> = Vec::new();
            let mut i: usize = 0;
            while i < pairs.len()
                invariant
                    i <= pairs.len(),
                    pv == values_view(pairs@),
                    static_routes_item(row) == JsonData::Array(pv),
                    router_row_well_formed(row),
                    v.len() == i,
                    forall|k: int| 0 <= k < i ==> (#[trigger] v@[k])@ == router_route_uuids(row)[k],
                decreases pairs.len() - i,
            {
                assert(pv[i as int] == pairs@[i as int]@);
                let pair = pairs[i].as_array().unwrap();
                assert(values_view(pair@)[1] == pair@[1]@);
                let u = pair[1].as_str().unwrap();
                v.push(u.clone());
                i = i + 1;
            }
            v
        },
    };
    assert(uuids.len() == router_route_uuids(row).len());
    let mut routes: Vec<StaticRoute> = Vec::new();
    let mut i: usize = 0;
    while i < uuids.len()
        invariant
            i <= uuids.len(),
            uuids.len() == router_route_uuids(row).len(),
            forall|k: int| 0 <= k < uuids.len() ==> (#[trigger] uuids@[k])@ == router_route_uuids(row)[k],
            routes_known(row, routes_view(all_routes@)),
            routes.len() == i,
            forall|k: int|
                0 <= k < i ==> first_route_with_uuid(
                    routes_view(all_routes@),
                    router_route_uuids(row)[k],
                    (#[trigger] routes@[k])@,
                ),
        decreases uuids.len() - i,
    {
        assert(uuids@[i as int]@ == router_route_uuids(row)[i as int]);
        proof {
            let k = choose|k: int|
                0 <= k < routes_view(all_routes@).len() && routes_view(all_routes@)[k].uuid
                    == router_route_uuids(row)[i as int];
            assert(all_routes@[k]@ == routes_view(all_routes@)[k]);
        }
        let route = find_route(all_routes, &uuids[i]);
        routes.push(route);
        i = i + 1;
    }
    Ok(routes)
}

/// Whether a `select` operation reads column `column`.
pub open spec fn lists_column(op: JsonData, column: Seq<char>) -> bool {
    match crate::json::json_member(op, "columns"@) {
        Some(JsonData::Array(columns)) => columns.contains(JsonData::Str(column)),
        _ => false,
    }
}

/// The members of a row that a `select` operation reads, in order.
pub open spec fn selected_members(op: JsonData, row: Seq<(Seq<char>, JsonData)>) -> Seq<(Seq<char>, JsonData)>
    decreases row.len(),
{
    if row.len() == 0 {
        Seq::empty()
    } else if lists_column(op, row[0].0) {
        seq![row[0]] + selected_members(op, row.drop_first())
    } else {
        selected_members(op, row.drop_first())
    }
}

/// A column that a `select` reads has the same value in the row it returns as in the
/// whole row.
pub proof fn lemma_selected_column(op: JsonData, row: Seq<(Seq<char>, JsonData)>, column: Seq<char>)
    requires
        lists_column(op, column),
    ensures
        object_lookup(selected_members(op, row), column) == object_lookup(row, column),
    decreases row.len(),
{
    if row.len() > 0 {
        lemma_selected_column(op, row.drop_first(), column);
        if lists_column(op, row[0].0) {
            crate::json::lemma_lookup_cons(row[0], selected_members(op, row.drop_first()), column);
        }
    }
}

/// What a listing of `object_type` says: it selects all rows of that table and reads
/// the columns of `spec_list_columns`.
pub proof fn lemma_list_objects_parts(object_type: Seq<char>, column: Seq<char>)
    ensures
        crate::cluster::ovn::ops::op_string(spec_list_objects(object_type), "op"@) == Some("select"@),
        crate::cluster::ovn::ops::op_string(spec_list_objects(object_type), "table"@) == Some(object_type),
        crate::json::json_member(spec_list_objects(object_type), "where"@) == Some(JsonData::Array(Seq::empty())),
        lists_column(spec_list_objects(object_type), column) <==> spec_list_columns(object_type).contains(column),
{
    reveal_strlit("op");
    reveal_strlit("table");
    reveal_strlit("where");
    reveal_strlit("columns");
    let columns = spec_list_columns(object_type).map_values(|c: Seq<char>| jstr(c));
    let e0 = ("op"@, jstr("select"@));
    let e1 = ("table"@, jstr(object_type));
    let e2 = ("where"@, JsonData::Array(Seq::empty()));
    let e3 = ("columns"@, JsonData::Array(columns));
    crate::json::lemma_lookup4(e0, e1, e2, e3, "op"@);
    crate::json::lemma_lookup4(e0, e1, e2, e3, "table"@);
    crate::json::lemma_lookup4(e0, e1, e2, e3, "where"@);
    crate::json::lemma_lookup4(e0, e1, e2, e3, "columns"@);
    assert("op"@.len() == 2 && "table"@.len() == 5 && "where"@.len() == 5 && "columns"@.len() == 7);
    assert("table"@[0] != "where"@[0]);
    let cols = spec_list_columns(object_type);
    if columns.contains(JsonData::Str(column)) {
        let i = choose|i: int| 0 <= i < columns.len() && columns[i] == JsonData::Str(column);
        assert(cols[i] == column);
    }
    if cols.contains(column) {
        let i = choose|i: int| 0 <= i < cols.len() && cols[i] == column;
        assert(columns[i] == JsonData::Str(column));
    }
}

} // verus!
