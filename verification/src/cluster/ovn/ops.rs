//! OVSDB operations as JSON values: the shapes that the OVN objects send, with the
//! exact value each builder produces.
use vstd::prelude::*;

use crate::json::{
    entries_view, json_array1, json_array2, json_array3, json_entry, json_member, json_object, json_str,
    JsonData, JsonEntry, JsonValue,
};

verus! {

broadcast use crate::json::data::group_json_view;

/// A JSON string.
pub open spec fn jstr(s: Seq<char>) -> JsonData {
    JsonData::Str(s)
}

/// A reference to a row, `[KIND, ID]`, where KIND is "uuid" or "named-uuid".
pub open spec fn spec_uuid_ref(kind: Seq<char>, id: Seq<char>) -> JsonData {
    JsonData::Array(seq![jstr(kind), jstr(id)])
}

/// The condition selecting the row with the given UUID: `[["_uuid", "==", ["uuid", UUID]]]`.
pub open spec fn spec_where_uuid(uuid: Seq<char>) -> JsonData {
    JsonData::Array(
        seq![JsonData::Array(seq![jstr("_uuid"@), jstr("=="@), spec_uuid_ref("uuid"@, uuid)])],
    )
}

/// A set holding one reference: `["set", [[KIND, ID]]]`.
pub open spec fn spec_set_of_one(kind: Seq<char>, id: Seq<char>) -> JsonData {
    JsonData::Array(seq![jstr("set"@), JsonData::Array(seq![spec_uuid_ref(kind, id)])])
}

/// The mutations list `[[COLUMN, MUTATOR, VALUE]]`.
pub open spec fn spec_mutations(column: Seq<char>, mutator: Seq<char>, value: JsonData) -> JsonData {
    JsonData::Array(seq![JsonData::Array(seq![jstr(column), jstr(mutator), value])])
}

/// An `update` of the row with the given UUID in `table`, setting the columns of `row`.
pub open spec fn spec_update_op(table: Seq<char>, uuid: Seq<char>, row: JsonData) -> JsonData {
    JsonData::Object(
        seq![
            ("op"@, jstr("update"@)),
            ("table"@, jstr(table)),
            ("where"@, spec_where_uuid(uuid)),
            ("row"@, row),
        ],
    )
}

/// An `insert` of `row` into `table`, naming the new row `uuid_name` for the rest of
/// the transaction.
pub open spec fn spec_insert_named_op(table: Seq<char>, row: JsonData, uuid_name: Seq<char>) -> JsonData {
    JsonData::Object(
        seq![
            ("op"@, jstr("insert"@)),
            ("table"@, jstr(table)),
            ("row"@, row),
            ("uuid-name"@, jstr(uuid_name)),
        ],
    )
}

/// A `mutate` of the row with the given UUID in `table`.
pub open spec fn spec_mutate_op(table: Seq<char>, uuid: Seq<char>, mutations: JsonData) -> JsonData {
    JsonData::Object(
        seq![
            ("op"@, jstr("mutate"@)),
            ("table"@, jstr(table)),
            ("where"@, spec_where_uuid(uuid)),
            ("mutations"@, mutations),
        ],
    )
}

/// `[KIND, ID]`.
pub fn uuid_ref(kind: &str, id: &str) -> (r: JsonValue)
    ensures
        r@ == spec_uuid_ref(kind@, id@),
{
    json_array2(json_str(kind), json_str(id))
}

/// `[["_uuid", "==", ["uuid", UUID]]]`.
pub fn where_uuid(uuid: &str) -> (r: JsonValue)
    ensures
        r@ == spec_where_uuid(uuid@),
{
    json_array1(json_array3(json_str("_uuid"), json_str("=="), uuid_ref("uuid", uuid)))
}

/// `["set", [[KIND, ID]]]`.
pub fn set_of_one(kind: &str, id: &str) -> (r: JsonValue)
    ensures
        r@ == spec_set_of_one(kind@, id@),
{
    json_array2(json_str("set"), json_array1(uuid_ref(kind, id)))
}

/// `[[COLUMN, MUTATOR, VALUE]]`.
pub fn mutations(column: &str, mutator: &str, value: JsonValue) -> (r: JsonValue)
    ensures
        r@ == spec_mutations(column@, mutator@, value@),
{
    json_array1(json_array3(json_str(column), json_str(mutator), value))
}

/// The object with four entries, in the given order.
pub fn object4(e0: JsonEntry, e1: JsonEntry, e2: JsonEntry, e3: JsonEntry) -> (r: JsonValue)
    ensures
        r@ == JsonData::Object(
            seq![
                (e0.key@, e0.value@),
                (e1.key@, e1.value@),
                (e2.key@, e2.value@),
                (e3.key@, e3.value@),
            ],
        ),
{
    let ghost expected = seq![
        (e0.key@, e0.value@),
        (e1.key@, e1.value@),
        (e2.key@, e2.value@),
        (e3.key@, e3.value@),
    ];
    let v = vec![e0, e1, e2, e3];
    assert(entries_view(v@) =~= expected);
    json_object(v)
}

/// The object with three entries, in the given order.
pub fn object3(e0: JsonEntry, e1: JsonEntry, e2: JsonEntry) -> (r: JsonValue)
    ensures
        r@ == JsonData::Object(seq![(e0.key@, e0.value@), (e1.key@, e1.value@), (e2.key@, e2.value@)]),
{
    let ghost expected = seq![(e0.key@, e0.value@), (e1.key@, e1.value@), (e2.key@, e2.value@)];
    let v = vec![e0, e1, e2];
    assert(entries_view(v@) =~= expected);
    json_object(v)
}

/// The object with one entry.
pub fn object1(e0: JsonEntry) -> (r: JsonValue)
    ensures
        r@ == JsonData::Object(seq![(e0.key@, e0.value@)]),
{
    let ghost expected = seq![(e0.key@, e0.value@)];
    let v = vec![e0];
    assert(entries_view(v@) =~= expected);
    json_object(v)
}

/// An `update` of the row with the given UUID in `table`.
pub fn update_op(table: &str, uuid: &str, row: JsonValue) -> (r: JsonValue)
    ensures
        r@ == spec_update_op(table@, uuid@, row@),
{
    object4(
        json_entry("op", json_str("update")),
        json_entry("table", json_str(table)),
        json_entry("where", where_uuid(uuid)),
        json_entry("row", row),
    )
}

/// An `insert` of `row` into `table` under the name `uuid_name`.
pub fn insert_named_op(table: &str, row: JsonValue, uuid_name: &str) -> (r: JsonValue)
    ensures
        r@ == spec_insert_named_op(table@, row@, uuid_name@),
{
    object4(
        json_entry("op", json_str("insert")),
        json_entry("table", json_str(table)),
        json_entry("row", row),
        json_entry("uuid-name", json_str(uuid_name)),
    )
}

/// A `mutate` of the row with the given UUID in `table`.
pub fn mutate_op(table: &str, uuid: &str, mutations: JsonValue) -> (r: JsonValue)
    ensures
        r@ == spec_mutate_op(table@, uuid@, mutations@),
{
    object4(
        json_entry("op", json_str("mutate")),
        json_entry("table", json_str(table)),
        json_entry("where", where_uuid(uuid)),
        json_entry("mutations", mutations),
    )
}

/// The string member `key` of an operation, such as its "op" or its "table".
pub open spec fn op_string(op: JsonData, key: Seq<char>) -> Option<Seq<char>> {
    match json_member(op, key) {
        Some(JsonData::Str(s)) => Some(s),
        _ => None,
    }
}

/// The UUID of the row that an operation's condition `[["_uuid", "==", ["uuid", UUID]]]`
/// selects.
pub open spec fn selected_uuid(op: JsonData) -> Option<Seq<char>> {
    match json_member(op, "where"@) {
        Some(JsonData::Array(conditions)) => if conditions.len() == 1 {
            match conditions[0] {
                JsonData::Array(c) => if c.len() == 3 && c[0] == JsonData::Str("_uuid"@) && c[1]
                    == JsonData::Str("=="@) {
                    match c[2] {
                        JsonData::Array(r) => if r.len() == 2 && r[0] == JsonData::Str("uuid"@) {
                            match r[1] {
                                JsonData::Str(u) => Some(u),
                                _ => None,
                            }
                        } else {
                            None
                        },
                        _ => None,
                    }
                } else {
                    None
                },
                _ => None,
            }
        } else {
            None
        },
        _ => None,
    }
}

/// The string that an operation writes to column `column` of its row.
pub open spec fn written_string(op: JsonData, column: Seq<char>) -> Option<Seq<char>> {
    match json_member(op, "row"@) {
        Some(row) => match json_member(row, column) {
            Some(JsonData::Str(s)) => Some(s),
            _ => None,
        },
        None => None,
    }
}

/// What an `update` operation of `table` says: it updates the row `uuid` of that table.
pub proof fn lemma_update_op_targets(table: Seq<char>, uuid: Seq<char>, row: JsonData)
    ensures
        op_string(spec_update_op(table, uuid, row), "op"@) == Some("update"@),
        op_string(spec_update_op(table, uuid, row), "table"@) == Some(table),
        selected_uuid(spec_update_op(table, uuid, row)) == Some(uuid),
        json_member(spec_update_op(table, uuid, row), "row"@) == Some(row),
{
    reveal_strlit("op");
    reveal_strlit("table");
    reveal_strlit("where");
    reveal_strlit("row");
    let e0 = ("op"@, jstr("update"@));
    let e1 = ("table"@, jstr(table));
    let e2 = ("where"@, spec_where_uuid(uuid));
    let e3 = ("row"@, row);
    crate::json::lemma_lookup4(e0, e1, e2, e3, "op"@);
    crate::json::lemma_lookup4(e0, e1, e2, e3, "table"@);
    crate::json::lemma_lookup4(e0, e1, e2, e3, "where"@);
    crate::json::lemma_lookup4(e0, e1, e2, e3, "row"@);
    assert("op"@ != "table"@ && "op"@ != "where"@ && "table"@ != "where"@ && "op"@ != "row"@
        && "table"@ != "row"@ && "where"@ != "row"@) by {
        assert("op"@.len() == 2 && "table"@.len() == 5 && "where"@.len() == 5 && "row"@.len() == 3);
        assert("table"@[0] != "where"@[0]);
    }
    let w = spec_where_uuid(uuid);
    assert(json_member(spec_update_op(table, uuid, row), "where"@) == Some(w));
    reveal_strlit("_uuid");
    reveal_strlit("==");
    reveal_strlit("uuid");
}

/// The references that a mutations list adds to column `column`: the elements of the
/// set in its first mutation, `[COLUMN, "insert", ["set", [REF, ...]]]`.
pub open spec fn mutation_refs(mutations: JsonData, column: Seq<char>) -> Seq<JsonData> {
    match mutations {
        JsonData::Array(ms) => if ms.len() >= 1 {
            match ms[0] {
                JsonData::Array(m) => if m.len() == 3 && m[0] == JsonData::Str(column) && m[1] == JsonData::Str(
                    "insert"@,
                ) {
                    match m[2] {
                        JsonData::Array(set) => if set.len() == 2 && set[0] == JsonData::Str("set"@) {
                            match set[1] {
                                JsonData::Array(refs) => refs,
                                _ => Seq::empty(),
                            }
                        } else {
                            Seq::empty()
                        },
                        _ => Seq::empty(),
                    }
                } else {
                    Seq::empty()
                },
                _ => Seq::empty(),
            }
        } else {
            Seq::empty()
        },
        _ => Seq::empty(),
    }
}

/// The references that a `mutate` operation adds to column `column`.
pub open spec fn inserted_refs(op: JsonData, column: Seq<char>) -> Seq<JsonData> {
    match json_member(op, "mutations"@) {
        Some(m) => mutation_refs(m, column),
        None => Seq::empty(),
    }
}

/// What an `insert` operation says: it inserts `row` into `table` under the name
/// `uuid_name`.
pub proof fn lemma_insert_named_op_parts(table: Seq<char>, row: JsonData, uuid_name: Seq<char>)
    ensures
        op_string(spec_insert_named_op(table, row, uuid_name), "op"@) == Some("insert"@),
        op_string(spec_insert_named_op(table, row, uuid_name), "table"@) == Some(table),
        json_member(spec_insert_named_op(table, row, uuid_name), "row"@) == Some(row),
        op_string(spec_insert_named_op(table, row, uuid_name), "uuid-name"@) == Some(uuid_name),
{
    reveal_strlit("op");
    reveal_strlit("table");
    reveal_strlit("row");
    reveal_strlit("uuid-name");
    let e0 = ("op"@, jstr("insert"@));
    let e1 = ("table"@, jstr(table));
    let e2 = ("row"@, row);
    let e3 = ("uuid-name"@, jstr(uuid_name));
    crate::json::lemma_lookup4(e0, e1, e2, e3, "op"@);
    crate::json::lemma_lookup4(e0, e1, e2, e3, "table"@);
    crate::json::lemma_lookup4(e0, e1, e2, e3, "row"@);
    crate::json::lemma_lookup4(e0, e1, e2, e3, "uuid-name"@);
    assert("op"@.len() == 2 && "table"@.len() == 5 && "row"@.len() == 3 && "uuid-name"@.len() == 9);
}

/// What a `mutate` operation of `table` says: it mutates the row `uuid` of that table
/// with `mutations`.
pub proof fn lemma_mutate_op_targets(table: Seq<char>, uuid: Seq<char>, mutations: JsonData)
    ensures
        op_string(spec_mutate_op(table, uuid, mutations), "op"@) == Some("mutate"@),
        op_string(spec_mutate_op(table, uuid, mutations), "table"@) == Some(table),
        selected_uuid(spec_mutate_op(table, uuid, mutations)) == Some(uuid),
        json_member(spec_mutate_op(table, uuid, mutations), "mutations"@) == Some(mutations),
{
    reveal_strlit("op");
    reveal_strlit("table");
    reveal_strlit("where");
    reveal_strlit("mutations");
    reveal_strlit("_uuid");
    reveal_strlit("==");
    reveal_strlit("uuid");
    let e0 = ("op"@, jstr("mutate"@));
    let e1 = ("table"@, jstr(table));
    let e2 = ("where"@, spec_where_uuid(uuid));
    let e3 = ("mutations"@, mutations);
    crate::json::lemma_lookup4(e0, e1, e2, e3, "op"@);
    crate::json::lemma_lookup4(e0, e1, e2, e3, "table"@);
    crate::json::lemma_lookup4(e0, e1, e2, e3, "where"@);
    crate::json::lemma_lookup4(e0, e1, e2, e3, "mutations"@);
    assert("op"@.len() == 2 && "table"@.len() == 5 && "where"@.len() == 5 && "mutations"@.len() == 9);
    assert("table"@[0] != "where"@[0]);
}

/// A mutation that inserts a one-reference set into `column` adds that reference.
pub proof fn lemma_mutations_insert_one(column: Seq<char>, kind: Seq<char>, id: Seq<char>)
    ensures
        mutation_refs(spec_mutations(column, "insert"@, spec_set_of_one(kind, id)), column) == seq![
            spec_uuid_ref(kind, id),
        ],
{
}

} // verus!
