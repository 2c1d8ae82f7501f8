//! Reading the columns of OVN database rows.
use vstd::prelude::*;

use crate::errors::Error;
use crate::json::{
    entries_view, object_get, object_lookup, values_view, JsonData, JsonEntry, JsonValue,
};
use crate::text::{str_equal, string_views};

verus! {

broadcast use crate::json::data::group_json_view;

/// The value of column `field` of a row, when it is a string.
pub open spec fn spec_row_string(row: Seq<(Seq<char>, JsonData)>, field: Seq<char>) -> Option<
    Seq<char>,
> {
    match object_lookup(row, field) {
        Some(JsonData::Str(s)) => Some(s),
        _ => None,
    }
}

/// The UUID of a row: the second item of its `_uuid` column, `["uuid", UUID]`.
pub open spec fn spec_row_uuid(row: Seq<(Seq<char>, JsonData)>) -> Option<Seq<char>> {
    match object_lookup(row, "_uuid"@) {
        Some(JsonData::Array(a)) => if a.len() > 1 {
            match a[1] {
                JsonData::Str(s) => Some(s),
                _ => None,
            }
        } else {
            None
        },
        _ => None,
    }
}

/// The members of a row, which must be an object.
pub fn deserialize_object(value: &JsonValue) -> (r: Result<&Vec<JsonEntry>, Error>)
    ensures
        match r {
            Ok(o) => value@ == JsonData::Object(entries_view(o@)),
            Err(e) => !(value@ is Object) && e is OvnDeserializationFailed,
        },
{
    match value.as_object() {
        Some(o) => Ok(o),
        None => Err(Error::OvnDeserializationFailed),
    }
}

/// The UUID of a row.
pub fn deserialize_uuid(object: &Vec<JsonEntry>) -> (r: Result<String, Error>)
    ensures
        match r {
            Ok(s) => spec_row_uuid(entries_view(object@)) == Some(s@),
            Err(e) => spec_row_uuid(entries_view(object@)) is None && e is OvnDeserializationFailed,
        },
{
    match object_get(object, "_uuid") {
        Some(v) => match v.as_array() {
            Some(a) => {
                if a.len() > 1 {
                    assert(values_view(a@)[1] == a@[1]@);
                    match a[1].as_str() {
                        Some(s) => Ok(s.clone()),
                        None => Err(Error::OvnDeserializationFailed),
                    }
                } else {
                    Err(Error::OvnDeserializationFailed)
                }
            },
            None => Err(Error::OvnDeserializationFailed),
        },
        None => Err(Error::OvnDeserializationFailed),
    }
}

/// The value of string column `field` of a row.
pub fn deserialize_string(object: &Vec<JsonEntry>, field: &str) -> (r: Result<String, Error>)
    ensures
        match r {
            Ok(s) => spec_row_string(entries_view(object@), field@) == Some(s@),
            Err(e) => spec_row_string(entries_view(object@), field@) is None
                && e is OvnDeserializationFailed,
        },
{
    match object_get(object, field) {
        Some(v) => match v.as_str() {
            Some(s) => Ok(s.clone()),
            None => Err(Error::OvnDeserializationFailed),
        },
        None => Err(Error::OvnDeserializationFailed),
    }
}

/// The tag of an OVSDB set value: its first item when that is a string, else "unknown".
pub open spec fn set_subtype(set: Seq<JsonData>) -> Seq<char> {
    if set.len() > 0 && set[0] is Str {
        set[0]->Str_0
    } else {
        "unknown"@
    }
}

/// An element `["uuid", UUID]` of a set.
pub open spec fn is_uuid_element(e: JsonData) -> bool {
    &&& e is Array
    &&& e->Array_0.len() > 1
    &&& e->Array_0[0] == JsonData::Str("uuid"@)
    &&& e->Array_0[1] is Str
}

/// A column value of the form `["uuid", UUID]` or `["set", [["uuid", UUID], ...]]`.
pub open spec fn is_uuid_set(set: Seq<JsonData>) -> bool {
    ||| set_subtype(set) == "uuid"@ && set.len() > 1 && set[1] is Str
    ||| set_subtype(set) == "set"@ && set.len() > 1 && set[1] is Array && forall|i: int|
        0 <= i < set[1]->Array_0.len() ==> is_uuid_element(#[trigger] set[1]->Array_0[i])
}

/// The UUIDs of a sequence of `["uuid", UUID]` elements.
pub open spec fn element_uuids(elements: Seq<JsonData>) -> Seq<Seq<char>> {
    elements.map_values(|e: JsonData| e->Array_0[1]->Str_0)
}

/// The UUIDs that a well-formed set holds, in order.
pub open spec fn uuid_set_members(set: Seq<JsonData>) -> Seq<Seq<char>> {
    if set_subtype(set) == "uuid"@ {
        seq![set[1]->Str_0]
    } else {
        element_uuids(set[1]->Array_0)
    }
}

/// Column `field` of a row holds a set of UUIDs in one of the two forms; a column that
/// is missing or not an array is no such set but a deserialization failure.
pub open spec fn uuid_set_column_well_formed(row: Seq<(Seq<char>, JsonData)>, field: Seq<char>) -> bool {
    match object_lookup(row, field) {
        Some(JsonData::Array(set)) => is_uuid_set(set),
        _ => true,
    }
}

/// The UUIDs in column `field` of a row.
pub open spec fn spec_row_uuid_set(row: Seq<(Seq<char>, JsonData)>, field: Seq<char>) -> Option<
    Seq<Seq<char>>,
> {
    match object_lookup(row, field) {
        Some(JsonData::Array(set)) => Some(uuid_set_members(set)),
        _ => None,
    }
}

/// Whether an element of a set is `["uuid", UUID]`.
fn uuid_element_is_ok(e: &JsonValue) -> (r: bool)
    ensures
        r == is_uuid_element(e@),
{
    match e.as_array() {
        Some(a) => {
            if a.len() < 2 {
                return false;
            }
            assert(values_view(a@)[0] == a@[0]@);
            assert(values_view(a@)[1] == a@[1]@);
            let tagged = match a[0].as_str() {
                Some(s) => str_equal(s.as_str(), "uuid"),
                None => false,
            };
            tagged && a[1].as_str().is_some()
        },
        None => false,
    }
}

/// Whether column `field` of a row holds a set of UUIDs in one of the two forms, as
/// `deserialize_uuid_set` needs.
#[verifier::loop_isolation(false)]
pub fn uuid_set_column_is_well_formed(object: &Vec<JsonEntry>, field: &str) -> (r: bool)
    ensures
        r == uuid_set_column_well_formed(entries_view(object@), field@),
{
    let set = match object_get(object, field) {
        Some(v) => match v.as_array() {
            Some(a) => a,
            None => {
                return true;
            },
        },
        None => {
            return true;
        },
    };
    let ghost sv = values_view(set@);
    assert(object_lookup(entries_view(object@), field@) == Some(JsonData::Array(sv)));
    proof {
        reveal_strlit("uuid");
        reveal_strlit("unknown");
        reveal_strlit("set");
    }
    if set.len() < 2 {
        if set.len() > 0 {
            assert(sv[0] == set@[0]@);
        }
        return false;
    }
    assert(sv[0] == set@[0]@);
    assert(sv[1] == set@[1]@);
    let mut is_uuid = false;
    let mut is_set = false;
    match set[0].as_str() {
        Some(s) => {
            is_uuid = str_equal(s.as_str(), "uuid");
            is_set = str_equal(s.as_str(), "set");
            assert(set_subtype(sv) == s@);
        },
        None => {
            assert(set_subtype(sv) == "unknown"@);
        },
    }
    assert(set_subtype(sv) == "uuid"@ <==> is_uuid);
    assert(set_subtype(sv) == "set"@ <==> is_set);
    if is_uuid {
        return set[1].as_str().is_some();
    }
    if !is_set {
        return false;
    }
    match set[1].as_array() {
        Some(elements) => {
            let mut i: usize = 0;
            while i < elements.len()
                invariant
                    i <= elements.len(),
                    sv[1] == JsonData::Array(values_view(elements@)),
                    forall|j: int| 0 <= j < i ==> is_uuid_element(#[trigger] values_view(elements@)[j]),
                decreases elements.len() - i,
            {
                assert(values_view(elements@)[i as int] == elements@[i as int]@);
                if !uuid_element_is_ok(&elements[i]) {
                    assert(!is_uuid_element(sv[1]->Array_0[i as int]));
                    return false;
                }
                i = i + 1;
            }
            true
        },
        None => false,
    }
}

/// The UUIDs in column `field` of a row, which holds either a single `["uuid", UUID]`
/// or a `["set", [...]]` of them.
pub fn deserialize_uuid_set(object: &Vec<JsonEntry>, field: &str) -> (r: Result<Vec<String>, Error>)
    requires
        uuid_set_column_well_formed(entries_view(object@), field@),
    ensures
        match r {
            Ok(v) => spec_row_uuid_set(entries_view(object@), field@) == Some(string_views(v@)),
            Err(e) => spec_row_uuid_set(entries_view(object@), field@) is None
                && e is OvnDeserializationFailed,
        },
{
    let value = match object_get(object, field) {
        Some(v) => v,
        None => {
            return Err(Error::OvnDeserializationFailed);
        },
    };
    let set = match value.as_array() {
        Some(a) => a,
        None => {
            return Err(Error::OvnDeserializationFailed);
        },
    };
    let ghost sv = values_view(set@);
    assert(sv.len() == set@.len());
    assert(is_uuid_set(sv));
    let mut is_uuid = false;
    if set.len() > 0 {
        assert(sv[0] == set@[0]@);
        match set[0].as_str() {
            Some(s) => {
                is_uuid = str_equal(s.as_str(), "uuid");
                assert(set_subtype(sv) == s@);
            },
            None => {
                assert(set_subtype(sv) == "unknown"@);
            },
        }
    } else {
        assert(set_subtype(sv) == "unknown"@);
    }
    proof {
        reveal_strlit("uuid");
        reveal_strlit("unknown");
        reveal_strlit("set");
        assert(is_uuid == (set_subtype(sv) == "uuid"@));
    }
    if is_uuid {
        assert(sv[1] == set@[1]@);
        let s = set[1].as_str().unwrap();
        let mut out: Vec<String> = Vec::new();
        out.push(s.clone());
        assert(string_views(out@) =~= uuid_set_members(sv));
        return Ok(out);
    }
    proof {
        reveal_strlit("set");
        reveal_strlit("uuid");
        reveal_strlit("unknown");
        assert(set_subtype(sv) == "set"@);
        assert(sv[1] == set@[1]@);
    }
    let elements = set[1].as_array().unwrap();
    let ghost ev = values_view(elements@);
    let mut out: Vec<String> = Vec::new();
    let mut i: usize = 0;
    while i < elements.len()
        invariant
            i <= elements.len(),
            ev == values_view(elements@),
            sv[1] == JsonData::Array(ev),
            is_uuid_set(sv),
            string_views(out@) == element_uuids(ev.take(i as int)),
        decreases elements.len() - i,
    {
        assert(ev[i as int] == elements@[i as int]@);
        assert(sv[1]->Array_0 == ev);
        assert(is_uuid_element(sv[1]->Array_0[i as int]));
        let item = elements[i].as_array().unwrap();
        assert(values_view(item@)[1] == item@[1]@);
        let uuid = item[1].as_str().unwrap();
        let ghost old_out = string_views(out@);
        out.push(uuid.clone());
        assert(string_views(out@) =~= old_out.push(uuid@));
        assert(ev[i as int]->Array_0 == values_view(item@));
        assert(ev[i as int]->Array_0[1]->Str_0 == uuid@);
        assert(element_uuids(ev.take(i + 1))[i as int] == uuid@);
        assert(element_uuids(ev.take(i + 1)) =~= element_uuids(ev.take(i as int)).push(uuid@));
        i = i + 1;
    }
    assert(ev.take(elements.len() as int) =~= ev);
    Ok(out)
}

} // verus!
