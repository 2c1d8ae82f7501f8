//! JSON values and their view.
use vstd::prelude::*;

verus! {

/// A JSON number: an integer that fits in `u64` or `i64`, or any other number in
/// its decimal text.
#[derive(Debug)]
pub enum JsonNumber {
    PosInt(u64),
    NegInt(i64),
    Float(String),
}

/// One member of a JSON object.
#[derive(Debug)]
pub struct JsonEntry {
    pub key: String,
    pub value: JsonValue,
}

/// A JSON value.
#[derive(Debug)]
pub enum JsonValue {
    Null,
    Bool(bool),
    Number(JsonNumber),
    Str(String),
    Array(Vec<JsonValue>),
    Object(Vec<JsonEntry>),
}

/// The view of a JSON number.
pub enum NumberData {
    PosInt(u64),
    NegInt(i64),
    Float(Seq<char>),
}

/// The view of a JSON value: strings as character sequences, arrays and objects as
/// sequences.
pub enum JsonData {
    Null,
    Bool(bool),
    Number(NumberData),
    Str(Seq<char>),
    Array(Seq<JsonData>),
    Object(Seq<(Seq<char>, JsonData)>),
}

pub open spec fn number_view(n: JsonNumber) -> NumberData {
    match n {
        JsonNumber::PosInt(u) => NumberData::PosInt(u),
        JsonNumber::NegInt(i) => NumberData::NegInt(i),
        JsonNumber::Float(s) => NumberData::Float(s@),
    }
}

pub open spec fn json_view(v: JsonValue) -> JsonData
    decreases v,
{
    match v {
        JsonValue::Null => JsonData::Null,
        JsonValue::Bool(b) => JsonData::Bool(b),
        JsonValue::Number(n) => JsonData::Number(number_view(n)),
        JsonValue::Str(s) => JsonData::Str(s@),
        JsonValue::Array(items) => JsonData::Array(
            Seq::new(
                items@.len(),
                |i: int|
                    if 0 <= i < items@.len() {
                        proof {
                            assert(decreases_to!(items => items@[i]));
                        }
                        json_view(items@[i])
                    } else {
                        JsonData::Null
                    },
            ),
        ),
        JsonValue::Object(entries) => JsonData::Object(
            Seq::new(
                entries@.len(),
                |i: int|
                    if 0 <= i < entries@.len() {
                        proof {
                            assert(decreases_to!(entries => entries@[i]));
                        }
                        (entries@[i].key@, json_view(entries@[i].value))
                    } else {
                        (Seq::<char>::empty(), JsonData::Null)
                    },
            ),
        ),
    }
}

impl View for JsonValue {
    type V = JsonData;

    open spec fn view(&self) -> JsonData {
        json_view(*self)
    }
}

/// Views of a sequence of values.
pub open spec fn values_view(v: Seq<JsonValue>) -> Seq<JsonData> {
    v.map_values(|x: JsonValue| x@)
}

/// Views of a sequence of object entries.
pub open spec fn entries_view(v: Seq<JsonEntry>) -> Seq<(Seq<char>, JsonData)> {
    v.map_values(|e: JsonEntry| (e.key@, e.value@))
}

pub broadcast proof fn lemma_array_view(items: Vec<JsonValue>)
    ensures
        #[trigger] json_view(JsonValue::Array(items)) == JsonData::Array(values_view(items@)),
{
    let s = json_view(JsonValue::Array(items))->Array_0;
    assert forall|i: int| 0 <= i < s.len() implies s[i] == values_view(items@)[i] by {}
    assert(s =~= values_view(items@));
}

pub broadcast proof fn lemma_object_view(entries: Vec<JsonEntry>)
    ensures
        #[trigger] json_view(JsonValue::Object(entries)) == JsonData::Object(
            entries_view(entries@),
        ),
{
    let s = json_view(JsonValue::Object(entries))->Object_0;
    assert forall|i: int| 0 <= i < s.len() implies s[i] == entries_view(entries@)[i] by {}
    assert(s =~= entries_view(entries@));
}

pub broadcast group group_json_view {
    lemma_array_view,
    lemma_object_view,
}

} // verus!
