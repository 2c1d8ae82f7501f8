//! JSON-RPC messages exchanged with the OVSDB server.
use vstd::prelude::*;

use crate::json::{entries_view, json_equal, values_view, JsonData, JsonEntry, JsonNumber, JsonValue};

verus! {

broadcast use crate::json::data::group_json_view;

/// The parameters of a request: positional or named.
#[derive(Debug)]
pub enum Params {
    ByPosition(Vec<JsonValue>),
    ByName(Vec<JsonEntry>),
}

/// The parameters as the JSON value they are sent as.
pub open spec fn params_view(p: Params) -> JsonData {
    match p {
        Params::ByPosition(v) => JsonData::Array(values_view(v@)),
        Params::ByName(e) => JsonData::Object(entries_view(e@)),
    }
}

impl Params {
    /// The parameters that a JSON array or object stands for.
    pub fn from_json(json: JsonValue) -> (r: Params)
        requires
            json@ is Array || json@ is Object,
        ensures
            params_view(r) == json@,
            json@ is Array <==> r is ByPosition,
    {
        match json {
            JsonValue::Array(params) => Params::ByPosition(params),
            JsonValue::Object(params) => Params::ByName(params),
            _ => Params::ByPosition(Vec::new()),
        }
    }
}

/// A JSON-RPC message: a request, or the response to the request with the same id.
#[derive(Debug)]
pub enum Message {
    Request { id: JsonValue, method: String, params: Params },
    Response { id: JsonValue, result: JsonValue, error: JsonValue },
}

/// The request with id `id` that calls `method` with `params`.
pub fn request_message(id: u64, method: &str, params: Params) -> (r: Message)
    ensures
        r matches Message::Request { id: i, method: m, params: p } && i@ == JsonData::Number(
            crate::json::NumberData::PosInt(id),
        ) && m@ == method@ && params_view(p) == params_view(params),
{
    Message::Request { id: JsonValue::Number(JsonNumber::PosInt(id)), method: method.to_owned(), params }
}

/// The message is the response to the request with id `request_id`.
pub open spec fn spec_answers(message: Message, request_id: JsonData) -> bool {
    message matches Message::Response { id, .. } && id@ == request_id
}

/// Whether `message` is the response to the request with id `request_id`; requests from
/// the server and responses to other requests are not.
pub fn answers(message: &Message, request_id: &JsonValue) -> (r: bool)
    ensures
        r == spec_answers(*message, request_id@),
{
    match message {
        Message::Request { .. } => false,
        Message::Response { id, .. } => json_equal(id, request_id),
    }
}

/// The id that a connection gives its next request, and the counter after it.
pub fn next_id(counter: &mut u64) -> (r: u64)
    requires
        *old(counter) < u64::MAX,
    ensures
        r == *old(counter),
        *final(counter) == *old(counter) + 1,
{
    let current = *counter;
    *counter = current + 1;
    current
}

} // verus!
