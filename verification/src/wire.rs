//! The boundary to the JSON wire format. Parsing and rendering are done by
//! `serde_json`; everything on this side of the call works on the library's
//! own value tree.
use vstd::prelude::*;
use crate::json::{Json, JVal, jval, spec_obj_get, obj_get, as_str};
use crate::protocol::{JsonRpcRequest, JsonRpcResponse, RequestModel, spec_response_jval};

verus! {

#[verifier::external_type_specification]
#[verifier::external_body]
pub struct ExValue(serde_json::Value);

/// What `serde_json` parsing yields for a given text: `None` where the text
/// is not valid JSON, otherwise the parsed value. Parsing depends on the text
/// alone.
pub uninterp spec fn spec_parse_json(s: Seq<char>) -> Option<JVal>;

/// What `serde_json::to_string` produces for a given value. The rendering
/// depends on the value alone.
pub uninterp spec fn spec_render_json(v: JVal) -> Seq<char>;

/// What `serde_json::to_string_pretty` produces for a given value. The
/// rendering depends on the value alone.
pub uninterp spec fn spec_render_json_pretty(v: JVal) -> Seq<char>;

/// Relies on serde_json::Value: moves each variant to the matching variant of
/// the library's value tree; numbers that fit `i64` stay integers, any other
/// number keeps its decimal text.
#[verifier::external_body]
fn json_of_value(v: serde_json::Value) -> Json {
    match v {
        serde_json::Value::Null => Json::Null,
        serde_json::Value::Bool(b) => Json::Bool(b),
        serde_json::Value::Number(n) => match n.as_i64() {
            Some(i) => Json::Int(i),
            None => Json::Num(n.to_string()),
        },
        serde_json::Value::String(s) => Json::Str(s),
        serde_json::Value::Array(a) => Json::Arr(a.into_iter().map(json_of_value).collect()),
        serde_json::Value::Object(m) => Json::Obj(
            m.into_iter().map(|(k, x)| (k, json_of_value(x))).collect(),
        ),
    }
}

/// Relies on serde_json::Value: moves each variant of the library's value
/// tree to the matching `serde_json` variant; numeric text parses back to a
/// number, or becomes JSON null where it is not numeric.
#[verifier::external_body]
fn value_of_json(v: &Json) -> serde_json::Value {
    match v {
        Json::Null => serde_json::Value::Null,
        Json::Bool(b) => serde_json::Value::Bool(*b),
        Json::Int(i) => serde_json::Value::from(*i),
        Json::Num(s) => serde_json::from_str::<serde_json::Number>(s).map(
            serde_json::Value::Number,
        ).unwrap_or(serde_json::Value::Null),
        Json::Str(s) => serde_json::Value::String(s.clone()),
        Json::Arr(a) => serde_json::Value::Array(a.iter().map(value_of_json).collect()),
        Json::Obj(f) => serde_json::Value::Object(
            f.iter().map(|(k, x)| (k.clone(), value_of_json(x))).collect(),
        ),
    }
}

/// Relies on serde_json::from_str::<serde_json::Value>: returns the parsed
/// value for valid JSON text and `None` otherwise; the result depends on the
/// text alone.
#[verifier::external_body]
pub fn parse_json(s: &str) -> (r: Option<Json>)
    ensures
        match r {
            Some(v) => spec_parse_json(s@) == Some(jval(v)),
            None => spec_parse_json(s@) is None,
        },
{
    match serde_json::from_str::<serde_json::Value>(s) {
        Ok(v) => Some(json_of_value(v)),
        Err(_) => None,
    }
}

/// Relies on serde_json::to_string: one line of JSON text for the value; the
/// result depends on the value alone.
#[verifier::external_body]
pub fn render_json(v: &Json) -> (r: String)
    ensures
        r@ == spec_render_json(jval(*v)),
{
    serde_json::to_string(&value_of_json(v)).unwrap_or_default()
}

/// Relies on serde_json::to_string_pretty: indented JSON text for the value;
/// the result depends on the value alone.
#[verifier::external_body]
pub fn render_json_pretty(v: &Json) -> (r: String)
    ensures
        r@ == spec_render_json_pretty(jval(*v)),
{
    serde_json::to_string_pretty(&value_of_json(v)).unwrap_or_default()
}

/// The request a JSON value decodes to: the `jsonrpc` and `method` members
/// must be strings; `id` and `params` are kept when present and not null.
pub open spec fn spec_request_of(v: JVal) -> Option<RequestModel> {
    match spec_obj_get(v, "jsonrpc"@) {
        Some(JVal::Str(ver)) => match spec_obj_get(v, "method"@) {
            Some(JVal::Str(m)) => Some(
                RequestModel {
                    jsonrpc: ver,
                    method: m,
                    id: match spec_obj_get(v, "id"@) {
                        Some(JVal::Null) => None,
                        Some(x) => Some(x),
                        None => None,
                    },
                    params: match spec_obj_get(v, "params"@) {
                        Some(JVal::Null) => None,
                        Some(x) => Some(x),
                        None => None,
                    },
                },
            ),
            _ => None,
        },
        _ => None,
    }
}

/// Decodes a JSON value into a request, exactly as `spec_request_of` states.
pub fn request_of_json(v: &Json) -> (r: Option<JsonRpcRequest>)
    ensures
        match r {
            Some(req) => spec_request_of(jval(*v)) == Some(req.model()),
            None => spec_request_of(jval(*v)) is None,
        },
{
    let ver: String = match obj_get(v, "jsonrpc") {
        Some(x) => match as_str(x) {
            Some(s) => s.clone(),
            None => {
                return None;
            },
        },
        None => {
            return None;
        },
    };
    let method: String = match obj_get(v, "method") {
        Some(x) => match as_str(x) {
            Some(s) => s.clone(),
            None => {
                return None;
            },
        },
        None => {
            return None;
        },
    };
    let id: Option<Json> = match obj_get(v, "id") {
        Some(x) => match x {
            Json::Null => None,
            _ => Some(x.duplicate()),
        },
        None => None,
    };
    let params: Option<Json> = match obj_get(v, "params") {
        Some(x) => match x {
            Json::Null => None,
            _ => Some(x.duplicate()),
        },
        None => None,
    };
    Some(JsonRpcRequest { jsonrpc: ver, id, method, params })
}

/// What one line of input decodes to: nothing for text that is not JSON, and
/// nothing for JSON that is not a request envelope.
pub open spec fn spec_parse_request(s: Seq<char>) -> Option<RequestModel> {
    match spec_parse_json(s) {
        Some(v) => spec_request_of(v),
        None => None,
    }
}

/// Parses one line of input into a request, exactly as `spec_parse_request`
/// states.
pub fn parse_request(s: &str) -> (r: Option<JsonRpcRequest>)
    ensures
        match r {
            Some(req) => spec_parse_request(s@) == Some(req.model()),
            None => spec_parse_request(s@) is None,
        },
{
    match parse_json(s) {
        Some(v) => request_of_json(&v),
        None => None,
    }
}

/// Renders a response as one line of JSON text: the exact JSON shape of the
/// response, rendered as `spec_render_json` states.
pub fn render_response(resp: &JsonRpcResponse) -> (r: String)
    ensures
        r@ == spec_render_json(spec_response_jval(resp.model())),
{
    let tree = crate::protocol::response_to_json(resp);
    render_json(&tree)
}

} // verus!
