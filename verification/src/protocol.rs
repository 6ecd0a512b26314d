//! The JSON-RPC envelope: requests, responses, errors, and their exact JSON
//! shape on the wire.
use vstd::prelude::*;
use crate::json::{Json, JVal, jval, jval_fields};

verus! {

/// One decoded JSON-RPC request. A request whose `id` is absent (or was JSON
/// null) is a notification and must never produce a reply.
pub struct JsonRpcRequest {
    pub jsonrpc: String,
    pub id: Option<Json>,
    pub method: String,
    pub params: Option<Json>,
}

/// The model of a request.
pub struct RequestModel {
    pub jsonrpc: Seq<char>,
    pub id: Option<JVal>,
    pub method: Seq<char>,
    pub params: Option<JVal>,
}

impl JsonRpcRequest {
    pub open spec fn model(&self) -> RequestModel {
        RequestModel {
            jsonrpc: self.jsonrpc@,
            id: match self.id {
                Some(v) => Some(jval(v)),
                None => None,
            },
            method: self.method@,
            params: match self.params {
                Some(v) => Some(jval(v)),
                None => None,
            },
        }
    }

    /// A request with no `id` is a notification.
    pub open spec fn spec_is_notification(&self) -> bool {
        self.id is None
    }
}

/// A JSON-RPC error object.
pub struct JsonRpcError {
    pub code: i32,
    pub message: String,
    pub data: Option<Json>,
}

/// The model of an error object.
pub struct ErrorModel {
    pub code: int,
    pub message: Seq<char>,
    pub data: Option<JVal>,
}

impl JsonRpcError {
    pub open spec fn model(&self) -> ErrorModel {
        ErrorModel {
            code: self.code as int,
            message: self.message@,
            data: match self.data {
                Some(v) => Some(jval(v)),
                None => None,
            },
        }
    }
}

/// One JSON-RPC response. Exactly one of `result` and `error` is present;
/// `id` echoes the request's `id`, or is JSON null where that was absent.
pub struct JsonRpcResponse {
    pub jsonrpc: String,
    pub id: Json,
    pub result: Option<Json>,
    pub error: Option<JsonRpcError>,
}

/// The model of a response.
pub struct ResponseModel {
    pub jsonrpc: Seq<char>,
    pub id: JVal,
    pub result: Option<JVal>,
    pub error: Option<ErrorModel>,
}

impl JsonRpcResponse {
    pub open spec fn model(&self) -> ResponseModel {
        ResponseModel {
            jsonrpc: self.jsonrpc@,
            id: jval(self.id),
            result: match self.result {
                Some(v) => Some(jval(v)),
                None => None,
            },
            error: match self.error {
                Some(e) => Some(e.model()),
                None => None,
            },
        }
    }

    /// A response in the shape this engine promises: version tag `"2.0"` and
    /// exactly one of `result` / `error`.
    pub open spec fn well_formed(&self) -> bool {
        &&& self.jsonrpc@ == "2.0"@
        &&& (self.result is Some) != (self.error is Some)
    }

    /// A successful response carrying `result`, with the request's `id` or
    /// JSON null where the request had none.
    pub fn success(result: Json, id: Option<Json>) -> (r: Self)
        ensures
            r.jsonrpc@ == "2.0"@,
            r.id == match id {
                Some(v) => v,
                None => Json::Null,
            },
            r.result == Some(result),
            r.error is None,
            r.well_formed(),
    {
        Self {
            jsonrpc: "2.0".to_owned(),
            id: match id {
                Some(v) => v,
                None => Json::Null,
            },
            result: Some(result),
            error: None,
        }
    }

    /// An error response with the given code and message, with the request's
    /// `id` or JSON null where the request had none.
    pub fn error(code: i32, message: &str, id: Option<Json>) -> (r: Self)
        ensures
            r.jsonrpc@ == "2.0"@,
            r.id == match id {
                Some(v) => v,
                None => Json::Null,
            },
            r.result is None,
            r.error matches Some(e) && e.code == code && e.message@ == message@ && e.data is None,
            r.well_formed(),
    {
        Self {
            jsonrpc: "2.0".to_owned(),
            id: match id {
                Some(v) => v,
                None => Json::Null,
            },
            result: None,
            error: Some(
                JsonRpcError { code, message: message.to_owned(), data: None },
            ),
        }
    }
}

/// The server identity announced by the `initialize` handshake.
pub struct ServerInfo {
    pub name: String,
    pub version: String,
}

/// What `initialize` returns: protocol version, capability set, identity.
pub struct McpInitializeResult {
    pub protocol_version: String,
    pub capabilities: Json,
    pub server_info: ServerInfo,
}

/// The JSON shape of an error object: `code`, `message`, and `data` only when
/// present.
pub open spec fn spec_error_jval(e: ErrorModel) -> JVal {
    JVal::Obj(
        seq![("code"@, JVal::Int(e.code as i64)), ("message"@, JVal::Str(e.message))] + match e
            .data {
            Some(d) => seq![("data"@, d)],
            None => Seq::empty(),
        },
    )
}

/// The JSON shape of a response: `jsonrpc`, `id`, then `result` or `error`,
/// each present exactly when the response carries it.
pub open spec fn spec_response_jval(m: ResponseModel) -> JVal {
    JVal::Obj(
        seq![("jsonrpc"@, JVal::Str(m.jsonrpc)), ("id"@, m.id)] + (match m.result {
            Some(v) => seq![("result"@, v)],
            None => Seq::empty(),
        }) + (match m.error {
            Some(e) => seq![("error"@, spec_error_jval(e))],
            None => Seq::empty(),
        }),
    )
}

/// Builds the JSON tree of a response, exactly as `spec_response_jval` states.
pub fn response_to_json(resp: &JsonRpcResponse) -> (r: Json)
    ensures
        jval(r) == spec_response_jval(resp.model()),
{
    let mut fields: Vec<(String, Json)> = Vec::new();
    fields.push(("jsonrpc".to_owned(), Json::Str(resp.jsonrpc.clone())));
    fields.push(("id".to_owned(), resp.id.duplicate()));
    match &resp.result {
        Some(v) => {
            fields.push(("result".to_owned(), v.duplicate()));
        },
        None => {},
    }
    match &resp.error {
        Some(e) => {
            let mut efields: Vec<(String, Json)> = Vec::new();
            efields.push(("code".to_owned(), Json::Int(e.code as i64)));
            efields.push(("message".to_owned(), Json::Str(e.message.clone())));
            match &e.data {
                Some(d) => {
                    efields.push(("data".to_owned(), d.duplicate()));
                },
                None => {},
            }
            proof {
                assert(jval_fields(efields@) =~= spec_error_jval(e.model())->Obj_0);
            }
            fields.push(("error".to_owned(), Json::Obj(efields)));
        },
        None => {},
    }
    proof {
        assert(jval_fields(fields@) =~= spec_response_jval(resp.model())->Obj_0);
    }
    Json::Obj(fields)
}

} // verus!
