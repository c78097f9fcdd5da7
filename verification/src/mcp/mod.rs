//! The Model Context Protocol: JSON-RPC requests and responses exchanged with tool servers.

use crate::json::{entry_models, jobject, json_model, jstring, JsonModel, JsonValue};
use crate::text::push_str;
use vstd::prelude::*;

verus! {

/// Method names.
pub const INITIALIZE: &'static str = "initialize";

pub const TOOLS_LIST: &'static str = "tools/list";

pub const TOOLS_CALL: &'static str = "tools/call";

pub const RESOURCES_LIST: &'static str = "resources/list";

pub const SHUTDOWN: &'static str = "shutdown";

/// What goes wrong talking to a tool server.
#[derive(Debug, Clone, PartialEq, Eq)]
pub enum MCPError {
    ConnectionFailed(String),
    RequestFailed(String),
    InvalidResponse(String),
    ServerError(String),
    Timeout,
    ToolNotFound(String),
}

impl MCPError {
    /// The error as it is reported.
    pub fn message(&self) -> (r: String)
        ensures
            r@ == match *self {
                MCPError::ConnectionFailed(s) => "Connection failed: "@ + s@,
                MCPError::RequestFailed(s) => "Request failed: "@ + s@,
                MCPError::InvalidResponse(s) => "Invalid response: "@ + s@,
                MCPError::ServerError(s) => "Server error: "@ + s@,
                MCPError::Timeout => "Timeout"@,
                MCPError::ToolNotFound(s) => "Tool not found: "@ + s@,
            },
    {
        let mut r = String::new();
        match self {
            MCPError::ConnectionFailed(s) => {
                push_str(&mut r, "Connection failed: ");
                push_str(&mut r, s.as_str());
            },
            MCPError::RequestFailed(s) => {
                push_str(&mut r, "Request failed: ");
                push_str(&mut r, s.as_str());
            },
            MCPError::InvalidResponse(s) => {
                push_str(&mut r, "Invalid response: ");
                push_str(&mut r, s.as_str());
            },
            MCPError::ServerError(s) => {
                push_str(&mut r, "Server error: ");
                push_str(&mut r, s.as_str());
            },
            MCPError::Timeout => push_str(&mut r, "Timeout"),
            MCPError::ToolNotFound(s) => {
                push_str(&mut r, "Tool not found: ");
                push_str(&mut r, s.as_str());
            },
        }
        r
    }
}

/// A JSON-RPC request.
#[derive(Debug)]
pub struct JSONRPCRequest {
    pub jsonrpc: String,
    pub id: JsonValue,
    pub method: String,
    pub params: Option<JsonValue>,
}

/// A JSON-RPC error object.
#[derive(Debug)]
pub struct JSONRPCError {
    pub code: i32,
    pub message: String,
    pub data: Option<JsonValue>,
}

/// A JSON-RPC response.
#[derive(Debug)]
pub struct JSONRPCResponse {
    pub jsonrpc: String,
    pub id: JsonValue,
    pub result: Option<JsonValue>,
    pub error: Option<JSONRPCError>,
}

/// Builds a request: id 1 and no parameters unless set.
pub struct RequestBuilder {
    pub method: String,
    pub params: Option<JsonValue>,
    pub id: JsonValue,
}

impl RequestBuilder {
    pub fn new(method: &str) -> (b: RequestBuilder)
        ensures
            b.method@ == method@,
            b.params is None,
            json_model(b.id) == JsonModel::Number("1"@),
    {
        RequestBuilder { method: method.to_string(), params: None, id: JsonValue::Number("1".to_string()) }
    }

    pub fn with_params(self, params: JsonValue) -> (b: RequestBuilder)
        ensures
            b.method == self.method,
            b.params == Some(params),
            b.id == self.id,
    {
        RequestBuilder { params: Some(params), ..self }
    }

    pub fn with_id(self, id: JsonValue) -> (b: RequestBuilder)
        ensures
            b.method == self.method,
            b.params == self.params,
            b.id == id,
    {
        RequestBuilder { id, ..self }
    }

    /// The request, in JSON-RPC 2.0.
    pub fn build(self) -> (r: JSONRPCRequest)
        ensures
            r.jsonrpc@ == "2.0"@,
            r.id == self.id,
            r.method == self.method,
            r.params == self.params,
    {
        JSONRPCRequest { jsonrpc: "2.0".to_string(), id: self.id, method: self.method, params: self.params }
    }
}

/// The parameters of the handshake: protocol version, capabilities (roots that report
/// changes, sampling) and the client's name and version.
pub open spec fn initialize_params(name: Seq<char>, version: Seq<char>) -> JsonModel {
    JsonModel::Object(
        seq![
            (
                "capabilities"@,
                JsonModel::Object(
                    seq![
                        ("roots"@, JsonModel::Object(seq![("listChanged"@, JsonModel::Bool(true))])),
                        ("sampling"@, JsonModel::Object(Seq::empty())),
                    ],
                ),
            ),
            (
                "clientInfo"@,
                JsonModel::Object(
                    seq![("name"@, JsonModel::Str(name)), ("version"@, JsonModel::Str(version))],
                ),
            ),
            ("protocolVersion"@, JsonModel::Str("2024-11-05"@)),
        ],
    )
}

fn e(k: &str, v: JsonValue) -> (r: (String, JsonValue))
    ensures
        r.0@ == k@,
        r.1 == v,
{
    (k.to_string(), v)
}

/// The handshake request, with id `"1"`.
pub fn create_initialize_request(client_name: &str, client_version: &str) -> (r: JSONRPCRequest)
    ensures
        r.jsonrpc@ == "2.0"@,
        r.method@ == INITIALIZE@,
        json_model(r.id) == JsonModel::Str("1"@),
        r.params matches Some(p) && json_model(p) == initialize_params(client_name@, client_version@),
{
    let mut roots: Vec<(String, JsonValue)> = Vec::new();
    roots.push(e("listChanged", JsonValue::Bool(true)));
    let roots_v = jobject(roots);
    assert(entry_models(roots@) =~= seq![("listChanged"@, JsonModel::Bool(true))]);
    let sampling: Vec<(String, JsonValue)> = Vec::new();
    let sampling_v = jobject(sampling);
    assert(entry_models(sampling@) =~= Seq::<(Seq<char>, JsonModel)>::empty());
    let mut caps: Vec<(String, JsonValue)> = Vec::new();
    caps.push(e("roots", roots_v));
    caps.push(e("sampling", sampling_v));
    let caps_v = jobject(caps);
    assert(entry_models(caps@) =~= seq![
        ("roots"@, JsonModel::Object(seq![("listChanged"@, JsonModel::Bool(true))])),
        ("sampling"@, JsonModel::Object(Seq::empty())),
    ]);
    let mut info: Vec<(String, JsonValue)> = Vec::new();
    info.push(e("name", jstring(client_name)));
    info.push(e("version", jstring(client_version)));
    let info_v = jobject(info);
    assert(entry_models(info@) =~= seq![("name"@, JsonModel::Str(client_name@)), ("version"@, JsonModel::Str(client_version@))]);
    let mut params: Vec<(String, JsonValue)> = Vec::new();
    params.push(e("capabilities", caps_v));
    params.push(e("clientInfo", info_v));
    params.push(e("protocolVersion", jstring("2024-11-05")));
    let p = jobject(params);
    proof {
        if let JsonModel::Object(want) = initialize_params(client_name@, client_version@) {
            assert(entry_models(params@) =~= want);
        }
    }
    RequestBuilder::new(INITIALIZE).with_params(p).with_id(jstring("1")).build()
}

/// A request without parameters, with the given string id.
fn simple_request(method: &str, id: &str) -> (r: JSONRPCRequest)
    ensures
        r.jsonrpc@ == "2.0"@,
        r.method@ == method@,
        json_model(r.id) == JsonModel::Str(id@),
        r.params is None,
{
    RequestBuilder::new(method).with_id(jstring(id)).build()
}

/// `tools/list`, id `"2"`.
pub fn create_list_tools_request() -> (r: JSONRPCRequest)
    ensures
        r.jsonrpc@ == "2.0"@,
        r.method@ == TOOLS_LIST@,
        json_model(r.id) == JsonModel::Str("2"@),
        r.params is None,
{
    simple_request(TOOLS_LIST, "2")
}

/// `resources/list`, id `"4"`.
pub fn create_list_resources_request() -> (r: JSONRPCRequest)
    ensures
        r.jsonrpc@ == "2.0"@,
        r.method@ == RESOURCES_LIST@,
        json_model(r.id) == JsonModel::Str("4"@),
        r.params is None,
{
    simple_request(RESOURCES_LIST, "4")
}

/// `shutdown`, id `"5"`.
pub fn create_shutdown_request() -> (r: JSONRPCRequest)
    ensures
        r.jsonrpc@ == "2.0"@,
        r.method@ == SHUTDOWN@,
        json_model(r.id) == JsonModel::Str("5"@),
        r.params is None,
{
    simple_request(SHUTDOWN, "5")
}

/// `tools/call` for a tool with its arguments (an object), id `"3"`.
pub fn create_call_tool_request(tool_name: &str, arguments: JsonValue) -> (r: JSONRPCRequest)
    ensures
        r.jsonrpc@ == "2.0"@,
        r.method@ == TOOLS_CALL@,
        json_model(r.id) == JsonModel::Str("3"@),
        r.params matches Some(p) && json_model(p) == JsonModel::Object(
            seq![("arguments"@, json_model(arguments)), ("name"@, JsonModel::Str(tool_name@))],
        ),
{
    let ghost am = json_model(arguments);
    let mut params: Vec<(String, JsonValue)> = Vec::new();
    params.push(e("arguments", arguments));
    params.push(e("name", jstring(tool_name)));
    let p = jobject(params);
    assert(entry_models(params@) =~= seq![("arguments"@, am), ("name"@, JsonModel::Str(tool_name@))]);
    RequestBuilder::new(TOOLS_CALL).with_params(p).with_id(jstring("3")).build()
}

/// An error response.
pub fn create_error_response(id: JsonValue, code: i32, message: &str) -> (r: JSONRPCResponse)
    ensures
        r.jsonrpc@ == "2.0"@,
        r.id == id,
        r.result is None,
        r.error matches Some(err) && err.code == code && err.message@ == message@ && err.data is None,
{
    JSONRPCResponse {
        jsonrpc: "2.0".to_string(),
        id,
        result: None,
        error: Some(JSONRPCError { code, message: message.to_string(), data: None }),
    }
}

/// A success response carrying a result.
pub fn create_success_response(id: JsonValue, result: JsonValue) -> (r: JSONRPCResponse)
    ensures
        r.jsonrpc@ == "2.0"@,
        r.id == id,
        r.result == Some(result),
        r.error is None,
{
    JSONRPCResponse { jsonrpc: "2.0".to_string(), id, result: Some(result), error: None }
}

} // verus!
