//! JSON-RPC 2.0 messages of the MCP stdio transport, as the server sees
//! them once the JSON text has been decoded.
//!
//! Only what the three tools need is modelled: the `initialize`,
//! `tools/list`, `tools/call` and `ping` requests and the
//! `notifications/initialized` notification.

use vstd::prelude::*;
use crate::mcp::tools::ToolDefinition;

verus! {

/// JSON-RPC request id: a number, a string, or null.
#[derive(Debug, Clone)]
pub enum Id {
    Num(i64),
    Str(String),
    /// Used by the server when reporting a top-level parse error with no
    /// recoverable id.
    Null,
}

pub const NULL_ID: Id = Id::Null;

/// The client's self-description in `initialize`.
#[derive(Debug, Clone)]
pub struct ClientInfo {
    pub name: String,
    pub version: String,
}

/// The parameters of `initialize`.
#[derive(Debug, Clone)]
pub struct InitParams {
    pub protocol_version: Option<String>,
    pub client_info: Option<ClientInfo>,
}

/// The parameters of `tools/call` that the server reads (the tool's
/// arguments stay with the transport, which runs the tool).
#[derive(Debug, Clone)]
pub struct CallParams {
    pub name: String,
}

/// A request's `params`, decoded as each method that takes parameters
/// reads them; an `Err` carries the decoder's message.
#[derive(Debug)]
pub struct Params {
    pub as_initialize: Result<InitParams, String>,
    pub as_tools_call: Result<CallParams, String>,
}

/// A request: it gets exactly one response.
#[derive(Debug)]
pub struct Request {
    pub jsonrpc: String,
    pub id: Id,
    pub method: String,
    pub params: Option<Params>,
}

/// A notification is a request with no `id`. Notifications are never
/// answered.
#[derive(Debug, Clone)]
pub struct Notification {
    pub jsonrpc: String,
    pub method: String,
}

/// One incoming line.
#[derive(Debug)]
pub enum Message {
    Request(Request),
    Notification(Notification),
}

/// What the server offers, as reported by `initialize`.
#[derive(Debug, Clone, Copy, PartialEq, Eq, Structural)]
pub struct ServerCapabilities {
    /// The server offers tools (`"tools": {}`).
    pub tools: bool,
}

/// The `result` of a successful response.
#[derive(Debug, Clone)]
pub enum ResultBody {
    /// `{"protocolVersion", "capabilities": {"tools": {}}, "serverInfo":
    /// {"name", "version"}}`.
    Initialize {
        protocol_version: String,
        capabilities: ServerCapabilities,
        server_name: String,
        server_version: String,
    },
    /// `{"tools": [...]}`.
    ToolsList { tools: Vec<ToolDefinition> },
    /// `{}`.
    Empty,
    /// `{"content": [{"type": "text", "text"}], "isError"}`.
    ToolCall { text: String, is_error: bool },
}

/// A response: exactly one of `result` and `error` is present.
#[derive(Debug, Clone)]
pub struct Response {
    pub jsonrpc: &'static str,
    pub id: Id,
    pub result: Option<ResultBody>,
    pub error: Option<Error>,
}

/// A JSON-RPC error object.
#[derive(Debug, Clone)]
pub struct Error {
    pub code: ErrorCode,
    pub message: String,
}

/// The JSON-RPC error codes the server uses.
#[derive(Debug, Clone, Copy, PartialEq, Eq, Structural)]
pub enum ErrorCode {
    ParseError,
    InvalidRequest,
    MethodNotFound,
    InvalidParams,
    InternalError,
}

/// The wire value of each error code.
pub open spec fn error_code_value(c: ErrorCode) -> i32 {
    match c {
        ErrorCode::ParseError => -32700i32,
        ErrorCode::InvalidRequest => -32600i32,
        ErrorCode::MethodNotFound => -32601i32,
        ErrorCode::InvalidParams => -32602i32,
        ErrorCode::InternalError => -32603i32,
    }
}

impl ErrorCode {
    /// The wire value of the code.
    pub fn code(self) -> (v: i32)
        ensures
            v == error_code_value(self),
    {
        match self {
            ErrorCode::ParseError => -32700,
            ErrorCode::InvalidRequest => -32600,
            ErrorCode::MethodNotFound => -32601,
            ErrorCode::InvalidParams => -32602,
            ErrorCode::InternalError => -32603,
        }
    }
}

impl From<ErrorCode> for i32 {
    fn from(c: ErrorCode) -> (v: i32) {
        c.code()
    }
}

impl vstd::std_specs::convert::FromSpecImpl<ErrorCode> for i32 {
    open spec fn obeys_from_spec() -> bool {
        true
    }

    open spec fn from_spec(v: ErrorCode) -> i32 {
        error_code_value(v)
    }
}

/// The codes are distinct, so a client can tell the errors apart.
pub proof fn lemma_error_codes_distinct(a: ErrorCode, b: ErrorCode)
    ensures
        error_code_value(a) == error_code_value(b) <==> a == b,
{
}

/// Response is well formed: version 2.0, one of result and error.
pub open spec fn is_response(r: Response) -> bool {
    r.jsonrpc@ == "2.0"@ && (r.result is Some <==> r.error is None)
}

impl Response {
    /// A successful response to request `id`.
    pub fn ok(id: Id, result: ResultBody) -> (r: Self)
        ensures
            is_response(r),
            r.id == id,
            r.result == Some(result),
            r.error is None,
    {
        Response { jsonrpc: "2.0", id, result: Some(result), error: None }
    }

    /// An error response to request `id`.
    pub fn error(id: Id, error: Error) -> (r: Self)
        ensures
            is_response(r),
            r.id == id,
            r.result is None,
            r.error == Some(error),
    {
        Response { jsonrpc: "2.0", id, result: None, error: Some(error) }
    }
}

/// Whether `a` spells `b`.
pub(crate) fn same_text(a: &String, b: &str) -> (r: bool)
    ensures
        r == (a@ == b@),
{
    let b2 = b.to_owned();
    *a == b2
}

/// The protocol version a message carries when it names none.
pub fn version_2_0() -> (s: String)
    ensures
        s@ == "2.0"@,
{
    String::from_str("2.0")
}

} // verus!
