use glimpse::mcp::protocol::{
    CallParams, ClientInfo, ErrorCode, Id, InitParams, Notification, Params, Request, ResultBody,
};
use glimpse::mcp::protocol::Message;
use glimpse::mcp::server::{tool_outcome_response, Incoming, Server, Step};
use glimpse::mcp::tools::{Tool, ToolError};
use glimpse::mcp::PermissionCheck;

struct AllowAll;
impl PermissionCheck for AllowAll {
    fn allow(&self, _client_id: &str) -> bool {
        true
    }
}

struct DenyAll;
impl PermissionCheck for DenyAll {
    fn allow(&self, _client_id: &str) -> bool {
        false
    }
}

fn request(id: i64, method: &str, params: Option<Params>) -> Request {
    Request { jsonrpc: "2.0".to_string(), id: Id::Num(id), method: method.to_string(), params }
}

fn init_params(name: &str) -> Params {
    Params {
        as_initialize: Ok(InitParams {
            protocol_version: Some("2024-11-05".to_string()),
            client_info: Some(ClientInfo { name: name.to_string(), version: "0.0".to_string() }),
        }),
        as_tools_call: Err("missing field `name`".to_string()),
    }
}

fn call_params(name: &str) -> Params {
    Params {
        as_initialize: Ok(InitParams { protocol_version: None, client_info: None }),
        as_tools_call: Ok(CallParams { name: name.to_string() }),
    }
}

fn reply(step: Step) -> glimpse::mcp::protocol::Response {
    match step {
        Step::Reply(r) => r,
        other => panic!("expected a reply, got {:?}", other),
    }
}

#[test]
fn initialize_handshake() {
    let mut server = Server::new(AllowAll);
    let resp = reply(server.handle_request(request(1, "initialize", Some(init_params("test")))));
    assert!(matches!(resp.id, Id::Num(1)));
    assert_eq!(resp.jsonrpc, "2.0");
    match resp.result {
        Some(ResultBody::Initialize { protocol_version, capabilities, server_name, server_version }) => {
            assert!(capabilities.tools);
            assert_eq!(server_name, "glimpse");
            assert_eq!(protocol_version, "2024-11-05");
            assert_eq!(server_version, "0.1.0");
        }
        other => panic!("unexpected {:?}", other),
    }
    assert!(resp.error.is_none());
}

#[test]
fn tools_list_returns_three_tools() {
    let mut server = Server::new(AllowAll);
    let resp = reply(server.handle_request(request(2, "tools/list", None)));
    match resp.result {
        Some(ResultBody::ToolsList { tools }) => {
            let names: Vec<&str> = tools.iter().map(|t| t.name.as_str()).collect();
            assert!(names.contains(&"ocr_at_cursor"));
            assert!(names.contains(&"ocr_region"));
            assert!(names.contains(&"read_clipboard"));
            assert_eq!(names.len(), 3);
        }
        other => panic!("unexpected {:?}", other),
    }
}

#[test]
fn unknown_method_returns_error() {
    let mut server = Server::new(AllowAll);
    let resp = reply(server.handle_request(request(3, "nope", None)));
    let err = resp.error.expect("an error");
    assert_eq!(i32::from(err.code), -32601);
    assert_eq!(err.message, "method not found: nope");
    assert!(resp.result.is_none());
}

#[test]
fn capture_denied_when_perm_says_no() {
    let mut server = Server::new(DenyAll);
    let _ = server.handle_request(request(1, "initialize", Some(init_params("hostile"))));
    let resp = reply(server.handle_request(request(2, "tools/call", Some(call_params("ocr_at_cursor")))));
    match resp.result {
        Some(ResultBody::ToolCall { text, is_error }) => {
            assert!(is_error);
            assert!(text.contains("permission denied"));
        }
        other => panic!("unexpected {:?}", other),
    }
}

#[test]
fn allowed_capture_runs_the_tool() {
    let mut server = Server::new(AllowAll);
    match server.handle_request(request(7, "tools/call", Some(call_params("ocr_region")))) {
        Step::RunTool { id: Id::Num(7), tool: Tool::OcrRegion } => {}
        other => panic!("unexpected {:?}", other),
    }
}

#[test]
fn clipboard_tool_needs_no_permission() {
    let mut server = Server::new(DenyAll);
    match server.handle_request(request(8, "tools/call", Some(call_params("read_clipboard")))) {
        Step::RunTool { tool: Tool::ReadClipboard, .. } => {}
        other => panic!("unexpected {:?}", other),
    }
}

#[test]
fn unknown_tool_is_method_not_found() {
    let mut server = Server::new(AllowAll);
    let resp = reply(server.handle_request(request(9, "tools/call", Some(call_params("paint")))));
    let err = resp.error.expect("an error");
    assert_eq!(err.code, ErrorCode::MethodNotFound);
    assert_eq!(err.message, "tool not found: paint");
}

#[test]
fn missing_and_invalid_params_are_invalid_params() {
    let mut server = Server::new(AllowAll);
    let resp = reply(server.handle_request(request(10, "tools/call", None)));
    let err = resp.error.expect("an error");
    assert_eq!(i32::from(err.code), -32602);
    assert_eq!(err.message, "missing tools/call params");

    let bad = Params {
        as_initialize: Err("invalid type: integer `5`, expected struct ClientInfo".to_string()),
        as_tools_call: Err("missing field `name`".to_string()),
    };
    let resp = reply(server.handle_request(request(11, "initialize", Some(bad))));
    let err = resp.error.expect("an error");
    assert_eq!(err.code, ErrorCode::InvalidParams);
    assert_eq!(
        err.message,
        "invalid initialize params: invalid type: integer `5`, expected struct ClientInfo"
    );
}

#[test]
fn ping_answers_empty() {
    let mut server = Server::new(AllowAll);
    let resp = reply(server.handle_request(Request {
        jsonrpc: "2.0".to_string(),
        id: Id::Str("p".to_string()),
        method: "ping".to_string(),
        params: None,
    }));
    assert!(matches!(resp.id, Id::Str(ref s) if s == "p"));
    assert!(matches!(resp.result, Some(ResultBody::Empty)));
}

struct AskOnce(std::sync::atomic::AtomicUsize);
impl PermissionCheck for AskOnce {
    fn allow(&self, _client_id: &str) -> bool {
        self.0.fetch_add(1, std::sync::atomic::Ordering::SeqCst) == 0
    }
}

#[test]
fn permission_is_asked_once_per_session() {
    let mut server = Server::new(AskOnce(std::sync::atomic::AtomicUsize::new(0)));
    server.handle_notification(Notification {
        jsonrpc: "2.0".to_string(),
        method: "notifications/initialized".to_string(),
    });
    for id in 0..3 {
        assert!(matches!(
            server.handle_request(request(id, "tools/call", Some(call_params("ocr_at_cursor")))),
            Step::RunTool { tool: Tool::OcrAtCursor, .. }
        ));
    }
}

#[test]
fn tool_outcomes_are_shaped() {
    let ok = tool_outcome_response(Id::Num(1), Ok("hello".to_string()));
    assert!(matches!(ok.result, Some(ResultBody::ToolCall { ref text, is_error: false }) if text == "hello"));
    let failed = tool_outcome_response(Id::Num(2), Err(ToolError::Failed("no OCR".to_string())));
    assert!(matches!(failed.result, Some(ResultBody::ToolCall { is_error: true, .. })));
    let missing = tool_outcome_response(Id::Num(3), Err(ToolError::NotFound("x".to_string())));
    assert_eq!(missing.error.expect("an error").message, "tool not found: x");
}

#[test]
fn error_codes_match_json_rpc() {
    assert_eq!(ErrorCode::ParseError.code(), -32700);
    assert_eq!(ErrorCode::InvalidRequest.code(), -32600);
    assert_eq!(ErrorCode::MethodNotFound.code(), -32601);
    assert_eq!(ErrorCode::InvalidParams.code(), -32602);
    assert_eq!(ErrorCode::InternalError.code(), -32603);
    assert_eq!(glimpse::mcp::protocol::version_2_0(), "2.0");
}

struct ByName;
impl PermissionCheck for ByName {
    fn allow(&self, client_id: &str) -> bool {
        client_id == "a"
    }
}

struct Recording(std::sync::Mutex<Vec<String>>);
impl PermissionCheck for Recording {
    fn allow(&self, client_id: &str) -> bool {
        self.0.lock().unwrap().push(client_id.to_string());
        client_id != "b"
    }
}

#[test]
fn each_client_session_is_asked_for_itself() {
    let mut server = Server::new(Recording(std::sync::Mutex::new(Vec::new())));
    let _ = server.handle_request(request(1, "initialize", Some(init_params("a"))));
    assert!(matches!(
        server.handle_request(request(2, "tools/call", Some(call_params("ocr_at_cursor")))),
        Step::RunTool { .. }
    ));
    let _ = server.handle_request(request(3, "initialize", Some(init_params("b"))));
    let resp = reply(server.handle_request(request(4, "tools/call", Some(call_params("ocr_region")))));
    assert!(matches!(resp.result, Some(ResultBody::ToolCall { is_error: true, .. })));
    // Back to a: its earlier answer is reused.
    let _ = server.handle_request(request(5, "initialize", Some(init_params("a"))));
    assert!(matches!(
        server.handle_request(request(6, "tools/call", Some(call_params("ocr_region")))),
        Step::RunTool { .. }
    ));
}

#[test]
fn a_denied_client_does_not_block_an_allowed_one() {
    let mut server = Server::new(ByName);
    let _ = server.handle_request(request(1, "initialize", Some(init_params("z"))));
    let resp = reply(server.handle_request(request(2, "tools/call", Some(call_params("ocr_at_cursor")))));
    assert!(matches!(resp.result, Some(ResultBody::ToolCall { is_error: true, .. })));
    let _ = server.handle_request(request(3, "initialize", Some(init_params("a"))));
    assert!(matches!(
        server.handle_request(request(4, "tools/call", Some(call_params("ocr_at_cursor")))),
        Step::RunTool { .. }
    ));
}

#[test]
fn incoming_lines_are_answered_or_not() {
    let mut server = Server::new(AllowAll);
    match server.handle_incoming(Incoming::Malformed("expected value at line 1 column 1".to_string())) {
        Some(Step::Reply(r)) => {
            assert!(matches!(r.id, Id::Null));
            let e = r.error.expect("an error");
            assert_eq!(i32::from(e.code), -32700);
            assert_eq!(e.message, "parse error: expected value at line 1 column 1");
        }
        other => panic!("unexpected {:?}", other),
    }
    let note = Notification { jsonrpc: "2.0".to_string(), method: "notifications/initialized".to_string() };
    assert!(server.handle_incoming(Incoming::Message(Message::Notification(note))).is_none());
    assert!(matches!(
        server.handle_incoming(Incoming::Message(Message::Request(request(1, "ping", None)))),
        Some(Step::Reply(_))
    ));
}
