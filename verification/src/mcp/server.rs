//! The MCP server's request handling.
//!
//! The transport decodes each line and hands requests and notifications
//! here. Every request gets a response, except a `tools/call` that is
//! allowed to proceed: the server names the tool to run, the transport runs
//! it and [`crate::mcp::tools::ok_response`] or
//! [`crate::mcp::tools::error_response`] shapes its reply
//! (see [`tool_outcome_response`]).

use vstd::prelude::*;
use crate::mcp::PermissionCheck;
use crate::session_table::SessionTable;
use crate::mcp::protocol::{
    Error, ErrorCode, Id, InitParams, Message, Notification, Params, Request, Response,
    ResultBody, ServerCapabilities, is_response, same_text,
};
use crate::mcp::tools::{
    Tool, ToolError, all_tool_definitions, error_response, is_capture_name, lemma_tool_names_distinct,
    lists_all_tools, ok_response, tool_named,
};

verus! {

/// Server name reported in `initialize`.
pub const SERVER_NAME: &'static str = "glimpse";

/// Server version reported in `initialize`.
pub const SERVER_VERSION: &'static str = "0.1.0";

/// MCP protocol revision the server speaks.
pub const PROTOCOL_VERSION: &'static str = "2024-11-05";

/// The message of a capture call that the session may not make.
pub open spec fn denied_message() -> Seq<char> {
    "capture permission denied for this session"@
}

/// An MCP server on one transport.
pub struct Server<P: PermissionCheck> {
    perm: P,
    /// Set after the client's `notifications/initialized`.
    initialized: bool,
    /// Client identity reported in the latest `initialize`; the permission
    /// key.
    client_id: String,
    /// The permission check's answer for each client session asked so far.
    decisions: SessionTable<bool>,
}

/// The abstract state of a [`Server`].
pub struct ServerView {
    pub initialized: bool,
    pub client_id: Seq<char>,
    /// Whether each client session asked so far may capture.
    pub decisions: Map<Seq<char>, bool>,
}

impl<P: PermissionCheck> View for Server<P> {
    type V = ServerView;

    closed spec fn view(&self) -> ServerView {
        ServerView {
            initialized: self.initialized,
            client_id: self.client_id@,
            decisions: self.decisions@,
        }
    }
}

/// One non-blank line from the transport, once decoded.
#[derive(Debug)]
pub enum Incoming {
    /// A request or a notification.
    Message(Message),
    /// A line that is not a JSON-RPC message; the decoder's message.
    Malformed(String),
}

/// What the server does with a request.
#[derive(Debug)]
pub enum Step {
    /// Send this response.
    Reply(Response),
    /// Run `tool` and answer request `id` with its outcome.
    RunTool { id: Id, tool: Tool },
}

/// `step` is a successful reply to `id`.
pub open spec fn replies_ok(step: Step, id: Id) -> bool {
    &&& step matches Step::Reply(r)
    &&& is_response(r)
    &&& r.id == id
    &&& r.result is Some
}

/// `step` is an error reply to `id` with `code` and `message`.
pub open spec fn replies_error(step: Step, id: Id, code: ErrorCode, message: Seq<char>) -> bool {
    &&& step matches Step::Reply(r)
    &&& is_response(r)
    &&& r.id == id
    &&& r.error matches Some(e)
    &&& e.code == code
    &&& e.message@ == message
}

/// `step` is a tool result flagged as an error, with `message`.
pub open spec fn replies_tool_error(step: Step, id: Id, message: Seq<char>) -> bool {
    &&& step matches Step::Reply(r)
    &&& is_response(r)
    &&& r.id == id
    &&& r.result matches Some(ResultBody::ToolCall { text, is_error })
    &&& is_error
    &&& text@ == message
}

/// The client name that `initialize` with `params` records.
pub open spec fn client_name(params: Option<Params>) -> Seq<char> {
    match params {
        None => "unknown"@,
        Some(p) => match p.as_initialize {
            Ok(ip) => match ip.client_info {
                Some(ci) => ci.name@,
                None => "unknown"@,
            },
            Err(_) => "unknown"@,
        },
    }
}

/// How `initialize` with `params` is answered, and the state after it.
pub open spec fn initialize_handled(
    old: ServerView,
    id: Id,
    params: Option<Params>,
    new: ServerView,
    step: Step,
) -> bool {
    if params matches Some(p) && p.as_initialize is Err {
        &&& new == old
        &&& replies_error(
            step,
            id,
            ErrorCode::InvalidParams,
            "invalid initialize params: "@ + params->0.as_initialize->Err_0@,
        )
    } else {
        &&& new == (ServerView { client_id: client_name(params), ..old })
        &&& replies_ok(step, id)
        &&& step->Reply_0.result matches Some(
            ResultBody::Initialize { protocol_version, capabilities, server_name, server_version },
        )
        &&& protocol_version@ == PROTOCOL_VERSION@
        &&& capabilities == (ServerCapabilities { tools: true })
        &&& server_name@ == SERVER_NAME@
        &&& server_version@ == SERVER_VERSION@
    }
}

/// The permission decision for a capture call of the current client: the
/// stored one once the permission check has been asked about that client,
/// otherwise `answer` (what the permission check says now), which is then
/// stored for that client.
pub open spec fn capture_decision(old: ServerView, answer: bool) -> (bool, ServerView) {
    if old.decisions.dom().contains(old.client_id) {
        (old.decisions[old.client_id], old)
    } else {
        (answer, ServerView { decisions: old.decisions.insert(old.client_id, answer), ..old })
    }
}

/// `params` decode as a call of a capture tool.
pub open spec fn is_capture_params(params: Option<Params>) -> bool {
    &&& params matches Some(p)
    &&& p.as_tools_call matches Ok(cp)
    &&& is_capture_name(cp.name@)
}

/// `req` is a well-formed call of a capture tool.
pub open spec fn is_capture_call(req: Request) -> bool {
    req.method@ == "tools/call"@ && is_capture_params(req.params)
}

/// Handling `req` in state `v` asks the permission check: it is a capture
/// call and the current client has not been asked yet.
pub open spec fn asks_permission(v: ServerView, req: Request) -> bool {
    is_capture_call(req) && !v.decisions.dom().contains(v.client_id)
}

/// How `tools/call` with `params` is handled, where `answer` is what the
/// permission check says if it is asked.
pub open spec fn tools_call_handled(
    old: ServerView,
    id: Id,
    params: Option<Params>,
    answer: bool,
    new: ServerView,
    step: Step,
) -> bool {
    match params {
        None => new == old && replies_error(
            step,
            id,
            ErrorCode::InvalidParams,
            "missing tools/call params"@,
        ),
        Some(p) => match p.as_tools_call {
            Err(e) => new == old && replies_error(
                step,
                id,
                ErrorCode::InvalidParams,
                "invalid tools/call params: "@ + e@,
            ),
            Ok(cp) => {
                let name = cp.name@;
                let (allowed, after) = if is_capture_name(name) {
                    capture_decision(old, answer)
                } else {
                    (true, old)
                };
                &&& new == after
                &&& if !allowed {
                    replies_tool_error(step, id, denied_message())
                } else if tool_named(name) is None {
                    replies_error(
                        step,
                        id,
                        ErrorCode::MethodNotFound,
                        "tool not found: "@ + name,
                    )
                } else {
                    step == Step::RunTool { id, tool: tool_named(name)->0 }
                }
            },
        },
    }
}

/// How a request is handled, where `answer` is what the permission check
/// says if it is asked.
pub open spec fn request_handled(
    old: ServerView,
    req: Request,
    answer: bool,
    new: ServerView,
    step: Step,
) -> bool {
    let m = req.method@;
    if m == "initialize"@ {
        initialize_handled(old, req.id, req.params, new, step)
    } else if m == "tools/list"@ {
        &&& new == old
        &&& replies_ok(step, req.id)
        &&& step->Reply_0.result matches Some(ResultBody::ToolsList { tools })
        &&& lists_all_tools(tools@)
    } else if m == "tools/call"@ {
        tools_call_handled(old, req.id, req.params, answer, new, step)
    } else if m == "ping"@ {
        &&& new == old
        &&& replies_ok(step, req.id)
        &&& step->Reply_0.result == Some(ResultBody::Empty)
    } else {
        &&& new == old
        &&& replies_error(step, req.id, ErrorCode::MethodNotFound, "method not found: "@ + m)
    }
}

/// The state after `req` is handled from `old`, where `answer` is what the
/// permission check says if it is asked.
pub open spec fn next_view(old: ServerView, req: Request, answer: bool) -> ServerView {
    let m = req.method@;
    if m == "initialize"@ {
        if req.params matches Some(p) && p.as_initialize is Err {
            old
        } else {
            ServerView { client_id: client_name(req.params), ..old }
        }
    } else if m == "tools/call"@ && is_capture_params(req.params) {
        capture_decision(old, answer).1
    } else {
        old
    }
}

/// A session's requests in order, each with what the permission check
/// says if that request asks it.
pub type RequestHistory = Seq<(Request, bool)>;

/// The state after handling `history` in order, from `v`.
pub open spec fn serve(v: ServerView, history: RequestHistory) -> ServerView
    decreases history.len(),
{
    if history.len() == 0 {
        v
    } else {
        next_view(serve(v, history.drop_last()), history.last().0, history.last().1)
    }
}

/// Whether the `i`-th request of `history`, handled from `v`, asks the
/// permission check.
pub open spec fn asks_at(v: ServerView, history: RequestHistory, i: int) -> bool {
    asks_permission(serve(v, history.take(i)), history[i].0)
}

/// `tools/call` is none of the other methods the server dispatches on.
proof fn lemma_method_names_distinct()
    ensures
        "tools/call"@ != "initialize"@,
        "tools/call"@ != "tools/list"@,
        "tools/call"@ != "ping"@,
{
    reveal_strlit("tools/call");
    reveal_strlit("initialize");
    reveal_strlit("tools/list");
    reveal_strlit("ping");
    assert("tools/call"@[0] != "initialize"@[0]);
    assert("tools/call"@[6] != "tools/list"@[6]);
    assert("tools/call"@[0] != "ping"@[0]);
}

fn invalid_params(id: Id, prefix: &str, detail: &String) -> (r: Response)
    ensures
        is_response(r),
        r.id == id,
        r.error matches Some(e) && e.code == ErrorCode::InvalidParams && e.message@ == prefix@
            + detail@,
{
    let message = prefix.to_owned().concat(detail.as_str());
    Response::error(id, Error { code: ErrorCode::InvalidParams, message })
}

impl<P: PermissionCheck> Server<P> {
    /// A fresh session: not initialized, no client name, permission not yet
    /// asked.
    pub fn new(perm: P) -> (s: Self)
        ensures
            s@ == (ServerView {
                initialized: false,
                client_id: Seq::<char>::empty(),
                decisions: Map::<Seq<char>, bool>::empty(),
            }),
            s.wf(),
            s.checker() == perm,
    {
        Server {
            perm,
            initialized: false,
            client_id: String::new(),
            decisions: SessionTable::new(),
        }
    }

    /// The server's bookkeeping is well formed.
    pub closed spec fn wf(&self) -> bool {
        self.decisions.wf()
    }

    /// The permission check the server consults.
    pub closed spec fn checker(&self) -> P {
        self.perm
    }

    /// Handle one request. When it asks the permission check (see
    /// [`asks_permission`]), the answer it acts on is one that the check
    /// gives for the current client.
    pub fn handle_request(&mut self, req: Request) -> (step: Step)
        requires
            old(self).wf(),
        ensures
            final(self).wf(),
            final(self).checker() == old(self).checker(),
            exists|answer: bool|
                {
                    &&& request_handled(old(self)@, req, answer, final(self)@, step)
                    &&& asks_permission(old(self)@, req) ==> old(self).checker().answers(
                        old(self)@.client_id,
                        answer,
                    )
                },
    {
        let ghost g = req;
        let Request { jsonrpc: _, id, method, params } = req;
        let mut answer: Ghost<bool> = Ghost(false);
        let step = if same_text(&method, "initialize") {
            Step::Reply(self.handle_initialize(id, params))
        } else if same_text(&method, "tools/list") {
            Step::Reply(self.handle_tools_list(id))
        } else if same_text(&method, "tools/call") {
            let (step, asked) = self.handle_tools_call(id, params);
            answer = asked;
            step
        } else if same_text(&method, "ping") {
            Step::Reply(Response::ok(id, ResultBody::Empty))
        } else {
            let message = String::from_str("method not found: ").concat(method.as_str());
            Step::Reply(Response::error(id, Error { code: ErrorCode::MethodNotFound, message }))
        };
        assert(request_handled(old(self)@, g, answer@, self@, step));
        proof {
            lemma_method_names_distinct();
        }
        assert(asks_permission(old(self)@, g) ==> old(self).checker().answers(
            old(self)@.client_id,
            answer@,
        ));
        step
    }

    /// Handle one decoded line: a request gets a step (a reply, or a tool to
    /// run), a notification gets nothing, and a line that does not decode
    /// gets a parse error on the null id.
    pub fn handle_incoming(&mut self, input: Incoming) -> (r: Option<Step>)
        requires
            old(self).wf(),
        ensures
            final(self).wf(),
            final(self).checker() == old(self).checker(),
            match input {
                Incoming::Malformed(e) => {
                    &&& final(self)@ == old(self)@
                    &&& r matches Some(step)
                    &&& replies_error(step, Id::Null, ErrorCode::ParseError, "parse error: "@ + e@)
                },
                Incoming::Message(Message::Notification(note)) => {
                    &&& r is None
                    &&& final(self)@ == (ServerView {
                        initialized: old(self)@.initialized || note.method@
                            == "notifications/initialized"@,
                        ..old(self)@
                    })
                },
                Incoming::Message(Message::Request(req)) => {
                    &&& r matches Some(step)
                    &&& exists|answer: bool|
                        {
                            &&& request_handled(old(self)@, req, answer, final(self)@, step)
                            &&& asks_permission(old(self)@, req) ==> old(self).checker().answers(
                                old(self)@.client_id,
                                answer,
                            )
                        }
                },
            },
    {
        match input {
            Incoming::Malformed(e) => {
                let message = String::from_str("parse error: ").concat(e.as_str());
                Some(
                    Step::Reply(
                        Response::error(Id::Null, Error { code: ErrorCode::ParseError, message }),
                    ),
                )
            },
            Incoming::Message(Message::Notification(note)) => {
                self.handle_notification(note);
                None
            },
            Incoming::Message(Message::Request(req)) => Some(self.handle_request(req)),
        }
    }

    /// Handle one notification. Only `notifications/initialized` has an
    /// effect: it marks the session initialized.
    pub fn handle_notification(&mut self, note: Notification)
        requires
            old(self).wf(),
        ensures
            final(self).wf(),
            final(self).checker() == old(self).checker(),
            final(self)@ == (ServerView {
                initialized: old(self)@.initialized || note.method@ == "notifications/initialized"@,
                ..old(self)@
            }),
    {
        if same_text(&note.method, "notifications/initialized") {
            self.initialized = true;
        }
    }

    fn handle_initialize(&mut self, id: Id, params: Option<Params>) -> (r: Response)
        requires
            old(self).wf(),
        ensures
            final(self).wf(),
            final(self).checker() == old(self).checker(),
            initialize_handled(old(self)@, id, params, final(self)@, Step::Reply(r)),
    {
        let ghost g = params;
        let init: InitParams = match params {
            Some(p) => match p.as_initialize {
                Ok(ip) => ip,
                Err(e) => {
                    return invalid_params(id, "invalid initialize params: ", &e);
                },
            },
            None => InitParams { protocol_version: None, client_info: None },
        };
        let name = match init.client_info {
            Some(c) => c.name,
            None => String::from_str("unknown"),
        };
        proof {
            assert(name@ == client_name(g));
        }
        self.client_id = name;
        Response::ok(
            id,
            ResultBody::Initialize {
                protocol_version: PROTOCOL_VERSION.to_owned(),
                capabilities: ServerCapabilities { tools: true },
                server_name: SERVER_NAME.to_owned(),
                server_version: SERVER_VERSION.to_owned(),
            },
        )
    }

    fn handle_tools_list(&self, id: Id) -> (r: Response)
        ensures
            is_response(r),
            r.id == id,
            r.result matches Some(ResultBody::ToolsList { tools }) && lists_all_tools(tools@),
    {
        Response::ok(id, ResultBody::ToolsList { tools: all_tool_definitions() })
    }

    fn handle_tools_call(&mut self, id: Id, params: Option<Params>) -> (res: (Step, Ghost<bool>))
        requires
            old(self).wf(),
        ensures
            final(self).wf(),
            final(self).checker() == old(self).checker(),
            tools_call_handled(old(self)@, id, params, res.1@, final(self)@, res.0),
            is_capture_params(params) && !old(self)@.decisions.dom().contains(old(self)@.client_id)
                ==> old(self).checker().answers(old(self)@.client_id, res.1@),
    {
        let ghost g = params;
        let p = match params {
            Some(p) => p,
            None => {
                let message = String::from_str("missing tools/call params");
                return (
                    Step::Reply(Response::error(id, Error { code: ErrorCode::InvalidParams, message })),
                    Ghost(false),
                );
            },
        };
        let call = match p.as_tools_call {
            Ok(c) => c,
            Err(e) => {
                return (Step::Reply(invalid_params(id, "invalid tools/call params: ", &e)), Ghost(false));
            },
        };
        let tool = Tool::from_name(&call.name);
        let is_capture = match tool {
            Some(t) => t.is_capture(),
            None => false,
        };
        let mut answer: Ghost<bool> = Ghost(false);
        if is_capture {
            let (allowed, asked) = self.check_capture_permission();
            answer = asked;
            if !allowed {
                let message = String::from_str("capture permission denied for this session");
                return (Step::Reply(error_response(id, message)), answer);
            }
        }
        match tool {
            Some(tool) => (Step::RunTool { id, tool }, answer),
            None => {
                let message = String::from_str("tool not found: ").concat(call.name.as_str());
                (
                    Step::Reply(Response::error(id, Error { code: ErrorCode::MethodNotFound, message })),
                    answer,
                )
            },
        }
    }

    /// Ask the permission check once per client session; later calls for
    /// the same client reuse its answer.
    fn check_capture_permission(&mut self) -> (res: (bool, Ghost<bool>))
        requires
            old(self).wf(),
        ensures
            final(self).wf(),
            final(self).checker() == old(self).checker(),
            (res.0, final(self)@) == capture_decision(old(self)@, res.1@),
            !old(self)@.decisions.dom().contains(old(self)@.client_id) ==> old(
                self,
            ).checker().answers(old(self)@.client_id, res.1@),
    {
        if let Some(decided) = self.decisions.get(self.client_id.as_str()) {
            return (decided, Ghost(false));
        }
        let allowed = self.perm.allow(self.client_id.as_str());
        self.decisions.insert(self.client_id.as_str(), allowed);
        (allowed, Ghost(allowed))
    }
}

/// The response to request `id` once its tool has run: the tool's text, a
/// tool error result for a failure, or a JSON-RPC "method not found" error
/// for an unknown tool.
pub fn tool_outcome_response(id: Id, outcome: Result<String, ToolError>) -> (r: Response)
    ensures
        r.id == id,
        is_response(r),
        outcome matches Ok(text) ==> r.result == Some(ResultBody::ToolCall { text, is_error: false }),
        outcome matches Err(ToolError::Failed(m)) ==> r.result == Some(
            ResultBody::ToolCall { text: m, is_error: true },
        ),
        outcome matches Err(ToolError::NotFound(name)) ==> r.error matches Some(e) && e.code
            == ErrorCode::MethodNotFound && e.message@ == "tool not found: "@ + name@,
{
    match outcome {
        Ok(text) => ok_response(id, text),
        Err(ToolError::Failed(message)) => error_response(id, message),
        Err(ToolError::NotFound(name)) => {
            let message = String::from_str("tool not found: ").concat(name.as_str());
            Response::error(id, Error { code: ErrorCode::MethodNotFound, message })
        },
    }
}

/// Every request is answered on its own id: with a well-formed response,
/// or, for a tool call that may proceed, by running the tool for that id.
pub proof fn lemma_every_request_is_answered(
    old: ServerView,
    req: Request,
    answer: bool,
    new: ServerView,
    step: Step,
)
    requires
        request_handled(old, req, answer, new, step),
    ensures
        (step matches Step::Reply(r) && r.id == req.id && is_response(r)) || (
        step matches Step::RunTool { id, tool } && id == req.id),
{
}

/// Once the permission check has answered for a client, no request asks
/// it again about that client or changes its answer; decisions are only
/// ever added.
pub proof fn lemma_permission_answers_are_kept(
    old: ServerView,
    req: Request,
    answer: bool,
    new: ServerView,
    step: Step,
    client: Seq<char>,
)
    requires
        request_handled(old, req, answer, new, step),
        old.decisions.dom().contains(client),
    ensures
        new.decisions.dom().contains(client),
        new.decisions[client] == old.decisions[client],
        client == old.client_id ==> !asks_permission(old, req),
{
}

/// A client session whose captures were denied never runs a capture tool.
pub proof fn lemma_denied_session_never_captures(
    old: ServerView,
    req: Request,
    answer: bool,
    new: ServerView,
    step: Step,
)
    requires
        request_handled(old, req, answer, new, step),
        old.decisions.dom().contains(old.client_id),
        !old.decisions[old.client_id],
    ensures
        step matches Step::RunTool { tool, .. } ==> tool == Tool::ReadClipboard,
{
    lemma_method_names_distinct();
    lemma_tool_names_distinct();
}

/// The first capture call of a client session asks the permission check,
/// and the answer both decides that call and is remembered for that
/// client.
pub proof fn lemma_first_capture_asks_user(
    old: ServerView,
    req: Request,
    answer: bool,
    new: ServerView,
    step: Step,
)
    requires
        request_handled(old, req, answer, new, step),
        asks_permission(old, req),
    ensures
        new.decisions == old.decisions.insert(old.client_id, answer),
        new.client_id == old.client_id,
        answer ==> step is RunTool,
        !answer ==> replies_tool_error(step, req.id, denied_message()),
{
    lemma_method_names_distinct();
    lemma_tool_names_distinct();
}

/// A successful `initialize` makes the client it names the current
/// session: a later capture call asks the permission check about that
/// client unless it has been asked before, whatever earlier clients
/// answered.
pub proof fn lemma_initialize_starts_client_session(
    old: ServerView,
    req: Request,
    answer: bool,
    new: ServerView,
    step: Step,
    call: Request,
)
    requires
        request_handled(old, req, answer, new, step),
        req.method@ == "initialize"@,
        !(req.params matches Some(p) && p.as_initialize is Err),
        is_capture_call(call),
    ensures
        new.client_id == client_name(req.params),
        new.decisions == old.decisions,
        asks_permission(new, call) <==> !old.decisions.dom().contains(client_name(req.params)),
{
}

/// Requests other than capture tool calls never touch the permission
/// decisions.
pub proof fn lemma_only_captures_touch_permission(
    old: ServerView,
    req: Request,
    answer: bool,
    new: ServerView,
    step: Step,
)
    requires
        request_handled(old, req, answer, new, step),
        !is_capture_call(req),
    ensures
        new.decisions == old.decisions,
{
}

/// Handling a request leaves the server in the state [`next_view`] gives.
pub proof fn lemma_handled_state(
    old: ServerView,
    req: Request,
    answer: bool,
    new: ServerView,
    step: Step,
)
    requires
        request_handled(old, req, answer, new, step),
    ensures
        new == next_view(old, req, answer),
{
    lemma_method_names_distinct();
}

proof fn lemma_serve_next(v: ServerView, history: RequestHistory, m: int)
    requires
        0 <= m < history.len(),
    ensures
        serve(v, history.take(m + 1)) == next_view(
            serve(v, history.take(m)),
            history[m].0,
            history[m].1,
        ),
{
    assert(history.take(m + 1).drop_last() =~= history.take(m));
}

/// Decisions, once taken, stay: from the first `i` requests to the first
/// `m`, every client asked keeps its answer.
proof fn lemma_decisions_kept(v: ServerView, history: RequestHistory, i: int, m: int, c: Seq<char>)
    requires
        0 <= i <= m <= history.len(),
        serve(v, history.take(i)).decisions.dom().contains(c),
    ensures
        serve(v, history.take(m)).decisions.dom().contains(c),
        serve(v, history.take(m)).decisions[c] == serve(v, history.take(i)).decisions[c],
    decreases m - i,
{
    if m > i {
        lemma_decisions_kept(v, history, i, m - 1, c);
        lemma_serve_next(v, history, m - 1);
    }
}

/// Over a whole session the permission check is asked at most once per
/// client: two requests that ask it do so about different clients.
pub proof fn lemma_asked_once_per_client(v: ServerView, history: RequestHistory, i: int, j: int)
    requires
        0 <= i < j < history.len(),
        asks_at(v, history, i),
        asks_at(v, history, j),
    ensures
        serve(v, history.take(i)).client_id != serve(v, history.take(j)).client_id,
{
    let c = serve(v, history.take(i)).client_id;
    lemma_method_names_distinct();
    lemma_serve_next(v, history, i);
    lemma_decisions_kept(v, history, i + 1, j, c);
}

/// The first answer decides the session: once the permission check has
/// answered for a client, every later capture call made while that client
/// is current asks nothing, runs its tool if the answer was yes, and is
/// refused as denied if it was no.
pub proof fn lemma_first_answer_decides(
    v: ServerView,
    history: RequestHistory,
    i: int,
    j: int,
    new: ServerView,
    step: Step,
)
    requires
        0 <= i < j < history.len(),
        asks_at(v, history, i),
        serve(v, history.take(j)).client_id == serve(v, history.take(i)).client_id,
        is_capture_call(history[j].0),
        request_handled(serve(v, history.take(j)), history[j].0, history[j].1, new, step),
    ensures
        !asks_at(v, history, j),
        history[i].1 ==> step is RunTool,
        !history[i].1 ==> replies_tool_error(step, history[j].0.id, denied_message()),
{
    let c = serve(v, history.take(i)).client_id;
    lemma_method_names_distinct();
    lemma_tool_names_distinct();
    lemma_serve_next(v, history, i);
    lemma_decisions_kept(v, history, i + 1, j, c);
}

/// The current client is the one the latest successful `initialize`
/// named: after such a request, and until the next `initialize`, each
/// capture call asks the permission check about that client exactly when
/// it has not been asked about it before.
pub proof fn lemma_client_is_latest_initialize(v: ServerView, history: RequestHistory, i: int, j: int)
    requires
        0 <= i < j <= history.len(),
        history[i].0.method@ == "initialize"@,
        !(history[i].0.params matches Some(p) && p.as_initialize is Err),
        forall|k: int| i < k < j ==> (#[trigger] history[k].0).method@ != "initialize"@,
    ensures
        serve(v, history.take(j)).client_id == client_name(history[i].0.params),
        j < history.len() ==> (asks_at(v, history, j) <==> is_capture_call(history[j].0)
            && !serve(v, history.take(j)).decisions.dom().contains(
            client_name(history[i].0.params),
        )),
    decreases j - i,
{
    if j == i + 1 {
        lemma_serve_next(v, history, i);
    } else {
        lemma_client_is_latest_initialize(v, history, i, j - 1);
        lemma_serve_next(v, history, j - 1);
        assert(history[j - 1].0.method@ != "initialize"@);
    }
}

/// A call of a tool that does not capture the screen never depends on the
/// permission check: whatever decisions are stored and whatever the check
/// would say, `read_clipboard` runs, and so does any existing tool other
/// than `ocr_at_cursor` and `ocr_region`; the decisions stay as they were.
pub proof fn lemma_non_capture_tools_need_no_permission(
    old: ServerView,
    req: Request,
    answer: bool,
    new: ServerView,
    step: Step,
)
    requires
        request_handled(old, req, answer, new, step),
        req.method@ == "tools/call"@,
        req.params matches Some(p) && p.as_tools_call is Ok,
    ensures
        ({
            let name = req.params->0.as_tools_call->Ok_0.name@;
            &&& name == "read_clipboard"@ ==> step == (Step::RunTool {
                id: req.id,
                tool: Tool::ReadClipboard,
            }) && new == old
            &&& (name != "ocr_at_cursor"@ && name != "ocr_region"@ && tool_named(name) is Some)
                ==> step == (Step::RunTool { id: req.id, tool: tool_named(name)->0 }) && new == old
            &&& !asks_permission(old, req) || name == "ocr_at_cursor"@ || name == "ocr_region"@
        }),
{
    lemma_method_names_distinct();
    lemma_tool_names_distinct();
}

} // verus!
