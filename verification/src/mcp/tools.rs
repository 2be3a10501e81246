//! Tool definitions exposed over MCP.

use vstd::prelude::*;
use crate::mcp::protocol::{Id, Response, ResultBody, is_response, same_text};

verus! {

/// Arguments of `ocr_at_cursor`.
#[derive(Debug, Clone)]
pub struct OcrAtCursorArgs {}

/// Arguments of `ocr_region`: a rectangle in virtual-desktop coordinates.
#[derive(Debug, Clone)]
pub struct OcrRegionArgs {
    pub x: i32,
    pub y: i32,
    pub width: u32,
    pub height: u32,
}

/// Arguments of `read_clipboard`.
#[derive(Debug, Clone)]
pub struct ReadClipboardArgs {}

/// What every tool returns.
#[derive(Debug, Clone)]
pub struct OcrResult {
    pub text: String,
}

/// The tools the server offers.
#[derive(Debug, Clone, Copy, PartialEq, Eq, Structural)]
pub enum Tool {
    OcrAtCursor,
    OcrRegion,
    ReadClipboard,
}

/// A tool's name on the wire.
pub open spec fn tool_name(t: Tool) -> Seq<char> {
    match t {
        Tool::OcrAtCursor => "ocr_at_cursor"@,
        Tool::OcrRegion => "ocr_region"@,
        Tool::ReadClipboard => "read_clipboard"@,
    }
}

/// A tool's description in the catalog.
pub open spec fn tool_description(t: Tool) -> Seq<char> {
    match t {
        Tool::OcrAtCursor => "Capture a DPI-aware region around the current mouse cursor and return the OCR'd text."@,
        Tool::OcrRegion => "Capture an arbitrary screen region (virtual-desktop coordinates) and return the OCR'd text."@,
        Tool::ReadClipboard => "Return the current clipboard text."@,
    }
}

/// The tool called `name`, if any.
pub open spec fn tool_named(name: Seq<char>) -> Option<Tool> {
    if name == "ocr_at_cursor"@ {
        Some(Tool::OcrAtCursor)
    } else if name == "ocr_region"@ {
        Some(Tool::OcrRegion)
    } else if name == "read_clipboard"@ {
        Some(Tool::ReadClipboard)
    } else {
        None
    }
}

/// Whether a call of `name` captures the screen (and so needs the user's
/// permission).
pub open spec fn is_capture_name(name: Seq<char>) -> bool {
    name == "ocr_at_cursor"@ || name == "ocr_region"@
}

/// A tool as listed by `tools/list`.
#[derive(Debug, Clone)]
pub struct ToolDefinition {
    pub tool: Tool,
    pub name: String,
    pub description: String,
}

/// The listing holds each tool once, by its own name, in a fixed order.
pub open spec fn lists_all_tools(defs: Seq<ToolDefinition>) -> bool {
    &&& defs.len() == 3
    &&& defs[0].tool == Tool::OcrAtCursor
    &&& defs[1].tool == Tool::OcrRegion
    &&& defs[2].tool == Tool::ReadClipboard
    &&& forall|i: int| 0 <= i < 3 ==> #[trigger] defs[i].name@ == tool_name(defs[i].tool)
    &&& forall|i: int| 0 <= i < 3 ==> #[trigger] defs[i].description@ == tool_description(defs[i].tool)
}

/// Why a tool call produced no text.
#[derive(Debug, Clone)]
pub enum ToolError {
    /// No tool of that name.
    NotFound(String),
    /// The tool ran and failed; the message says why.
    Failed(String),
}

impl Tool {
    /// The tool's name on the wire.
    pub fn name(self) -> (s: String)
        ensures
            s@ == tool_name(self),
    {
        match self {
            Tool::OcrAtCursor => String::from_str("ocr_at_cursor"),
            Tool::OcrRegion => String::from_str("ocr_region"),
            Tool::ReadClipboard => String::from_str("read_clipboard"),
        }
    }

    /// What the tool does, for the agent's catalog.
    pub fn description(self) -> (s: String)
        ensures
            s@ == tool_description(self),
    {
        match self {
            Tool::OcrAtCursor => String::from_str(
                "Capture a DPI-aware region around the current mouse cursor and return the OCR'd text.",
            ),
            Tool::OcrRegion => String::from_str(
                "Capture an arbitrary screen region (virtual-desktop coordinates) and return the OCR'd text.",
            ),
            Tool::ReadClipboard => String::from_str("Return the current clipboard text."),
        }
    }

    /// The tool called `name`, if any.
    pub fn from_name(name: &String) -> (t: Option<Tool>)
        ensures
            t == tool_named(name@),
    {
        if same_text(name, "ocr_at_cursor") {
            Some(Tool::OcrAtCursor)
        } else if same_text(name, "ocr_region") {
            Some(Tool::OcrRegion)
        } else if same_text(name, "read_clipboard") {
            Some(Tool::ReadClipboard)
        } else {
            None
        }
    }

    /// Whether the tool captures the screen.
    pub fn is_capture(self) -> (b: bool)
        ensures
            b == is_capture_name(tool_name(self)),
    {
        proof {
            lemma_tool_names_distinct();
        }
        match self {
            Tool::ReadClipboard => false,
            _ => true,
        }
    }
}

/// The definitions of all tools.
pub fn all_tool_definitions() -> (defs: Vec<ToolDefinition>)
    ensures
        lists_all_tools(defs@),
{
    let mut defs: Vec<ToolDefinition> = Vec::new();
    defs.push(
        ToolDefinition {
            tool: Tool::OcrAtCursor,
            name: Tool::OcrAtCursor.name(),
            description: Tool::OcrAtCursor.description(),
        },
    );
    defs.push(
        ToolDefinition {
            tool: Tool::OcrRegion,
            name: Tool::OcrRegion.name(),
            description: Tool::OcrRegion.description(),
        },
    );
    defs.push(
        ToolDefinition {
            tool: Tool::ReadClipboard,
            name: Tool::ReadClipboard.name(),
            description: Tool::ReadClipboard.description(),
        },
    );
    defs
}

/// The response to a tool call that produced `text`.
pub fn ok_response(id: Id, text: String) -> (r: Response)
    ensures
        is_response(r),
        r.id == id,
        r.error is None,
        r.result == Some(ResultBody::ToolCall { text, is_error: false }),
{
    Response::ok(id, ResultBody::ToolCall { text, is_error: false })
}

/// The response to a tool call that failed with `message`: a result
/// flagged as an error, not a JSON-RPC error.
pub fn error_response(id: Id, message: String) -> (r: Response)
    ensures
        is_response(r),
        r.id == id,
        r.error is None,
        r.result == Some(ResultBody::ToolCall { text: message, is_error: true }),
{
    Response::ok(id, ResultBody::ToolCall { text: message, is_error: true })
}

/// Every tool is found by its own name, and no capture tool is
/// `read_clipboard`.
pub proof fn lemma_tool_names_round_trip(t: Tool)
    ensures
        tool_named(tool_name(t)) == Some(t),
        is_capture_name(tool_name(t)) <==> t != Tool::ReadClipboard,
{
    lemma_tool_names_distinct();
}

/// The tool names are pairwise different.
pub proof fn lemma_tool_names_distinct()
    ensures
        "ocr_at_cursor"@ != "ocr_region"@,
        "ocr_at_cursor"@ != "read_clipboard"@,
        "ocr_region"@ != "read_clipboard"@,
{
    reveal_strlit("ocr_at_cursor");
    reveal_strlit("ocr_region");
    reveal_strlit("read_clipboard");
    assert("read_clipboard"@[0] != "ocr_at_cursor"@[0]);
    assert("read_clipboard"@[0] != "ocr_region"@[0]);
    assert("ocr_region"@[4] != "ocr_at_cursor"@[4]);
}

} // verus!
