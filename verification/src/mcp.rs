//! Glimpse MCP server.
//!
//! The Model Context Protocol over line-delimited JSON-RPC 2.0. The server
//! exposes three tools to AI agents:
//!
//! - `ocr_at_cursor`: OCR the screen region around the current cursor.
//! - `ocr_region`: OCR an arbitrary screen rectangle.
//! - `read_clipboard`: return the current clipboard text.
//!
//! The first capture call of a session must be allowed by a [`PermissionCheck`]
//! supplied by the embedding program; its answer holds for the rest of the
//! session.

pub mod protocol;
pub mod tools;
pub mod server;

use vstd::prelude::*;

verus! {

/// User-provided permission check.
///
/// Consulted once per client session (the client named in the
/// `initialize` request) before that session's first capture tool runs.
/// Return `true` to allow this session's captures.
pub trait PermissionCheck: Send + Sync + 'static {
    /// Whether `allowed` is an answer this check may give for `client_id`
    /// (for a prompt: what the user may answer when asked about that
    /// client). A check that does not say more may give either answer.
    open spec fn answers(&self, client_id: Seq<char>, allowed: bool) -> bool {
        true
    }

    /// Decide whether the session of `client_id` may capture the screen.
    fn allow(&self, client_id: &str) -> (allowed: bool)
        ensures
            self.answers(client_id@, allowed),
    ;
}

} // verus!
