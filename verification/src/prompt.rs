//! The command-line MCP server's permission check: the user is prompted the
//! first time a client asks to capture, and the answer is remembered for
//! the rest of the process.

use vstd::prelude::*;
use crate::mcp::PermissionCheck;
use crate::session_table::SessionTable;

verus! {

/// Decisions taken so far, by client id.
pub struct PromptDecisions {
    by_client: SessionTable<bool>,
}

impl View for PromptDecisions {
    type V = Map<Seq<char>, bool>;

    closed spec fn view(&self) -> Map<Seq<char>, bool> {
        self.by_client@
    }
}

/// The answer for `client` and the decisions kept afterwards, where
/// `answer` is what the prompt says if it is shown.
pub open spec fn prompt_outcome(m: Map<Seq<char>, bool>, client: Seq<char>, answer: bool) -> (
    bool,
    Map<Seq<char>, bool>,
) {
    if m.dom().contains(client) {
        (m[client], m)
    } else {
        (answer, m.insert(client, answer))
    }
}

impl PromptDecisions {
    /// One decision per client.
    pub closed spec fn wf(&self) -> bool {
        self.by_client.wf()
    }

    /// No decision yet.
    pub fn new() -> (d: Self)
        ensures
            d.wf(),
            d@ == Map::<Seq<char>, bool>::empty(),
    {
        PromptDecisions { by_client: SessionTable::new() }
    }
}

/// MCP permission check: prompts on the first call per `client_id` (by
/// asking `prompt`), then answers from the recorded decision.
pub fn check_with_prompt<P: PermissionCheck>(
    decisions: &mut PromptDecisions,
    client_id: &str,
    prompt: &P,
) -> (allowed: bool)
    requires
        old(decisions).wf(),
    ensures
        final(decisions).wf(),
        exists|answer: bool|
            (allowed, final(decisions)@) == prompt_outcome(old(decisions)@, client_id@, answer),
        old(decisions)@.dom().contains(client_id@) ==> allowed == old(decisions)@[client_id@]
            && final(decisions)@ == old(decisions)@,
        !old(decisions)@.dom().contains(client_id@) ==> prompt.answers(client_id@, allowed)
            && final(decisions)@ == old(decisions)@.insert(client_id@, allowed),
{
    if let Some(decision) = decisions.by_client.get(client_id) {
        assert((decision, decisions@) == prompt_outcome(old(decisions)@, client_id@, decision));
        return decision;
    }
    let decision = prompt.allow(client_id);
    decisions.by_client.insert(client_id, decision);
    assert((decision, decisions@) == prompt_outcome(old(decisions)@, client_id@, decision));
    decision
}

/// A client is prompted at most once: after the first check, every later
/// check gives the same answer and keeps the decisions as they are.
pub proof fn lemma_prompted_once(m: Map<Seq<char>, bool>, client: Seq<char>, first: bool, later: bool)
    ensures
        ({
            let (a1, m1) = prompt_outcome(m, client, first);
            prompt_outcome(m1, client, later) == (a1, m1)
        }),
{
}

/// Checking one client never changes another client's decision.
pub proof fn lemma_clients_are_separate(
    m: Map<Seq<char>, bool>,
    a: Seq<char>,
    b: Seq<char>,
    answer: bool,
)
    requires
        a != b,
    ensures
        prompt_outcome(m, a, answer).1.dom().contains(b) == m.dom().contains(b),
        m.dom().contains(b) ==> prompt_outcome(m, a, answer).1[b] == m[b],
{
}

} // verus!
