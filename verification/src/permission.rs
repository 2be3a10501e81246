//! Per-session permission state for MCP agent captures.

use vstd::prelude::*;
use crate::session_table::SessionTable;

verus! {

/// What a user granted a session.
#[derive(Debug, Clone, Copy, PartialEq, Eq, Structural)]
pub enum Scope {
    Denied,
    OneShot,
    Session,
}

/// The decisions recorded so far, one per session.
pub struct Permissions {
    by_session: SessionTable<Scope>,
}

impl View for Permissions {
    type V = Map<Seq<char>, Scope>;

    closed spec fn view(&self) -> Map<Seq<char>, Scope> {
        self.by_session@
    }
}

/// What a check of `session` answers, and the decisions left after it: a
/// one-shot grant is used up by the check that reports it.
pub open spec fn checked(m: Map<Seq<char>, Scope>, session: Seq<char>) -> (
    Option<Scope>,
    Map<Seq<char>, Scope>,
) {
    if m.dom().contains(session) {
        if m[session] == Scope::OneShot {
            (Some(Scope::OneShot), m.remove(session))
        } else {
            (Some(m[session]), m)
        }
    } else {
        (None, m)
    }
}

impl Permissions {
    /// The table is well formed (one entry per session).
    pub closed spec fn wf(&self) -> bool {
        self.by_session.wf()
    }

    /// No decision recorded for any session.
    pub fn new() -> (p: Self)
        ensures
            p.wf(),
            p@ == Map::<Seq<char>, Scope>::empty(),
    {
        Permissions { by_session: SessionTable::new() }
    }

    /// Check whether `session_id` may capture.
    ///
    /// Returns:
    ///   - `Some(Scope::Session)` if the user previously granted session-wide.
    ///   - `Some(Scope::OneShot)` if granted once; this call uses it up.
    ///   - `Some(Scope::Denied)` if explicitly denied.
    ///   - `None` if no decision yet: the caller must prompt the user.
    pub fn check(&mut self, session_id: &str) -> (r: Option<Scope>)
        requires
            old(self).wf(),
        ensures
            final(self).wf(),
            (r, final(self)@) == checked(old(self)@, session_id@),
    {
        let found = self.by_session.get(session_id);
        if let Some(Scope::OneShot) = found {
            self.by_session.remove(session_id);
        }
        found
    }

    /// Record the user's decision for `session_id`, replacing any earlier one.
    pub fn set(&mut self, session_id: &str, scope: Scope)
        requires
            old(self).wf(),
        ensures
            final(self).wf(),
            final(self)@ == old(self)@.insert(session_id@, scope),
    {
        self.by_session.insert(session_id, scope)
    }
}

impl Default for Permissions {
    fn default() -> (p: Self)
        ensures
            p.wf(),
            p@ == Map::<Seq<char>, Scope>::empty(),
    {
        Permissions::new()
    }
}

/// A check right after a decision is recorded reports that decision.
pub proof fn lemma_set_then_check(m: Map<Seq<char>, Scope>, session: Seq<char>, scope: Scope)
    ensures
        checked(m.insert(session, scope), session).0 == Some(scope),
{
}

/// A one-shot grant is reported once; the next check finds no decision.
pub proof fn lemma_one_shot_is_used_once(m: Map<Seq<char>, Scope>, session: Seq<char>)
    ensures
        checked(m.insert(session, Scope::OneShot), session).0 == Some(Scope::OneShot),
        checked(checked(m.insert(session, Scope::OneShot), session).1, session).0 == None::<Scope>,
{
}

/// Session-wide grants and denials last: checking them changes nothing.
pub proof fn lemma_lasting_decisions(m: Map<Seq<char>, Scope>, session: Seq<char>)
    requires
        m.dom().contains(session),
        m[session] != Scope::OneShot,
    ensures
        checked(m, session) == (Some(m[session]), m),
{
}

/// Checking one session leaves every other session's decision as it was.
pub proof fn lemma_sessions_are_separate(m: Map<Seq<char>, Scope>, a: Seq<char>, b: Seq<char>)
    requires
        a != b,
    ensures
        checked(m, a).1.dom().contains(b) == m.dom().contains(b),
        m.dom().contains(b) ==> checked(m, a).1[b] == m[b],
        checked(checked(m, a).1, b).0 == checked(m, b).0,
{
}

/// A check reports the recorded decision for the session, if there is one,
/// and never records anything: the decisions after it are a part of those
/// before, and with no decision recorded for the session nothing changes.
pub proof fn lemma_check_reports_and_never_records(m: Map<Seq<char>, Scope>, session: Seq<char>)
    ensures
        checked(m, session).0 == (if m.dom().contains(session) {
            Some(m[session])
        } else {
            None
        }),
        checked(m, session).1.submap_of(m),
        !m.dom().contains(session) ==> checked(m, session) == (None::<Scope>, m),
        forall|t: Seq<char>| t != session ==> (#[trigger] checked(m, session).1.dom().contains(t)
            <==> m.dom().contains(t)),
{
}

/// Checking an undecided session any number of times keeps answering
/// `None`: the caller is asked to prompt every time.
pub proof fn lemma_undecided_stays_undecided(m: Map<Seq<char>, Scope>, session: Seq<char>)
    requires
        !m.dom().contains(session),
    ensures
        checked(m, session).0 is None,
        checked(checked(m, session).1, session).0 is None,
        checked(checked(m, session).1, session).1 == m,
{
}

} // verus!
