use glimpse::permission::{Permissions, Scope};
use glimpse::prompt::{check_with_prompt, PromptDecisions};
use glimpse::mcp::PermissionCheck;
use std::sync::atomic::{AtomicUsize, Ordering};

#[test]
fn unknown_session_has_no_decision() {
    let mut p = Permissions::new();
    assert_eq!(p.check("agent"), None);
}

#[test]
fn session_grant_lasts() {
    let mut p = Permissions::new();
    p.set("agent", Scope::Session);
    assert_eq!(p.check("agent"), Some(Scope::Session));
    assert_eq!(p.check("agent"), Some(Scope::Session));
}

#[test]
fn one_shot_grant_is_used_up() {
    let mut p = Permissions::default();
    p.set("agent", Scope::OneShot);
    assert_eq!(p.check("agent"), Some(Scope::OneShot));
    assert_eq!(p.check("agent"), None);
}

#[test]
fn denial_lasts_and_sessions_are_separate() {
    let mut p = Permissions::new();
    p.set("a", Scope::Denied);
    p.set("b", Scope::OneShot);
    assert_eq!(p.check("a"), Some(Scope::Denied));
    assert_eq!(p.check("b"), Some(Scope::OneShot));
    assert_eq!(p.check("a"), Some(Scope::Denied));
    assert_eq!(p.check("b"), None);
}

#[test]
fn later_decision_replaces_earlier() {
    let mut p = Permissions::new();
    p.set("agent", Scope::Denied);
    p.set("agent", Scope::Session);
    assert_eq!(p.check("agent"), Some(Scope::Session));
}

struct Counting {
    answer: bool,
    asked: AtomicUsize,
}

impl PermissionCheck for Counting {
    fn allow(&self, _client_id: &str) -> bool {
        self.asked.fetch_add(1, Ordering::SeqCst);
        self.answer
    }
}

#[test]
fn prompt_is_shown_once_per_client() {
    let prompt = Counting { answer: true, asked: AtomicUsize::new(0) };
    let mut d = PromptDecisions::new();
    assert!(check_with_prompt(&mut d, "agent-one", &prompt));
    assert!(check_with_prompt(&mut d, "agent-one", &prompt));
    assert_eq!(prompt.asked.load(Ordering::SeqCst), 1);
    let deny = Counting { answer: false, asked: AtomicUsize::new(0) };
    assert!(!check_with_prompt(&mut d, "agent-two", &deny));
    // The earlier client keeps its answer whatever the prompt would say now.
    assert!(check_with_prompt(&mut d, "agent-one", &deny));
    assert_eq!(deny.asked.load(Ordering::SeqCst), 1);
}
