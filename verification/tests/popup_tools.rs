use glimpse::mcp::tools::{all_tool_definitions, error_response, ok_response, Tool};
use glimpse::mcp::protocol::{Id, ResultBody};
use glimpse::popup::{edit_key, show_editable, EditKey, PopupPending, VK_ESCAPE, VK_RETURN};

#[test]
fn popup_shows_latest_text_once_beside_anchor() {
    let mut p = PopupPending::new();
    show_editable(&mut p, "first".to_string(), 5, 5);
    show_editable(&mut p, "second".to_string(), 100, 200);
    assert!(p.anchor_fits());
    let shown = p.take_for_show();
    assert_eq!(shown.text, "second");
    assert_eq!((shown.x, shown.y), (112, 212));
    let again = p.take_for_show();
    assert_eq!(again.text, "");
}

#[test]
fn anchor_at_the_edge_does_not_fit() {
    let mut p = PopupPending::new();
    show_editable(&mut p, "x".to_string(), i32::MAX, 0);
    assert!(!p.anchor_fits());
}

#[test]
fn keys_commit_cancel_or_edit() {
    assert_eq!(edit_key(VK_RETURN), EditKey::Commit);
    assert_eq!(edit_key(VK_ESCAPE), EditKey::Cancel);
    assert_eq!(edit_key(0x41), EditKey::Edit);
}

#[test]
fn tools_are_named_and_found_by_name() {
    for t in [Tool::OcrAtCursor, Tool::OcrRegion, Tool::ReadClipboard] {
        assert_eq!(Tool::from_name(&t.name()), Some(t));
    }
    assert_eq!(Tool::from_name(&"ocr".to_string()), None);
    assert!(Tool::OcrAtCursor.is_capture());
    assert!(Tool::OcrRegion.is_capture());
    assert!(!Tool::ReadClipboard.is_capture());
}

#[test]
fn tool_catalog_has_descriptions() {
    let defs = all_tool_definitions();
    assert_eq!(defs.len(), 3);
    assert_eq!(defs[2].description, "Return the current clipboard text.");
    assert!(defs[0].description.contains("cursor"));
}

#[test]
fn tool_responses_carry_text() {
    let ok = ok_response(Id::Num(4), "abc".to_string());
    assert!(matches!(ok.result, Some(ResultBody::ToolCall { ref text, is_error: false }) if text == "abc"));
    let err = error_response(Id::Null, "boom".to_string());
    assert!(matches!(err.result, Some(ResultBody::ToolCall { ref text, is_error: true }) if text == "boom"));
    assert!(err.error.is_none());
}
