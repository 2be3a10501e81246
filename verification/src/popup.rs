//! The editable preview popup's decisions.
//!
//! After a fire the main loop hands the OCR text and the anchor point to
//! the popup thread, which shows the text near the anchor; Enter commits
//! the (possibly edited) text to the clipboard, Esc dismisses the popup.

use vstd::prelude::*;

verus! {

/// How far right of and below the anchor the popup appears, in pixels.
pub const POPUP_OFFSET: i32 = 12;

/// Virtual-key code of Enter.
pub const VK_RETURN: u16 = 0x0d;

/// Virtual-key code of Esc.
pub const VK_ESCAPE: u16 = 0x1b;

/// Text waiting to be shown, with its anchor point.
pub struct PopupPending {
    text: Option<String>,
    x: i32,
    y: i32,
}

/// The abstract state of a [`PopupPending`].
pub struct PopupView {
    pub text: Option<Seq<char>>,
    pub x: i32,
    pub y: i32,
}

impl View for PopupPending {
    type V = PopupView;

    closed spec fn view(&self) -> PopupView {
        PopupView {
            text: match self.text {
                Some(t) => Some(t@),
                None => None,
            },
            x: self.x,
            y: self.y,
        }
    }
}

/// What the popup shows: its text and its top-left corner.
pub struct PopupShow {
    pub text: String,
    pub x: i32,
    pub y: i32,
}

/// What a key pressed in the popup's edit field does.
#[derive(Debug, Clone, Copy, PartialEq, Eq, Structural)]
pub enum EditKey {
    /// Copy the edited text to the clipboard and hide the popup.
    Commit,
    /// Hide the popup; the clipboard keeps the silently copied text.
    Cancel,
    /// Ordinary editing.
    Edit,
}

impl PopupPending {
    /// Nothing pending.
    pub fn new() -> (p: Self)
        ensures
            p@ == (PopupView { text: None, x: 0, y: 0 }),
    {
        PopupPending { text: None, x: 0, y: 0 }
    }

    /// Whether the popup can be placed relative to the anchor without
    /// overflow.
    pub fn anchor_fits(&self) -> (b: bool)
        ensures
            b == (self@.x <= i32::MAX - POPUP_OFFSET && self@.y <= i32::MAX - POPUP_OFFSET),
    {
        self.x <= i32::MAX - POPUP_OFFSET && self.y <= i32::MAX - POPUP_OFFSET
    }

    /// Take the pending text for showing, placed `POPUP_OFFSET` pixels
    /// right of and below the anchor. The text is handed out once; with
    /// none pending the popup shows an empty field.
    pub fn take_for_show(&mut self) -> (s: PopupShow)
        requires
            old(self)@.x <= i32::MAX - POPUP_OFFSET,
            old(self)@.y <= i32::MAX - POPUP_OFFSET,
        ensures
            final(self)@ == (PopupView { text: None, ..old(self)@ }),
            s.text@ == shown_text(old(self)@),
            s.x == old(self)@.x + POPUP_OFFSET,
            s.y == old(self)@.y + POPUP_OFFSET,
    {
        let text = match self.text.take() {
            Some(t) => t,
            None => String::new(),
        };
        PopupShow { text, x: self.x + POPUP_OFFSET, y: self.y + POPUP_OFFSET }
    }
}

/// Queue `text` to be shown in the popup anchored at (`x`, `y`), replacing
/// whatever was pending.
pub fn show_editable(pending: &mut PopupPending, text: String, x: i32, y: i32)
    ensures
        final(pending)@ == (PopupView { text: Some(text@), x, y }),
{
    pending.text = Some(text);
    pending.x = x;
    pending.y = y;
}

/// What pressing the key with virtual-key code `vk` does.
pub fn edit_key(vk: u16) -> (k: EditKey)
    ensures
        k == (if vk == VK_RETURN {
            EditKey::Commit
        } else if vk == VK_ESCAPE {
            EditKey::Cancel
        } else {
            EditKey::Edit
        }),
{
    if vk == VK_RETURN {
        EditKey::Commit
    } else if vk == VK_ESCAPE {
        EditKey::Cancel
    } else {
        EditKey::Edit
    }
}

/// The text that showing the popup in state `v` displays.
pub open spec fn shown_text(v: PopupView) -> Seq<char> {
    match v.text {
        Some(t) => t,
        None => Seq::<char>::empty(),
    }
}

/// The popup shows the text most recently queued, once: showing again
/// without a new queueing shows an empty field.
pub proof fn lemma_latest_text_shown_once(v: PopupView, text: Seq<char>, x: i32, y: i32)
    ensures
        ({
            let queued = PopupView { text: Some(text), x, y };
            let after = PopupView { text: None, ..queued };
            shown_text(queued) == text && shown_text(after) == Seq::<char>::empty()
        }),
{
}

} // verus!
