//! Glimpse configuration (kept on disk as `config.json` in the user's
//! configuration directory; reading and writing the file is the daemon's
//! business).

use vstd::prelude::*;

verus! {

/// User settings; a missing field takes its default.
#[derive(Debug, Clone)]
pub struct Config {
    /// Gesture hold threshold in milliseconds.
    pub hold_ms: u64,
    /// Maximum cursor drift in physical pixels during hold before cancel.
    pub drift_limit_px: i32,
    /// Capture region width in DPI-independent pixels.
    pub capture_logical_w: u32,
    /// Capture region height in DPI-independent pixels.
    pub capture_logical_h: u32,
    /// BCP-47 language tag for OCR, or `None` to use the system default.
    pub ocr_language: Option<String>,
    /// Whether to enable the Ctrl+Shift+C fallback hotkey.
    pub fallback_hotkey_enabled: bool,
    /// Whether to check GitHub Releases for updates once a day.
    pub auto_update_check: bool,
    /// Whether to show the editable preview popup after each OCR. If false,
    /// text is silently copied with only a tray-icon flash.
    pub show_preview_popup: bool,
}

/// The default settings: a 250 ms hold, 5 px of drift, a 400 x 100 capture
/// box, the system OCR language, and hotkey, update check and preview popup
/// all on.
pub open spec fn is_default_config(c: Config) -> bool {
    &&& c.hold_ms == 250
    &&& c.drift_limit_px == 5
    &&& c.capture_logical_w == 400
    &&& c.capture_logical_h == 100
    &&& c.ocr_language is None
    &&& c.fallback_hotkey_enabled
    &&& c.auto_update_check
    &&& c.show_preview_popup
}

impl Default for Config {
    fn default() -> (c: Self)
        ensures
            is_default_config(c),
    {
        Config {
            hold_ms: 250,
            drift_limit_px: 5,
            capture_logical_w: 400,
            capture_logical_h: 100,
            ocr_language: None,
            fallback_hotkey_enabled: true,
            auto_update_check: true,
            show_preview_popup: true,
        }
    }
}

} // verus!
