use glimpse::capture::{CapturedFrame, Rect};
use glimpse::config::Config;
use glimpse::ocr::{check_frame, ocr_result};
use glimpse::Error;

#[test]
fn box_at_base_dpi_keeps_logical_size() {
    let r = Rect::centred_on(1000, 500, 400, 100, 96);
    assert_eq!(r, Rect { x: 800, y: 450, width: 400, height: 100 });
}

#[test]
fn box_scales_with_dpi() {
    // 150% scaling.
    let r = Rect::centred_on(1000, 500, 400, 100, 144);
    assert_eq!(r, Rect { x: 700, y: 425, width: 600, height: 150 });
    // Rounds to the nearest pixel: 3 * 120 / 96 = 3.75 -> 4.
    let r = Rect::centred_on(0, 0, 3, 3, 120);
    assert_eq!(r, Rect { x: -2, y: -2, width: 4, height: 4 });
}

#[test]
fn empty_frame_is_rejected() {
    let f = CapturedFrame { width: 0, height: 10, pixels: vec![] };
    match check_frame(&f) {
        Err(Error::Ocr(m)) => assert_eq!(m, "empty frame"),
        other => panic!("unexpected {:?}", other),
    }
}

#[test]
fn wrong_buffer_length_is_rejected() {
    let f = CapturedFrame { width: 2, height: 3, pixels: vec![0; 23] };
    match check_frame(&f) {
        Err(Error::Ocr(m)) => assert_eq!(m, "pixel buffer length 23 does not match 2x3x4 = 24"),
        other => panic!("unexpected {:?}", other),
    }
}

#[test]
fn well_formed_frame_passes() {
    let f = CapturedFrame { width: 2, height: 3, pixels: vec![0; 24] };
    assert!(check_frame(&f).is_ok());
}

#[test]
fn config_defaults() {
    let c = Config::default();
    assert_eq!(c.hold_ms, 250);
    assert_eq!(c.drift_limit_px, 5);
    assert_eq!(c.capture_logical_w, 400);
    assert_eq!(c.capture_logical_h, 100);
    assert!(c.ocr_language.is_none());
    assert!(c.fallback_hotkey_enabled && c.auto_update_check && c.show_preview_popup);
}

#[test]
fn ocr_result_falls_back_to_undetermined_language() {
    let r = ocr_result("text".to_string(), None);
    assert_eq!(r.language, "und");
    let r = ocr_result("text".to_string(), Some("en-US".to_string()));
    assert_eq!((r.text.as_str(), r.language.as_str()), ("text", "en-US"));
}
