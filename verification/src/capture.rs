//! Screen-capture geometry and frames.

use vstd::prelude::*;

verus! {

/// A captured screen region as raw BGRA8 pixels.
#[derive(Debug, Clone)]
pub struct CapturedFrame {
    pub width: u32,
    pub height: u32,
    /// Tightly packed BGRA8 (B,G,R,A,B,G,R,A,...).
    pub pixels: Vec<u8>,
}

/// Virtual-desktop screen rectangle.
#[derive(Debug, Clone, Copy, PartialEq, Eq, Structural)]
pub struct Rect {
    pub x: i32,
    pub y: i32,
    pub width: u32,
    pub height: u32,
}

/// The DPI at which one logical pixel is one physical pixel.
pub const BASE_DPI: u32 = 96;

/// `logical` DPI-independent pixels in physical pixels at `dpi`, rounded to
/// the nearest pixel (halves up).
pub open spec fn scaled(logical: u32, dpi: u32) -> int {
    (logical * dpi + 48) / 96
}

/// The box of `width` x `height` physical pixels centred on (`cx`, `cy`):
/// its top-left corner lies half the size (rounded down) above and left of
/// the centre.
pub open spec fn centred_box(cx: i32, cy: i32, width: int, height: int) -> (int, int) {
    (cx - width / 2, cy - height / 2)
}

impl Rect {
    /// DPI-aware box centred on (`cx`, `cy`).
    ///
    /// `logical_w` / `logical_h` are in DPI-independent pixels; they are
    /// scaled to physical pixels with `dpi`, the DPI of the monitor under
    /// the cursor (96 is unscaled).
    pub fn centred_on(cx: i32, cy: i32, logical_w: u32, logical_h: u32, dpi: u32) -> (r: Rect)
        requires
            scaled(logical_w, dpi) <= u32::MAX,
            scaled(logical_h, dpi) <= u32::MAX,
            centred_box(cx, cy, scaled(logical_w, dpi), scaled(logical_h, dpi)).0 >= i32::MIN,
            centred_box(cx, cy, scaled(logical_w, dpi), scaled(logical_h, dpi)).1 >= i32::MIN,
        ensures
            r.width == scaled(logical_w, dpi),
            r.height == scaled(logical_h, dpi),
            (r.x as int, r.y as int) == centred_box(cx, cy, r.width as int, r.height as int),
    {
        let w64: u64 = (logical_w as u64 * dpi as u64 + 48) / 96;
        let h64: u64 = (logical_h as u64 * dpi as u64 + 48) / 96;
        let width = w64 as u32;
        let height = h64 as u32;
        let x64: i64 = cx as i64 - (w64 / 2) as i64;
        let y64: i64 = cy as i64 - (h64 / 2) as i64;
        Rect { x: x64 as i32, y: y64 as i32, width, height }
    }
}

/// A centred box of non-zero size contains its centre, and at the base DPI
/// logical and physical sizes agree.
pub proof fn lemma_centred_box_holds_centre(cx: i32, cy: i32, logical_w: u32, logical_h: u32, dpi: u32)
    ensures
        ({
            let w = scaled(logical_w, dpi);
            let h = scaled(logical_h, dpi);
            let (x, y) = centred_box(cx, cy, w, h);
            w > 0 && h > 0 ==> x <= cx < x + w && y <= cy < y + h
        }),
        scaled(logical_w, BASE_DPI) == logical_w,
{
}

} // verus!
