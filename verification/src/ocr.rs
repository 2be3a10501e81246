//! OCR results and the checks a captured frame must pass before it is
//! handed to the OCR engine.

use vstd::prelude::*;
use crate::capture::CapturedFrame;
use crate::error::Error;

verus! {

/// Text recognised in a frame.
#[derive(Debug, Clone)]
pub struct OcrResult {
    pub text: String,
    /// BCP-47 tag returned by the OCR engine (e.g. `"en-US"`).
    pub language: String,
}

/// The language reported with a recognition result: the engine's tag, or
/// `"und"` (undetermined) when the engine does not give one.
pub open spec fn reported_language(tag: Option<String>) -> Seq<char> {
    match tag {
        Some(t) => t@,
        None => "und"@,
    }
}

/// The result of a recognition that produced `text`, where `tag` is the
/// recogniser's language tag if it could be read.
pub fn ocr_result(text: String, tag: Option<String>) -> (r: OcrResult)
    ensures
        r.text == text,
        r.language@ == reported_language(tag),
{
    let language = match tag {
        Some(t) => t,
        None => String::from_str("und"),
    };
    OcrResult { text, language }
}

/// The decimal digit for `d` (0 to 9).
pub open spec fn digit_char(d: nat) -> char {
    if d == 0 { '0' }
    else if d == 1 { '1' }
    else if d == 2 { '2' }
    else if d == 3 { '3' }
    else if d == 4 { '4' }
    else if d == 5 { '5' }
    else if d == 6 { '6' }
    else if d == 7 { '7' }
    else if d == 8 { '8' }
    else { '9' }
}

/// `n` written in decimal, without leading zeros.
pub open spec fn decimal(n: nat) -> Seq<char>
    decreases n,
{
    if n < 10 {
        seq![digit_char(n)]
    } else {
        decimal(n / 10).push(digit_char(n % 10))
    }
}

/// The byte length that a `width` x `height` BGRA8 frame must have.
pub open spec fn frame_len(width: u32, height: u32) -> int {
    width * height * 4
}

/// The message for a pixel buffer of the wrong length:
/// `pixel buffer length {len} does not match {width}x{height}x4 = {expected}`.
pub open spec fn mismatch_message(len: nat, width: nat, height: nat, expected: nat) -> Seq<char> {
    "pixel buffer length "@ + decimal(len) + " does not match "@ + decimal(width) + "x"@
        + decimal(height) + "x4 = "@ + decimal(expected)
}

/// The message for a frame with no pixels.
pub open spec fn empty_frame_message() -> Seq<char> {
    "empty frame"@
}

/// `u64::to_string`: `n` written in decimal (its `Display` form).
#[verifier::external_body]
fn decimal_text(n: u64) -> (s: String)
    ensures
        s@ == decimal(n as nat),
{
    n.to_string()
}

/// `String::push_str`: appends `t`.
#[verifier::external_body]
fn push_text(s: &mut String, t: &str)
    ensures
        final(s)@ == old(s)@ + t@,
{
    s.push_str(t)
}

/// The message for a pixel buffer of `len` bytes where a `width` x
/// `height` frame needs `expected`.
fn mismatch_text(len: usize, width: u32, height: u32, expected: usize) -> (m: String)
    ensures
        m@ == mismatch_message(len as nat, width as nat, height as nat, expected as nat),
{
    let mut m = String::from_str("pixel buffer length ");
    push_text(&mut m, decimal_text(len as u64).as_str());
    push_text(&mut m, " does not match ");
    push_text(&mut m, decimal_text(width as u64).as_str());
    push_text(&mut m, "x");
    push_text(&mut m, decimal_text(height as u64).as_str());
    push_text(&mut m, "x4 = ");
    push_text(&mut m, decimal_text(expected as u64).as_str());
    m
}

/// Check that `frame` can be handed to the OCR engine: it is not empty and
/// its pixel buffer holds exactly `width * height` BGRA8 pixels.
pub fn check_frame(frame: &CapturedFrame) -> (r: Result<(), Error>)
    requires
        frame_len(frame.width, frame.height) <= usize::MAX,
    ensures
        (frame.width == 0 || frame.height == 0) ==> (r matches Err(Error::Ocr(m)) && m@
            == empty_frame_message()),
        (frame.width != 0 && frame.height != 0 && frame.pixels@.len() != frame_len(
            frame.width,
            frame.height,
        )) ==> (r matches Err(Error::Ocr(m)) && m@ == mismatch_message(
            frame.pixels@.len(),
            frame.width as nat,
            frame.height as nat,
            frame_len(frame.width, frame.height) as nat,
        )),
        r is Ok <==> (frame.width != 0 && frame.height != 0 && frame.pixels@.len() == frame_len(
            frame.width,
            frame.height,
        )),
{
    if frame.width == 0 || frame.height == 0 {
        return Err(Error::Ocr(String::from_str("empty frame")));
    }
    assert(frame.width as int * frame.height as int <= frame_len(frame.width, frame.height))
        by (nonlinear_arith)
        requires
            frame.width > 0,
            frame.height > 0,
    ;
    let expected = (frame.width as usize) * (frame.height as usize) * 4;
    if frame.pixels.len() != expected {
        return Err(
            Error::Ocr(mismatch_text(frame.pixels.len(), frame.width, frame.height, expected)),
        );
    }
    Ok(())
}

} // verus!
