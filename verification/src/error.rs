//! Crate-wide error type.

use vstd::prelude::*;

verus! {

/// What can go wrong in capture, OCR, clipboard access or configuration.
#[derive(Debug)]
pub enum Error {
    Capture(String),
    Ocr(String),
    Clipboard(String),
    Config(String),
    Io(std::io::Error),
    Json(serde_json::Error),
}

pub type Result<T> = std::result::Result<T, Error>;

} // verus!
