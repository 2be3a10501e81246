//! Glimpse: read any text on screen.
//!
//! The verified core of Glimpse: the post-OCR cleanup pipeline, the
//! mouse-gesture state machine, the mouse-hook event translation, the
//! per-session capture permissions, the capture geometry, the frame checks
//! done before OCR, the progress-ring state, the preview popup, the configuration defaults
//! and the MCP server's request handling.

pub mod cleanup;
pub mod gesture;
pub mod session_table;
pub mod permission;
pub mod prompt;
pub mod popup;
pub mod hook;
pub mod ring;
pub mod outside;
pub mod error;
pub mod capture;
pub mod ocr;
pub mod config;
pub mod mcp;

pub use error::{Error, Result};
pub use config::Config;
pub use gesture::{Gesture, GestureEvent, GestureOutcome};
