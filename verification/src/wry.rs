//! Names shared with the webview engine.

pub mod enums;
