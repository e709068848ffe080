//! Commands the frontend invokes on the shell.

pub mod webview;

pub use webview::create_gemini_webview;
