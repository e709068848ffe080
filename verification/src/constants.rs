//! Shared configuration values: titlebar height, upstream URL, and the
//! labels of the main window and the embedded child view.

use vstd::prelude::*;

verus! {

/// Height of the custom titlebar in logical pixels.
pub const TITLEBAR_HEIGHT: u32 = 32;

/// URL of the remote service shown in the embedded child view.
pub fn gemini_url() -> (r: &'static str)
    ensures
        r@ == "https://gemini.google.com"@,
{
    "https://gemini.google.com"
}

/// Label that identifies the main application window.
pub fn main_window_label() -> (r: &'static str)
    ensures
        r@ == "main"@,
{
    "main"
}

/// Label that identifies the embedded child view.
pub fn gemini_webview_label() -> (r: &'static str)
    ensures
        r@ == "gemini-webview"@,
{
    "gemini-webview"
}

} // verus!
