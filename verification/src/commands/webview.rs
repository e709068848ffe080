//! The create request for the embedded child view, as a decision: from
//! what the host framework reports — whether the main window resolved,
//! whether the child view already exists, and the window's geometry — to
//! the action the framework is to perform. The framework performs the
//! window queries and the creation itself and hands their results in.

use crate::constants;
use crate::errors::CommandError;
use crate::utils::calculate_webview_bounds;
use crate::utils::spec_titlebar_phys;
use crate::utils::spec_view_bounds;
use crate::utils::Scale;
use crate::utils::ViewBounds;
use vstd::prelude::*;
use vstd::string::StringExecFns;

verus! {

/// Size and scale of the main window, as the host framework reports them.
#[derive(Clone, Copy, Debug, PartialEq, Eq, Structural)]
pub struct WindowGeometry {
    pub width: u32,
    pub height: u32,
    pub scale_factor: Scale,
}

impl WindowGeometry {
    /// The scale factor is positive and the scaled titlebar height fits
    /// the position coordinate.
    pub open spec fn wf(self) -> bool {
        &&& self.scale_factor.wf()
        &&& spec_titlebar_phys(constants::TITLEBAR_HEIGHT, self.scale_factor) <= i32::MAX
    }
}

/// The action the host framework is to perform for a create request.
#[derive(Clone, Copy, Debug, PartialEq, Eq, Structural)]
pub enum WebviewAction {
    /// A view with the child identifier already exists: nothing to do,
    /// the request still succeeds.
    AlreadyExists,
    /// Create the child view with these bounds.
    Create(ViewBounds),
}

/// The decision for a create request: no action resolves when the main
/// window is missing; an existing child view makes the request a no-op;
/// otherwise the child view is created below the titlebar.
pub open spec fn spec_create_gemini_webview(
    window: Option<WindowGeometry>,
    webview_exists: bool,
) -> Option<WebviewAction> {
    match window {
        None => None,
        Some(g) => if webview_exists {
            Some(WebviewAction::AlreadyExists)
        } else {
            Some(
                WebviewAction::Create(
                    spec_view_bounds(g.width, g.height, g.scale_factor, constants::TITLEBAR_HEIGHT),
                ),
            )
        },
    }
}

/// Decides what to do for a request to create the embedded child view.
///
/// The request fails only when the main window is missing. When the child
/// view already exists the request succeeds without directing a new view;
/// otherwise it directs creation with the bounds below the titlebar.
pub fn create_gemini_webview(window: Option<WindowGeometry>, webview_exists: bool) -> (r: Result<
    WebviewAction,
    CommandError,
>)
    requires
        window matches Some(g) ==> g.wf(),
    ensures
        r is Ok <==> window is Some,
        r matches Ok(a) ==> Some(a) == spec_create_gemini_webview(window, webview_exists),
        r matches Err(e) ==> e matches CommandError::WindowNotFound(m) && m@
            == "Main window not found"@,
{
    match window {
        None => Err(CommandError::WindowNotFound(String::from_str("Main window not found"))),
        Some(g) => {
            if webview_exists {
                Ok(WebviewAction::AlreadyExists)
            } else {
                let bounds = calculate_webview_bounds(
                    g.width,
                    g.height,
                    g.scale_factor,
                    constants::TITLEBAR_HEIGHT,
                );
                Ok(WebviewAction::Create(bounds))
            }
        },
    }
}

/// Creating the child view is idempotent: when a first create request
/// succeeded — so a view with the child identifier exists — a repeated
/// request with the same identifier succeeds as well, and directs no new
/// view to be created.
pub proof fn lemma_create_gemini_webview_idempotent(window: Option<WindowGeometry>)
    requires
        spec_create_gemini_webview(window, false) is Some,
    ensures
        spec_create_gemini_webview(window, true) == Some(WebviewAction::AlreadyExists),
{
}

} // verus!
