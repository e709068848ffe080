//! Geometry for the embedded child view: given the window size, the DPI
//! scale factor and the logical titlebar height, compute the rectangle the
//! child view occupies below the titlebar.

use vstd::prelude::*;

verus! {

/// DPI scale factor, the ratio of physical to logical pixels, kept as an
/// exact ratio so the truncation when converting to physical pixels is
/// stated and proved precisely.
#[derive(Clone, Copy, Debug, PartialEq, Eq, Structural)]
pub struct Scale {
    pub numer: u32,
    pub denom: u32,
}

impl Scale {
    /// A scale factor is meaningful only when positive.
    pub open spec fn wf(self) -> bool {
        self.numer > 0 && self.denom > 0
    }

    /// Scale of a display whose physical and logical pixels coincide.
    pub fn unit() -> (r: Scale)
        ensures
            r.wf(),
            r == (Scale { numer: 1u32, denom: 1u32 }),
    {
        Scale { numer: 1, denom: 1 }
    }
}

/// Rectangle for the child view, in physical pixels.
#[derive(Clone, Copy, Debug, PartialEq, Eq, Structural)]
pub struct ViewBounds {
    pub x: i32,
    pub y: i32,
    pub width: u32,
    pub height: u32,
}

/// Titlebar height in physical pixels: the logical height scaled and
/// truncated toward zero.
pub open spec fn spec_titlebar_phys(titlebar_height: u32, scale_factor: Scale) -> int {
    (titlebar_height as int * scale_factor.numer as int) / (scale_factor.denom as int)
}

/// The rectangle the child view occupies: full window width, placed
/// directly below the titlebar, with the height clamped at zero when the
/// window is no taller than the titlebar.
pub open spec fn spec_view_bounds(
    window_width: u32,
    window_height: u32,
    scale_factor: Scale,
    titlebar_height: u32,
) -> ViewBounds
    recommends
        scale_factor.wf(),
        spec_titlebar_phys(titlebar_height, scale_factor) <= i32::MAX,
{
    let phys = spec_titlebar_phys(titlebar_height, scale_factor);
    ViewBounds {
        x: 0,
        y: phys as i32,
        width: window_width,
        height: if window_height > phys {
            (window_height - phys) as u32
        } else {
            0
        },
    }
}

/// Calculates the bounds of a child view positioned below a titlebar.
///
/// The child view always spans the full window width; its top edge sits at
/// the physical titlebar height, and its height is whatever remains of the
/// window below the titlebar, never negative.
pub fn calculate_webview_bounds(
    window_width: u32,
    window_height: u32,
    scale_factor: Scale,
    titlebar_height: u32,
) -> (r: ViewBounds)
    requires
        scale_factor.wf(),
        spec_titlebar_phys(titlebar_height, scale_factor) <= i32::MAX,
    ensures
        r == spec_view_bounds(window_width, window_height, scale_factor, titlebar_height),
        r.x == 0,
        r.y == spec_titlebar_phys(titlebar_height, scale_factor),
        r.width == window_width,
        r.height == if window_height > spec_titlebar_phys(titlebar_height, scale_factor) {
            window_height - spec_titlebar_phys(titlebar_height, scale_factor)
        } else {
            0
        },
        window_height <= spec_titlebar_phys(titlebar_height, scale_factor) ==> r.height == 0,
{
    proof {
        assert((titlebar_height as int) * (scale_factor.numer as int) <= (u32::MAX as int) * (
        u32::MAX as int)) by (nonlinear_arith)
            requires
                0 <= titlebar_height as int <= u32::MAX as int,
                0 <= scale_factor.numer as int <= u32::MAX as int,
        ;
    }
    let num: u64 = (titlebar_height as u64) * (scale_factor.numer as u64);
    let phys64: u64 = num / (scale_factor.denom as u64);
    let phys: u32 = phys64 as u32;
    let height: u32 = if window_height > phys {
        window_height - phys
    } else {
        0
    };
    ViewBounds { x: 0, y: phys as i32, width: window_width, height }
}

} // verus!
