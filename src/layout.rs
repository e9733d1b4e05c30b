use vstd::prelude::*;

verus! {

/// A rectangle of the window in physical pixels; `y` counts from the top.
#[derive(Clone, Copy, Debug, PartialEq, Eq, Structural)]
pub struct ViewportRect {
    pub x: u32,
    pub y: u32,
    pub width: u32,
    pub height: u32,
}

/// Which gizmo the viewport is laid out for.
#[derive(Clone, Copy, Debug, PartialEq, Eq, Structural)]
pub enum GizmoLayout {
    /// The clickable view cube: the lower left fifth of the width, lowest
    /// three tenths of the height.
    Full,
    /// The small axis indicator: the lower left tenth of each dimension.
    Corner,
}

/// The fractions of the window, in tenths, that a layout uses:
/// top edge, width and height of the rectangle.
pub open spec fn tenths(layout: GizmoLayout) -> (int, int, int) {
    match layout {
        GizmoLayout::Full => (7, 2, 3),
        GizmoLayout::Corner => (9, 1, 1),
    }
}

/// The rectangle of a layout in a window of the given size, each coordinate
/// rounded down to a whole pixel.
pub open spec fn viewport_of(layout: GizmoLayout, window_width: u32, window_height: u32) -> ViewportRect {
    let (top, w, h) = tenths(layout);
    ViewportRect {
        x: 0,
        y: (top * window_height / 10) as u32,
        width: (w * window_width / 10) as u32,
        height: (h * window_height / 10) as u32,
    }
}

/// `n` tenths of `size`, rounded down.
fn tenths_of(size: u32, n: u32) -> (r: u32)
    requires
        n <= 10,
    ensures
        r == n * size / 10,
        r <= size,
{
    proof {
        assert((size as int) * (n as int) <= 10 * (size as int)) by (nonlinear_arith)
            requires
                n <= 10,
        ;
    }
    let wide: u64 = (size as u64) * (n as u64);
    proof {
        assert(wide <= 10 * (size as int)) by (nonlinear_arith)
            requires
                wide == (size as int) * (n as int),
                n <= 10,
        ;
    }
    (wide / 10) as u32
}

/// The gizmo's viewport for the current window size.
pub fn viewport_rect(layout: GizmoLayout, window_width: u32, window_height: u32) -> (r: ViewportRect)
    ensures
        r == viewport_of(layout, window_width, window_height),
        r.x == 0,
        r.y + r.height <= window_height,
        r.width <= window_width,
{
    let (top, w, h): (u32, u32, u32) = match layout {
        GizmoLayout::Full => (7, 2, 3),
        GizmoLayout::Corner => (9, 1, 1),
    };
    let r = ViewportRect {
        x: 0,
        y: tenths_of(window_height, top),
        width: tenths_of(window_width, w),
        height: tenths_of(window_height, h),
    };
    proof {
        let hh = window_height as int;
        assert(top * hh / 10 + h * hh / 10 <= hh) by (nonlinear_arith)
            requires
                top + h == 10,
                hh >= 0,
        ;
    }
    r
}

/// Doubling the window width doubles the viewport width, and the viewport
/// stays at the left edge, whenever the exact scaled width (the layout's
/// tenths of the window width) has a fractional part below one half; above
/// that, rounding the doubled size down keeps one pixel more than twice the
/// rounded original.
pub proof fn lemma_width_doubles(layout: GizmoLayout, window_width: u32, window_height: u32)
    requires
        2 * window_width <= u32::MAX,
        (tenths(layout).1 * window_width) % 10 < 5,
    ensures
        viewport_of(layout, (2 * window_width) as u32, window_height).width == 2 * viewport_of(
            layout,
            window_width,
            window_height,
        ).width,
        viewport_of(layout, (2 * window_width) as u32, window_height).x == 0,
        viewport_of(layout, window_width, window_height).x == 0,
{
    let w = window_width as int;
    let f = tenths(layout).1;
    assert(f * (2 * w) / 10 == 2 * (f * w / 10)) by (nonlinear_arith)
        requires
            (f * w) % 10 < 5,
            w >= 0,
            f >= 0,
    ;
}

/// Where the gizmo's indicator takes its rotation from.
#[derive(Clone, Copy, Debug, PartialEq, Eq, Structural)]
pub enum IndicatorSource {
    /// The inverse of the bound camera's live rotation.
    InverseOfCamera,
    /// No single bound camera: the identity rotation.
    Identity,
}

/// What the synchronizer writes on one tick.
#[derive(Clone, Copy, Debug, PartialEq, Eq, Structural)]
pub struct GizmoFrame {
    pub viewport: ViewportRect,
    pub indicator: IndicatorSource,
}

/// The gizmo's state for one tick: the viewport for the window size, and the
/// source of the indicator's rotation. The indicator follows the camera only
/// when exactly one camera is bound; otherwise it falls back to identity.
pub fn sync_frame(layout: GizmoLayout, window_width: u32, window_height: u32, bound_cameras: usize) -> (r:
    GizmoFrame)
    ensures
        r.viewport == viewport_of(layout, window_width, window_height),
        r.indicator == (if bound_cameras == 1 {
            IndicatorSource::InverseOfCamera
        } else {
            IndicatorSource::Identity
        }),
{
    let viewport = viewport_rect(layout, window_width, window_height);
    let indicator = if bound_cameras == 1 {
        IndicatorSource::InverseOfCamera
    } else {
        IndicatorSource::Identity
    };
    GizmoFrame { viewport, indicator }
}

} // verus!
