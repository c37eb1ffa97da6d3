//! Projection of world space onto the viewport.
//!
//! World coordinates count thousandths of a pixel at zoom 1, the zoom counts
//! thousandths, and screen coordinates count millionths of a pixel, so that the
//! projection is exact: `screen = (world - center) * zoom + viewport / 2`.
use vstd::prelude::*;

use crate::graph::{point_in_bounds, Point, COORD_LIMIT};

verus! {

/// The largest zoom, in thousandths.
pub const ZOOM_LIMIT: i64 = 1_048_576;

/// The largest viewport side, in pixels.
pub const VIEWPORT_LIMIT: i64 = 1_073_741_824;

/// A point of the viewport, in millionths of a pixel from its top left corner.
#[derive(Debug, Clone, Copy, PartialEq, Eq, Structural)]
pub struct ScreenPoint {
    pub x: i64,
    pub y: i64,
}

/// What is shown of world space: the world point at the viewport's middle,
/// the zoom in thousandths, and the viewport's size in pixels.
#[derive(Debug, Clone, Copy, PartialEq, Eq, Structural)]
pub struct Camera {
    pub center: Point,
    pub zoom: i64,
    pub viewport_width: i64,
    pub viewport_height: i64,
}

/// A screen coordinate: `world - center`, scaled by `zoom`, plus half the
/// viewport side (in millionths of a pixel).
pub open spec fn project(world: int, center: int, zoom: int, side: int) -> int {
    (world - center) * zoom + side * 500_000
}

impl Camera {
    pub open spec fn wf(&self) -> bool {
        &&& point_in_bounds(self.center)
        &&& 0 < self.zoom <= ZOOM_LIMIT
        &&& 0 <= self.viewport_width <= VIEWPORT_LIMIT
        &&& 0 <= self.viewport_height <= VIEWPORT_LIMIT
    }

    pub open spec fn screen_of(&self, p: Point) -> ScreenPoint {
        ScreenPoint {
            x: project(p.x as int, self.center.x as int, self.zoom as int, self.viewport_width as int) as i64,
            y: project(p.y as int, self.center.y as int, self.zoom as int, self.viewport_height as int) as i64,
        }
    }

    pub open spec fn scaled(&self, v: int) -> int {
        v * self.zoom
    }

    /// The camera first set up for a viewport of `width` by `height` pixels:
    /// centered on the viewport's middle, at zoom 1.
    pub fn for_viewport(width: i64, height: i64) -> (r: Camera)
        requires
            0 <= width <= VIEWPORT_LIMIT,
            0 <= height <= VIEWPORT_LIMIT,
        ensures
            r.wf(),
            r.center.x == width * 500,
            r.center.y == height * 500,
            r.zoom == 1000,
            r.viewport_width == width,
            r.viewport_height == height,
    {
        Camera {
            center: Point { x: width * 500, y: height * 500 },
            zoom: 1000,
            viewport_width: width,
            viewport_height: height,
        }
    }

    /// Where world point `p` appears on the viewport.
    pub fn world_to_screen(&self, p: Point) -> (r: ScreenPoint)
        requires
            self.wf(),
            point_in_bounds(p),
        ensures
            r.x as int == project(p.x as int, self.center.x as int, self.zoom as int, self.viewport_width as int),
            r.y as int == project(p.y as int, self.center.y as int, self.zoom as int, self.viewport_height as int),
            r == self.screen_of(p),
    {
        proof {
            lemma_projection_fits(p.x as int, self.center.x as int, self.zoom as int, self.viewport_width as int);
            lemma_projection_fits(p.y as int, self.center.y as int, self.zoom as int, self.viewport_height as int);
        }
        let x = (p.x - self.center.x) * self.zoom + self.viewport_width * 500_000;
        let y = (p.y - self.center.y) * self.zoom + self.viewport_height * 500_000;
        ScreenPoint { x, y }
    }

    /// How long a world length `v` (a radius, a line width) appears on the
    /// viewport.
    pub fn value_to_screen(&self, v: i64) -> (r: i64)
        requires
            self.wf(),
            -COORD_LIMIT <= v <= COORD_LIMIT,
        ensures
            r as int == self.scaled(v as int),
    {
        proof {
            lemma_scaling_fits(v as int, self.zoom as int);
        }
        v * self.zoom
    }
}

proof fn lemma_scaling_fits(v: int, zoom: int)
    requires
        -COORD_LIMIT <= v <= COORD_LIMIT,
        0 < zoom <= ZOOM_LIMIT,
    ensures
        -0x1000_0000_0000_0000 <= v * zoom <= 0x1000_0000_0000_0000,
{
    assert(-1_099_511_627_776 * zoom <= v * zoom <= 1_099_511_627_776 * zoom) by (nonlinear_arith)
        requires
            -1_099_511_627_776 <= v <= 1_099_511_627_776,
            0 < zoom,
    ;
    assert(1_099_511_627_776 * zoom <= 1_099_511_627_776 * 1_048_576) by (nonlinear_arith)
        requires
            0 < zoom <= 1_048_576,
    ;
}

proof fn lemma_projection_fits(w: int, c: int, zoom: int, side: int)
    requires
        -COORD_LIMIT <= w <= COORD_LIMIT,
        -COORD_LIMIT <= c <= COORD_LIMIT,
        0 < zoom <= ZOOM_LIMIT,
        0 <= side <= VIEWPORT_LIMIT,
    ensures
        -0x2000_0000_0000_0000 <= (w - c) * zoom <= 0x2000_0000_0000_0000,
        -0x2000_0000_0000_0000 <= (w - c) * zoom + side * 500_000 <= 0x2010_0000_0000_0000,
{
    let d = w - c;
    assert(-2_199_023_255_552 * zoom <= d * zoom <= 2_199_023_255_552 * zoom) by (nonlinear_arith)
        requires
            -2_199_023_255_552 <= d <= 2_199_023_255_552,
            0 < zoom,
    ;
    assert(2_199_023_255_552 * zoom <= 2_199_023_255_552 * 1_048_576) by (nonlinear_arith)
        requires
            0 < zoom <= 1_048_576,
    ;
}

/// The middle of the view, `center`, appears at the middle of the viewport,
/// whatever the zoom.
pub proof fn lemma_center_at_viewport_middle(c: Camera)
    requires
        c.wf(),
    ensures
        c.screen_of(c.center).x as int == c.viewport_width * 500_000,
        c.screen_of(c.center).y as int == c.viewport_height * 500_000,
{
}

/// Lengths on the viewport are proportional to the zoom: twice the zoom gives
/// twice the length, and in general `k` times the zoom gives `k` times it.
pub proof fn lemma_scaled_linear_in_zoom(c1: Camera, c2: Camera, k: int, v: int)
    requires
        c2.zoom == k * c1.zoom,
    ensures
        c2.scaled(v) == k * c1.scaled(v),
        c2.zoom == 2 * c1.zoom ==> c2.scaled(v) == 2 * c1.scaled(v),
{
    assert(v * (k * c1.zoom) == k * (v * c1.zoom)) by (nonlinear_arith);
    assert(v * (2 * c1.zoom) == 2 * (v * c1.zoom)) by (nonlinear_arith);
}

} // verus!
