//! Mapping surface pixels to canvas coordinates by inverting the display
//! camera and then the canvas camera, and the forward mapping back.
use vstd::prelude::*;
use crate::canvas::{CanvasConfig, Ratio};
use crate::compositor::Compositor;

verus! {

/// A point in canvas space: `(x / den, y / den)` pixels from the canvas's
/// top-left corner.
#[derive(Clone, Copy, Debug, PartialEq, Eq, Structural)]
pub struct CanvasPos {
    pub x: i128,
    pub y: i128,
    pub den: u64,
}

/// A point in surface space: `(x / den, y / den)` pixels from the surface's
/// top-left corner.
#[derive(Clone, Copy, Debug, PartialEq, Eq, Structural)]
pub struct SurfacePos {
    pub x: i128,
    pub y: i128,
    pub den: u128,
}

/// Numerator, over `2 * z.den`, of the canvas coordinate of surface pixel
/// coordinate `p`: the surface centre maps to the canvas centre, and one
/// surface pixel spans `z` canvas pixels.
pub open spec fn canvas_num(p: int, surface: int, res: int, z: Ratio) -> int {
    (2 * p - surface) * z.num + res * z.den
}

/// Numerator, over `forward_den(den, z)`, of the surface coordinate of the
/// canvas coordinate `c / den`.
pub open spec fn forward_num(c: int, den: int, surface: int, res: int, z: Ratio) -> int {
    2 * c * z.den - res * den * z.den + surface * den * z.num
}

/// Denominator of the surface coordinate of a canvas coordinate over `den`.
pub open spec fn forward_den(den: int, z: Ratio) -> int {
    2 * den * z.num
}

/// `v` held inside `[lo, hi]`.
pub open spec fn clamp_int(v: int, lo: int, hi: int) -> int {
    if v < lo {
        lo
    } else if v > hi {
        hi
    } else {
        v
    }
}

impl Compositor {
    /// The canvas point shown at surface pixel `(x, y)`, if any: `None` when
    /// the display camera has no usable scale, when the pixel lies outside
    /// the surface, or when it lies outside the render target.
    pub open spec fn spec_viewport_to_canvas(self, x: int, y: int) -> Option<CanvasPos> {
        let z = self.window_camera.scale;
        let den = 2 * z.den;
        let cx = canvas_num(x, self.surface_w as int, self.target.width as int, z);
        let cy = canvas_num(y, self.surface_h as int, self.target.height as int, z);
        if !z.is_finite_positive() {
            None
        } else if !(0 <= x <= self.surface_w && 0 <= y <= self.surface_h) {
            None
        } else if !(0 <= cx <= self.target.width * den && 0 <= cy <= self.target.height * den) {
            None
        } else {
            Some(CanvasPos { x: cx as i128, y: cy as i128, den: den as u64 })
        }
    }

    /// The surface point at which canvas point `pos` is shown.
    pub open spec fn spec_canvas_to_viewport(self, pos: CanvasPos) -> SurfacePos {
        let z = self.window_camera.scale;
        SurfacePos {
            x: forward_num(
                pos.x as int,
                pos.den as int,
                self.surface_w as int,
                self.target.width as int,
                z,
            ) as i128,
            y: forward_num(
                pos.y as int,
                pos.den as int,
                self.surface_h as int,
                self.target.height as int,
                z,
            ) as i128,
            den: forward_den(pos.den as int, z) as u128,
        }
    }

    /// Converts a surface pixel to canvas space, inverting the display
    /// camera first and the canvas camera second.
    pub fn viewport_to_canvas(&self, x: i64, y: i64) -> (r: Option<CanvasPos>)
        ensures
            r == self.spec_viewport_to_canvas(x as int, y as int),
    {
        let z = self.window_camera.scale;
        if z.num == 0 || z.den == 0 {
            return None;
        }
        if x < 0 || x > self.surface_w as i64 || y < 0 || y > self.surface_h as i64 {
            return None;
        }
        let n = z.num as i128;
        let d = z.den as i128;
        let sw = self.surface_w as i128;
        let sh = self.surface_h as i128;
        let rw = self.target.width as i128;
        let rh = self.target.height as i128;
        let ox = 2 * (x as i128) - sw;
        let oy = 2 * (y as i128) - sh;
        proof {
            assert(-0x1_0000_0000 * 0x1_0000_0000 < ox * n < 0x1_0000_0000 * 0x1_0000_0000) by (nonlinear_arith)
                requires -0x1_0000_0000 < ox < 0x1_0000_0000, 0 < n < 0x1_0000_0000;
            assert(-0x1_0000_0000 * 0x1_0000_0000 < oy * n < 0x1_0000_0000 * 0x1_0000_0000) by (nonlinear_arith)
                requires -0x1_0000_0000 < oy < 0x1_0000_0000, 0 < n < 0x1_0000_0000;
            assert(0 <= rw * d < 0x1_0000_0000 * 0x1_0000_0000) by (nonlinear_arith)
                requires 0 <= rw < 0x1_0000_0000, 0 < d < 0x1_0000_0000;
            assert(0 <= rh * d < 0x1_0000_0000 * 0x1_0000_0000) by (nonlinear_arith)
                requires 0 <= rh < 0x1_0000_0000, 0 < d < 0x1_0000_0000;
            assert(0 <= rw * (2 * d) < 0x2_0000_0000 * 0x1_0000_0000) by (nonlinear_arith)
                requires 0 <= rw < 0x1_0000_0000, 0 < d < 0x1_0000_0000;
            assert(0 <= rh * (2 * d) < 0x2_0000_0000 * 0x1_0000_0000) by (nonlinear_arith)
                requires 0 <= rh < 0x1_0000_0000, 0 < d < 0x1_0000_0000;
        }
        let cx = ox * n + rw * d;
        let cy = oy * n + rh * d;
        let den = 2 * d;
        if cx < 0 || cx > rw * den || cy < 0 || cy > rh * den {
            return None;
        }
        Some(CanvasPos { x: cx, y: cy, den: den as u64 })
    }
    /// Projects a canvas point forward onto the surface, through the canvas
    /// camera and then the display camera.
    pub fn canvas_to_viewport(&self, pos: &CanvasPos) -> (r: SurfacePos)
        requires
            self.window_camera.scale.is_finite_positive(),
            0 < pos.den <= 0x4_0000_0000,
            -0x40_0000_0000_0000_0000 <= pos.x <= 0x40_0000_0000_0000_0000,
            -0x40_0000_0000_0000_0000 <= pos.y <= 0x40_0000_0000_0000_0000,
        ensures
            r == self.spec_canvas_to_viewport(*pos),
    {
        let z = self.window_camera.scale;
        let n = z.num as i128;
        let d = z.den as i128;
        let big = pos.den as i128;
        let sw = self.surface_w as i128;
        let sh = self.surface_h as i128;
        let rw = self.target.width as i128;
        let rh = self.target.height as i128;
        proof {
            assert(-0x80_0000_0000_0000_0000 * 0x1_0000_0000 <= 2 * pos.x * d
                <= 0x80_0000_0000_0000_0000 * 0x1_0000_0000) by (nonlinear_arith)
                requires
                    -0x40_0000_0000_0000_0000 <= pos.x <= 0x40_0000_0000_0000_0000,
                    0 < d < 0x1_0000_0000;
            assert(-0x80_0000_0000_0000_0000 * 0x1_0000_0000 <= 2 * pos.y * d
                <= 0x80_0000_0000_0000_0000 * 0x1_0000_0000) by (nonlinear_arith)
                requires
                    -0x40_0000_0000_0000_0000 <= pos.y <= 0x40_0000_0000_0000_0000,
                    0 < d < 0x1_0000_0000;
            assert(0 <= rw * big <= 0x1_0000_0000 * 0x4_0000_0000) by (nonlinear_arith)
                requires 0 <= rw < 0x1_0000_0000, 0 < big <= 0x4_0000_0000;
            assert(0 <= rh * big <= 0x1_0000_0000 * 0x4_0000_0000) by (nonlinear_arith)
                requires 0 <= rh < 0x1_0000_0000, 0 < big <= 0x4_0000_0000;
            assert(0 <= sw * big <= 0x1_0000_0000 * 0x4_0000_0000) by (nonlinear_arith)
                requires 0 <= sw < 0x1_0000_0000, 0 < big <= 0x4_0000_0000;
            assert(0 <= sh * big <= 0x1_0000_0000 * 0x4_0000_0000) by (nonlinear_arith)
                requires 0 <= sh < 0x1_0000_0000, 0 < big <= 0x4_0000_0000;
            assert(0 <= rw * big * d <= 0x1_0000_0000 * 0x4_0000_0000 * 0x1_0000_0000)
                by (nonlinear_arith)
                requires 0 <= rw < 0x1_0000_0000, 0 < big <= 0x4_0000_0000, 0 < d < 0x1_0000_0000;
            assert(0 <= rh * big * d <= 0x1_0000_0000 * 0x4_0000_0000 * 0x1_0000_0000)
                by (nonlinear_arith)
                requires 0 <= rh < 0x1_0000_0000, 0 < big <= 0x4_0000_0000, 0 < d < 0x1_0000_0000;
            assert(0 <= sw * big * n <= 0x1_0000_0000 * 0x4_0000_0000 * 0x1_0000_0000)
                by (nonlinear_arith)
                requires 0 <= sw < 0x1_0000_0000, 0 < big <= 0x4_0000_0000, 0 < n < 0x1_0000_0000;
            assert(0 <= sh * big * n <= 0x1_0000_0000 * 0x4_0000_0000 * 0x1_0000_0000)
                by (nonlinear_arith)
                requires 0 <= sh < 0x1_0000_0000, 0 < big <= 0x4_0000_0000, 0 < n < 0x1_0000_0000;
            assert(0 < 2 * big * n <= 0x8_0000_0000 * 0x1_0000_0000) by (nonlinear_arith)
                requires 0 < n < 0x1_0000_0000, 0 < big <= 0x4_0000_0000;
        }
        let x = 2 * pos.x * d - rw * big * d + sw * big * n;
        let y = 2 * pos.y * d - rh * big * d + sh * big * n;
        let den = 2 * big * n;
        SurfacePos { x, y, den: den as u128 }
    }
    /// Where the OS cursor at surface pixel `(x, y)` must be moved to stay
    /// over the visible canvas, or `None` when it may stay. The visible canvas
    /// spans `(surface - resolution * magnification) / 2` to
    /// `(surface + resolution * magnification) / 2` on each axis, where the
    /// magnification is `z.den / z.num`; the bounds are over `2 * z.num`.
    pub open spec fn spec_lock_cursor(self, config: CanvasConfig, x: int, y: int) -> Option<
        SurfacePos,
    > {
        let z = self.window_camera.scale;
        let den = 2 * z.num;
        let cx = clamp_int(
            x * den,
            self.surface_w * z.num - config.width * z.den,
            self.surface_w * z.num + config.width * z.den,
        );
        let cy = clamp_int(
            y * den,
            self.surface_h * z.num - config.height * z.den,
            self.surface_h * z.num + config.height * z.den,
        );
        if !config.lock_cursor || !z.is_finite_positive() {
            None
        } else if cx == x * den && cy == y * den {
            None
        } else {
            Some(SurfacePos { x: cx as i128, y: cy as i128, den: den as u128 })
        }
    }

    /// Keeps the OS cursor over the visible canvas when `config` asks for it.
    pub fn lock_cursor(&self, config: &CanvasConfig, x: i64, y: i64) -> (r: Option<SurfacePos>)
        ensures
            r == self.spec_lock_cursor(*config, x as int, y as int),
    {
        let z = self.window_camera.scale;
        if !config.lock_cursor || z.num == 0 || z.den == 0 {
            return None;
        }
        let n = z.num as i128;
        let d = z.den as i128;
        let den = 2 * n;
        proof {
            assert(-0x8000_0000_0000_0000 * 0x2_0000_0000 <= x * den <= 0x8000_0000_0000_0000
                * 0x2_0000_0000) by (nonlinear_arith)
                requires
                    -0x8000_0000_0000_0000 <= x < 0x8000_0000_0000_0000,
                    0 < den <= 0x2_0000_0000;
            assert(-0x8000_0000_0000_0000 * 0x2_0000_0000 <= y * den <= 0x8000_0000_0000_0000
                * 0x2_0000_0000) by (nonlinear_arith)
                requires
                    -0x8000_0000_0000_0000 <= y < 0x8000_0000_0000_0000,
                    0 < den <= 0x2_0000_0000;
            assert(0 <= self.surface_w * n <= 0x1_0000_0000 * 0x1_0000_0000) by (nonlinear_arith)
                requires 0 <= self.surface_w < 0x1_0000_0000, 0 < n < 0x1_0000_0000;
            assert(0 <= self.surface_h * n <= 0x1_0000_0000 * 0x1_0000_0000) by (nonlinear_arith)
                requires 0 <= self.surface_h < 0x1_0000_0000, 0 < n < 0x1_0000_0000;
            assert(0 <= config.width * d <= 0x1_0000_0000 * 0x1_0000_0000) by (nonlinear_arith)
                requires 0 <= config.width < 0x1_0000_0000, 0 < d < 0x1_0000_0000;
            assert(0 <= config.height * d <= 0x1_0000_0000 * 0x1_0000_0000) by (nonlinear_arith)
                requires 0 <= config.height < 0x1_0000_0000, 0 < d < 0x1_0000_0000;
        }
        let px = x as i128 * den;
        let py = y as i128 * den;
        let lo_x = self.surface_w as i128 * n - config.width as i128 * d;
        let hi_x = self.surface_w as i128 * n + config.width as i128 * d;
        let lo_y = self.surface_h as i128 * n - config.height as i128 * d;
        let hi_y = self.surface_h as i128 * n + config.height as i128 * d;
        let cx = if px < lo_x {
            lo_x
        } else if px > hi_x {
            hi_x
        } else {
            px
        };
        let cy = if py < lo_y {
            lo_y
        } else if py > hi_y {
            hi_y
        } else {
            py
        };
        if cx == px && cy == py {
            None
        } else {
            Some(SurfacePos { x: cx, y: cy, den: den as u128 })
        }
    }
}

/// A surface pixel that maps into the canvas maps back onto itself: the
/// forward projection of its canvas point is exactly `(x, y)`.
pub proof fn lemma_canvas_round_trip(c: Compositor, x: int, y: int)
    requires
        c.spec_viewport_to_canvas(x, y) is Some,
    ensures
        ({
            let pos = c.spec_viewport_to_canvas(x, y)->0;
            let back = c.spec_canvas_to_viewport(pos);
            &&& 0 < pos.den <= 0x4_0000_0000
            &&& 0 <= pos.x <= 0x40_0000_0000_0000_0000
            &&& 0 <= pos.y <= 0x40_0000_0000_0000_0000
            &&& back.den > 0
            &&& back.x == x * back.den
            &&& back.y == y * back.den
        }),
{
    let z = c.window_camera.scale;
    let n = z.num as int;
    let d = z.den as int;
    let pos = c.spec_viewport_to_canvas(x, y)->0;
    let rw = c.target.width as int;
    let rh = c.target.height as int;
    let sw = c.surface_w as int;
    let sh = c.surface_h as int;
    assert(rw * (2 * d) <= 0x1_0000_0000 * 0x2_0000_0000) by (nonlinear_arith)
        requires 0 <= rw < 0x1_0000_0000, 0 < d < 0x1_0000_0000;
    assert(rh * (2 * d) <= 0x1_0000_0000 * 0x2_0000_0000) by (nonlinear_arith)
        requires 0 <= rh < 0x1_0000_0000, 0 < d < 0x1_0000_0000;
    assert(0 < 2 * (2 * d) * n <= 0x4_0000_0000 * 0x1_0000_0000) by (nonlinear_arith)
        requires 0 < n < 0x1_0000_0000, 0 < d < 0x1_0000_0000;
    let cx = canvas_num(x, sw, rw, z);
    let cy = canvas_num(y, sh, rh, z);
    assert(forward_num(cx, 2 * d, sw, rw, z) == x * forward_den(2 * d, z)) by (nonlinear_arith)
        requires
            cx == (2 * x - sw) * n + rw * d,
            n == z.num,
            d == z.den;
    assert(forward_num(cy, 2 * d, sh, rh, z) == y * forward_den(2 * d, z)) by (nonlinear_arith)
        requires
            cy == (2 * y - sh) * n + rh * d,
            n == z.num,
            d == z.den;
    assert(x * forward_den(2 * d, z) <= 0x1_0000_0000 * (0x4_0000_0000 * 0x1_0000_0000))
        by (nonlinear_arith)
        requires
            0 <= x <= 0x1_0000_0000,
            0 < forward_den(2 * d, z) <= 0x4_0000_0000 * 0x1_0000_0000;
    assert(y * forward_den(2 * d, z) <= 0x1_0000_0000 * (0x4_0000_0000 * 0x1_0000_0000))
        by (nonlinear_arith)
        requires
            0 <= y <= 0x1_0000_0000,
            0 < forward_den(2 * d, z) <= 0x4_0000_0000 * 0x1_0000_0000;
    assert(x * forward_den(2 * d, z) >= 0) by (nonlinear_arith)
        requires 0 <= x, 0 < forward_den(2 * d, z);
    assert(y * forward_den(2 * d, z) >= 0) by (nonlinear_arith)
        requires 0 <= y, 0 < forward_den(2 * d, z);
}

} // verus!
