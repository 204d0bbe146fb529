//! Canvas configuration and the scale resolver.
use vstd::prelude::*;

verus! {

/// A non-negative ratio `num / den`. A zero denominator with a positive
/// numerator stands for an unbounded value (what a division by a zero-sized
/// surface gives).
#[derive(Clone, Copy, Debug, PartialEq, Eq, Structural)]
pub struct Ratio {
    pub num: u32,
    pub den: u32,
}

impl Ratio {
    /// The ratio is strictly above zero (possibly unbounded).
    pub open spec fn is_positive(self) -> bool {
        self.num > 0
    }

    /// Both parts are non-zero: a finite, strictly positive value.
    pub open spec fn is_finite_positive(self) -> bool {
        self.num > 0 && self.den > 0
    }
}

/// How the canvas is scaled onto the display surface.
#[derive(Clone, Copy, Debug, PartialEq, Eq, Structural)]
pub enum CanvasScale {
    /// Fit the canvas to the surface; with `pixel_perfect` the magnification
    /// is snapped to a power of two.
    AutoFit { pixel_perfect: bool },
    /// A fixed zoom factor.
    Manual(Ratio),
}

impl Default for CanvasScale {
    fn default() -> (r: CanvasScale)
        ensures
            r == (CanvasScale::AutoFit { pixel_perfect: false }),
    {
        CanvasScale::AutoFit { pixel_perfect: false }
    }
}

/// What the canvas camera clears its target with before drawing.
#[derive(Clone, Copy, Debug, PartialEq, Eq, Structural)]
pub enum ClearColor {
    Default,
    Custom { r: u8, g: u8, b: u8, a: u8 },
    /// Keep what the target already holds.
    Keep,
}

/// The canvas settings: virtual resolution in pixels, scale mode, whether the
/// OS cursor is held inside the canvas, and the background clear color.
#[derive(Clone, Copy, Debug, PartialEq, Eq, Structural)]
pub struct CanvasConfig {
    pub width: u32,
    pub height: u32,
    pub scale: CanvasScale,
    pub lock_cursor: bool,
    pub clear_color: ClearColor,
}

/// `p` is a power of two.
pub open spec fn is_pow2(p: nat) -> bool
    decreases p,
{
    if p == 1 {
        true
    } else if p == 0 || p % 2 == 1 {
        false
    } else {
        is_pow2((p / 2) as nat)
    }
}

/// The largest power of two not above `n`; one when `n` is zero.
pub open spec fn pow2_floor(n: nat) -> nat
    decreases n,
{
    if n <= 1 {
        1
    } else {
        2 * pow2_floor((n / 2) as nat)
    }
}

/// The integer magnification used in pixel-perfect mode for a raw fit ratio
/// whose integer part is `n`.
pub open spec fn pixel_perfect_multiplier(n: nat) -> nat {
    pow2_floor(n)
}

/// Whether the surface is fitted by its width: its aspect is below one.
pub open spec fn fits_by_width(surface_w: nat, surface_h: nat) -> bool {
    surface_w < surface_h
}

/// The zoom factor for a canvas of `res_w` x `res_h` on a surface of
/// `surface_w` x `surface_h` pixels.
pub open spec fn spec_resolve_scale(
    scale: CanvasScale,
    res_w: nat,
    res_h: nat,
    surface_w: nat,
    surface_h: nat,
) -> Ratio {
    match scale {
        CanvasScale::Manual(f) => f,
        CanvasScale::AutoFit { pixel_perfect } => {
            let (s, r) = if fits_by_width(surface_w, surface_h) {
                (surface_w, res_w)
            } else {
                (surface_h, res_h)
            };
            if pixel_perfect {
                Ratio { num: 1, den: pixel_perfect_multiplier(s / r) as u32 }
            } else {
                Ratio { num: r as u32, den: s as u32 }
            }
        },
    }
}

impl CanvasConfig {
    /// The resolution is positive in both dimensions.
    pub open spec fn wf(self) -> bool {
        self.width > 0 && self.height > 0
    }

    /// The display zoom factor this configuration gives on a surface of the
    /// given size.
    pub open spec fn zoom_for(self, surface_w: nat, surface_h: nat) -> Ratio {
        spec_resolve_scale(self.scale, self.width as nat, self.height as nat, surface_w, surface_h)
    }
}

/// A power of two `p` with `p <= n < 2 * p` is the largest one not above `n`.
pub proof fn lemma_pow2_floor_unique(p: nat, n: nat)
    requires
        is_pow2(p),
        p <= n,
        n < 2 * p,
    ensures
        pow2_floor(n) == p,
    decreases n,
{
    if p == 1 {
    } else {
        assert(p % 2 == 0 && p >= 2);
        lemma_pow2_floor_unique((p / 2) as nat, (n / 2) as nat);
    }
}

/// The pixel-perfect magnification is a power of two that never exceeds the
/// fit ratio's integer part (or one, when that part is zero), and is more
/// than half of it.
pub proof fn lemma_pixel_perfect_multiplier(n: nat)
    ensures
        is_pow2(pixel_perfect_multiplier(n)),
        pixel_perfect_multiplier(n) <= if n == 0 { 1 } else { n },
        n < 2 * pixel_perfect_multiplier(n),
    decreases n,
{
    if n > 1 {
        lemma_pixel_perfect_multiplier((n / 2) as nat);
        let h = pow2_floor((n / 2) as nat);
        assert((2 * h) % 2 == 0 && (2 * h) / 2 == h);
    }
}

/// Smallest power of two that is at least `n`; one when `n` is zero.
fn next_power_of_two(n: u64) -> (p: u64)
    requires
        n <= 0xFFFF_FFFF,
    ensures
        is_pow2(p as nat),
        p >= n,
        p == 1 || p / 2 < n,
{
    let mut p: u64 = 1;
    while p < n
        invariant
            n <= 0xFFFF_FFFF,
            p >= 1,
            is_pow2(p as nat),
            p == 1 || p / 2 < n,
            p <= 0x2_0000_0000,
        decreases 0x2_0000_0000 - p,
    {
        assert((2 * p) as nat / 2 == p as nat);
        assert((2 * p) as nat % 2 == 0);
        p = p * 2;
    }
    p
}

/// The pixel-perfect magnification for a fit ratio with integer part `n`:
/// `n` when it is a power of two, else half the next power of two above it,
/// and at least one.
fn pixel_perfect_factor(n: u32) -> (m: u32)
    ensures
        m as nat == pixel_perfect_multiplier(n as nat),
        m >= 1,
{
    let next = next_power_of_two(n as u64);
    let m: u64 = if next == n as u64 {
        n as u64
    } else {
        next / 2
    };
    let m: u64 = if m < 1 { 1 } else { m };
    proof {
        if n == 0 {
        } else if next == n as u64 {
            lemma_pow2_floor_unique(n as nat, n as nat);
        } else {
            assert(next != 1);
            assert(is_pow2((next / 2) as nat));
            lemma_pow2_floor_unique((next / 2) as nat, n as nat);
        }
    }
    m as u32
}

impl CanvasConfig {
    /// The zoom factor of the display camera on a surface of
    /// `surface_w` x `surface_h` pixels.
    pub fn resolve_scale(&self, surface_w: u32, surface_h: u32) -> (r: Ratio)
        requires
            self.wf(),
        ensures
            r == self.zoom_for(surface_w as nat, surface_h as nat),
    {
        match self.scale {
            CanvasScale::Manual(f) => f,
            CanvasScale::AutoFit { pixel_perfect } => {
                let (s, res) = if surface_w < surface_h {
                    (surface_w, self.width)
                } else {
                    (surface_h, self.height)
                };
                if pixel_perfect {
                    Ratio { num: 1, den: pixel_perfect_factor(s / res) }
                } else {
                    Ratio { num: res, den: s }
                }
            },
        }
    }
}

/// The zoom factor is strictly positive for every surface size, as long as a
/// manual factor is itself positive.
pub proof fn lemma_resolve_scale_positive(config: CanvasConfig, surface_w: nat, surface_h: nat)
    requires
        config.wf(),
        config.scale matches CanvasScale::Manual(f) ==> f.is_positive(),
    ensures
        config.zoom_for(surface_w, surface_h).is_positive(),
{
}

} // verus!
