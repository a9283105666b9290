//! Integer geometry for text layout: sizes and rectangles in physical
//! units, and exact fixed-point scaling by a display's pixel-per-point
//! ratio.

use vstd::prelude::*;

verus! {

/// Denominator of the fixed-point pixel-per-point ratio: a [`Scale`] with
/// `milli == 1000` maps one logical unit to exactly one physical unit.
pub const SCALE_UNIT: u64 = 1000;

/// A display density (pixel-per-point ratio) in thousandths: `milli`
/// physical units per `1000` logical units.
#[derive(Clone, Copy, PartialEq, Eq, Structural, Debug)]
pub struct Scale {
    pub milli: u32,
}

/// An axis-aligned rectangle with its minimum corner at `(x, y)` and extent
/// `(w, h)`, all in integer units and all non-negative.
#[derive(Clone, Copy, PartialEq, Eq, Structural, Debug)]
pub struct Rect {
    pub x: u64,
    pub y: u64,
    pub w: u64,
    pub h: u64,
}

/// A length `v` scaled by `s`: `v * s.milli / 1000`, rounded down and
/// saturating at `u64::MAX`.
pub open spec fn scaled(v: u64, s: Scale) -> int {
    let exact = (v * s.milli) / (SCALE_UNIT as int);
    if exact <= u64::MAX { exact } else { u64::MAX as int }
}

/// A rectangle scaled uniformly by `s` in both dimensions: every coordinate
/// and extent is multiplied by the same ratio.
pub open spec fn scaled_rect(r: Rect, s: Scale) -> Rect {
    Rect {
        x: scaled(r.x, s) as u64,
        y: scaled(r.y, s) as u64,
        w: scaled(r.w, s) as u64,
        h: scaled(r.h, s) as u64,
    }
}

/// The right edge of `r` (`x + w`), saturating at `u64::MAX`.
pub open spec fn rect_right(r: Rect) -> int {
    if r.x + r.w <= u64::MAX { r.x + r.w } else { u64::MAX as int }
}

/// The bottom edge of `r` (`y + h`), saturating at `u64::MAX`.
pub open spec fn rect_bottom(r: Rect) -> int {
    if r.y + r.h <= u64::MAX { r.y + r.h } else { u64::MAX as int }
}

/// A scaled rectangle is the input rectangle scaled uniformly: each coordinate and
/// each extent is multiplied by the same pixel-per-point ratio.
pub proof fn lemma_uniform_scaling(r: Rect, s: Scale)
    ensures
        scaled_rect(r, s).x == scaled(r.x, s),
        scaled_rect(r, s).y == scaled(r.y, s),
        scaled_rect(r, s).w == scaled(r.w, s),
        scaled_rect(r, s).h == scaled(r.h, s),
{
}

/// Scales one length by a fixed-point ratio, rounding down.
pub fn scale_len(v: u64, s: Scale) -> (r: u64)
    ensures
        r == scaled(v, s),
{
    proof {
        assert((v as int) * (s.milli as int) <= (u64::MAX as int) * (u32::MAX as int))
            by (nonlinear_arith)
            requires
                v <= u64::MAX,
                s.milli <= u32::MAX,
        ;
    }
    let wide: u128 = (v as u128) * (s.milli as u128) / (SCALE_UNIT as u128);
    if wide > u64::MAX as u128 {
        u64::MAX
    } else {
        wide as u64
    }
}

/// Scales a rectangle uniformly: both the minimum corner and the extent are
/// multiplied by the same pixel-per-point ratio.
pub fn scale_rect(r: Rect, s: Scale) -> (out: Rect)
    ensures
        out == scaled_rect(r, s),
{
    Rect {
        x: scale_len(r.x, s),
        y: scale_len(r.y, s),
        w: scale_len(r.w, s),
        h: scale_len(r.h, s),
    }
}

impl Rect {
    /// The right edge (`x + w`), saturating at `u64::MAX`.
    pub fn right(&self) -> (r: u64)
        ensures
            r == rect_right(*self),
    {
        let wide: u128 = (self.x as u128) + (self.w as u128);
        if wide > u64::MAX as u128 {
            u64::MAX
        } else {
            wide as u64
        }
    }

    /// The bottom edge (`y + h`), saturating at `u64::MAX`.
    pub fn bottom(&self) -> (r: u64)
        ensures
            r == rect_bottom(*self),
    {
        let wide: u128 = (self.y as u128) + (self.h as u128);
        if wide > u64::MAX as u128 {
            u64::MAX
        } else {
            wide as u64
        }
    }
}

} // verus!
