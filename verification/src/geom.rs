//! 2D vector and rectangle primitives in fixed-point view-space coordinates.

use vstd::prelude::*;

verus! {

/// Largest magnitude a stored coordinate may take. Keeping every stored
/// coordinate inside this bound lets a sum of a handful of coordinates be
/// computed in `i64` without overflow.
pub const COORD_LIMIT: i64 = 0x7fff_ffff;

/// Smallest stored coordinate, the negation of `COORD_LIMIT`.
pub const COORD_MIN: i64 = -0x7fff_ffff;

/// A stored coordinate value: small enough that short sums of such values
/// stay inside `i64`.
pub open spec fn coord_ok(x: int) -> bool {
    -COORD_LIMIT <= x && x <= COORD_LIMIT
}

/// Clamp `v` into the interval `[lo, hi]`.
pub open spec fn clamp(lo: int, hi: int, v: int) -> int {
    if v < lo {
        lo
    } else if hi < v {
        hi
    } else {
        v
    }
}

/// An immutable 2D point or extent.
#[derive(Clone, Copy, Debug, PartialEq, Eq, Structural)]
pub struct Vec2 {
    pub x: i64,
    pub y: i64,
}

impl Vec2 {
    /// Both components are stored coordinates.
    pub open spec fn wf(self) -> bool {
        coord_ok(self.x as int) && coord_ok(self.y as int)
    }

    pub fn new(x: i64, y: i64) -> (r: Vec2)
        ensures
            r == (Vec2 { x, y }),
    {
        Vec2 { x, y }
    }

    pub fn zero() -> (r: Vec2)
        ensures
            r == (Vec2 { x: 0i64, y: 0i64 }),
    {
        Vec2 { x: 0, y: 0 }
    }
}

/// An axis-aligned rectangle: origin and extent.
#[derive(Clone, Copy, Debug, PartialEq, Eq, Structural)]
pub struct Rect {
    pub pos: Vec2,
    pub size: Vec2,
}

impl Rect {
    pub open spec fn wf(self) -> bool {
        self.pos.wf() && self.size.wf()
    }

    pub fn new(pos: Vec2, size: Vec2) -> (r: Rect)
        ensures
            r == (Rect { pos, size }),
    {
        Rect { pos, size }
    }

    /// The all-zero rectangle, the "no geometry" result of handle queries.
    pub fn zero() -> (r: Rect)
        ensures
            r == Rect::zero_spec(),
    {
        Rect { pos: Vec2 { x: 0, y: 0 }, size: Vec2 { x: 0, y: 0 } }
    }

    pub open spec fn zero_spec() -> Rect {
        Rect { pos: Vec2 { x: 0i64, y: 0i64 }, size: Vec2 { x: 0i64, y: 0i64 } }
    }
}

} // verus!
