use vstd::prelude::*;

verus! {

/// Sub-pixel units in one screen pixel.
pub const SUBPIXELS: i64 = 100;

/// Largest magnitude of any world coordinate or extent.
pub const COORD_MAX: i64 = 0x1_0000_0000_0000;

/// Largest magnitude of any configured speed or acceleration.
pub const SPEED_MAX: i64 = 0x10_0000;

pub open spec fn in_coord_range(v: int) -> bool {
    -COORD_MAX <= v <= COORD_MAX
}

pub open spec fn clamp_spec(v: int, lo: int, hi: int) -> int {
    if v < lo {
        lo
    } else if v > hi {
        hi
    } else {
        v
    }
}

/// Clamps `v` into `[lo, hi]`.
pub fn clamp(v: i64, lo: i64, hi: i64) -> (r: i64)
    requires
        lo <= hi,
    ensures
        r == clamp_spec(v as int, lo as int, hi as int),
        lo <= r <= hi,
{
    if v < lo {
        lo
    } else if v > hi {
        hi
    } else {
        v
    }
}

/// Keeps a coordinate inside the world's representable range.
pub fn clamp_coord(v: i64) -> (r: i64)
    ensures
        r == clamp_spec(v as int, -COORD_MAX, COORD_MAX as int),
        in_coord_range(r as int),
{
    clamp(v, -COORD_MAX, COORD_MAX)
}

} // verus!

verus! {

/// A rectangle in pixels, as the renderer takes it.
#[derive(Clone, Copy, Debug, PartialEq, Eq, Structural)]
pub struct Rect {
    pub x: i64,
    pub y: i64,
    pub w: i64,
    pub h: i64,
}

} // verus!
