use vstd::prelude::*;
use crate::geometry::{COORD_MAX, in_coord_range};

verus! {

/// What kind of level surface a collider stands for.
#[derive(Clone, Copy, Debug, PartialEq, Eq, Structural)]
pub enum SurfaceTag {
    /// Stone that blocks movement and takes no portal.
    Solid,
    /// Brick that blocks movement and takes a portal.
    PortalSurface,
    /// Glass that blocks movement and lets the aim pass through.
    PortalGlass,
    /// A pressure plate: trigger only.
    Plate,
    /// A gate: blocks movement while closed.
    Gate,
    /// The level's exit door: trigger only.
    Door,
    /// An entity's own box.
    Body,
}

/// An axis-aligned rectangle in world coordinates with a surface tag.
#[derive(Clone, Copy, Debug, PartialEq, Eq, Structural)]
pub struct Collider {
    pub x: i64,
    pub y: i64,
    pub w: i64,
    pub h: i64,
    pub tag: SurfaceTag,
}

/// Standard AABB overlap: the boxes share interior or boundary on both axes.
pub open spec fn overlaps_spec(a: Collider, b: Collider) -> bool {
    &&& a.x <= b.x + b.w
    &&& b.x <= a.x + a.w
    &&& a.y <= b.y + b.h
    &&& b.y <= a.y + a.h
}

pub open spec fn contains_point_spec(c: Collider, px: int, py: int) -> bool {
    c.x <= px <= c.x + c.w && c.y <= py <= c.y + c.h
}

/// Tags that stop a body from falling through; a gate only while closed.
pub open spec fn blocks_spec(tag: SurfaceTag, gate_open: bool) -> bool {
    match tag {
        SurfaceTag::Solid | SurfaceTag::PortalSurface | SurfaceTag::PortalGlass => true,
        SurfaceTag::Gate => !gate_open,
        _ => false,
    }
}

impl Collider {
    pub open spec fn wf(&self) -> bool {
        &&& in_coord_range(self.x as int)
        &&& in_coord_range(self.y as int)
        &&& 0 <= self.w <= COORD_MAX
        &&& 0 <= self.h <= COORD_MAX
    }

    pub fn new(x: i64, y: i64, w: i64, h: i64, tag: SurfaceTag) -> (r: Collider)
        requires
            in_coord_range(x as int),
            in_coord_range(y as int),
            0 <= w <= COORD_MAX,
            0 <= h <= COORD_MAX,
        ensures
            r == (Collider { x, y, w, h, tag }),
            r.wf(),
    {
        Collider { x, y, w, h, tag }
    }

    /// True when the two boxes overlap.
    pub fn overlaps(&self, other: &Collider) -> (r: bool)
        requires
            self.wf(),
            other.wf(),
        ensures
            r == overlaps_spec(*self, *other),
    {
        self.x <= other.x + other.w && other.x <= self.x + self.w && self.y <= other.y + other.h
            && other.y <= self.y + self.h
    }

    /// The name the game logic uses for `overlaps`.
    pub fn is_touching(&self, other: &Collider) -> (r: bool)
        requires
            self.wf(),
            other.wf(),
        ensures
            r == overlaps_spec(*self, *other),
    {
        self.overlaps(other)
    }

    pub fn contains_point(&self, px: i64, py: i64) -> (r: bool)
        requires
            self.wf(),
        ensures
            r == contains_point_spec(*self, px as int, py as int),
    {
        self.x <= px && px <= self.x + self.w && self.y <= py && py <= self.y + self.h
    }

    /// Moves the box so that its corner is at `(x, y)`.
    pub fn set_position(&mut self, x: i64, y: i64)
        requires
            in_coord_range(x as int),
            in_coord_range(y as int),
            old(self).wf(),
        ensures
            *final(self) == (Collider { x, y, ..*old(self) }),
            final(self).wf(),
    {
        self.x = x;
        self.y = y;
    }
}

/// Whether a surface of this tag stops a falling body.
pub fn blocks(tag: SurfaceTag, gate_open: bool) -> (r: bool)
    ensures
        r == blocks_spec(tag, gate_open),
{
    match tag {
        SurfaceTag::Solid | SurfaceTag::PortalSurface | SurfaceTag::PortalGlass => true,
        SurfaceTag::Gate => !gate_open,
        _ => false,
    }
}

} // verus!
