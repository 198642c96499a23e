use vstd::prelude::*;
use crate::collider::{contains_point_spec, overlaps_spec, Collider, SurfaceTag};
use crate::geometry::{clamp_coord, clamp_spec, in_coord_range, COORD_MAX};
use crate::physics::Body;

verus! {

/// One end of the portal pair. Its orientation is counted in clockwise
/// quarter turns from a portal lying on a floor and facing up.
#[derive(Clone, Copy, Debug, PartialEq, Eq, Structural)]
pub struct Portal {
    /// 0 or 1; also picks the portal's colour.
    pub id: u8,
    /// Corner of the portal's trigger box.
    pub x: i64,
    pub y: i64,
    /// 0: faces up, 1: faces right, 2: faces down, 3: faces left.
    pub quarter_turns: u8,
    pub open: bool,
}

/// The body's speed toward the direction that a portal of orientation `q`
/// faces (screen y points down).
pub open spec fn facing_speed(vx: int, vy: int, q: int) -> int {
    if q == 0 { -vy } else if q == 1 { vx } else if q == 2 { vy } else { -vx }
}

/// `(vx, vy)` turned `k` quarter turns clockwise on screen.
pub open spec fn rotate_x(vx: int, vy: int, k: int) -> int {
    if k % 4 == 0 { vx } else if k % 4 == 1 { -vy } else if k % 4 == 2 { -vx } else { vy }
}

pub open spec fn rotate_y(vx: int, vy: int, k: int) -> int {
    if k % 4 == 0 { vy } else if k % 4 == 1 { vx } else if k % 4 == 2 { -vy } else { -vx }
}

/// Quarter turns from the orientation `from` to the orientation `to`.
pub open spec fn turn_between(from: int, to: int) -> int {
    (to - from + 4) % 4
}

/// The portal pair of one entity, and the teleport bookkeeping.
#[derive(Clone, Copy, Debug, PartialEq, Eq, Structural)]
pub struct PortalPair {
    pub first: Portal,
    pub second: Portal,
    /// Length of a portal's trigger box along its surface.
    pub long_side: i64,
    /// Depth of a portal's trigger box away from its surface.
    pub short_side: i64,
    /// Id of the portal that was last exited through, or last opened.
    pub last_used: u8,
    /// Set by a teleport, cleared when a tick begins.
    pub used_this_tick: bool,
}

impl Portal {
    pub open spec fn wf(&self) -> bool {
        &&& in_coord_range(self.x as int)
        &&& in_coord_range(self.y as int)
        &&& self.quarter_turns < 4
    }
}

impl PortalPair {
    pub open spec fn wf(&self) -> bool {
        &&& self.first.wf()
        &&& self.second.wf()
        &&& self.first.id == 0
        &&& self.second.id == 1
        &&& 0 <= self.short_side <= self.long_side <= COORD_MAX
        &&& self.last_used < 2
    }

    pub open spec fn portal_spec(&self, id: u8) -> Portal {
        if id == 0 { self.first } else { self.second }
    }

    /// The trigger box of portal `id`, lying along its surface.
    pub open spec fn box_spec(&self, id: u8) -> Collider {
        let p = self.portal_spec(id);
        if p.quarter_turns % 2 == 0 {
            Collider { x: p.x, y: p.y, w: self.long_side, h: self.short_side, tag: SurfaceTag::PortalSurface }
        } else {
            Collider { x: p.x, y: p.y, w: self.short_side, h: self.long_side, tag: SurfaceTag::PortalSurface }
        }
    }

    /// The body enters portal `id`: both portals are open, no teleport has
    /// happened this tick, the body's box overlaps the portal's box, and the
    /// body moves against the portal's facing direction.
    pub open spec fn enters_spec(&self, body: Body, id: u8) -> bool {
        let p = self.portal_spec(id);
        &&& self.first.open && self.second.open
        &&& !self.used_this_tick
        &&& overlaps_spec(body.collider_spec(), self.box_spec(id))
        &&& facing_speed(body.vx as int, body.vy as int, p.quarter_turns as int) < 0
    }

    /// The portal the body crosses into this tick; the first one is tried first.
    pub open spec fn crossing_spec(&self, body: Body) -> Option<u8> {
        if self.enters_spec(body, 0) {
            Some(0u8)
        } else if self.enters_spec(body, 1) {
            Some(1u8)
        } else {
            None
        }
    }

    /// Offset of the body from portal `src`, measured along that portal's surface.
    pub open spec fn along_spec(&self, body: Body, src: u8) -> int {
        let p = self.portal_spec(src);
        if p.quarter_turns == 0 {
            body.x - p.x
        } else if p.quarter_turns == 1 {
            body.y - p.y
        } else if p.quarter_turns == 2 {
            p.x - body.x
        } else {
            p.y - body.y
        }
    }

    /// The pair and the body after the body went in through `src` and came
    /// out of the other portal: same offset along the exit's surface,
    /// velocity turned by the orientation difference of exit and entry.
    pub open spec fn transfer_spec(&self, body: Body, src: u8) -> (PortalPair, Body) {
        let dst: u8 = if src == 0 { 1 } else { 0 };
        let s = self.portal_spec(src);
        let d = self.portal_spec(dst);
        let along = self.along_spec(body, src);
        let q = d.quarter_turns;
        let ex = if q == 0 { d.x + along } else if q == 2 { d.x - along } else { d.x as int };
        let ey = if q == 1 { d.y + along } else if q == 3 { d.y - along } else { d.y as int };
        let k = turn_between(s.quarter_turns as int, d.quarter_turns as int);
        (
            PortalPair { last_used: dst, used_this_tick: true, ..*self },
            Body {
                x: clamp_spec(ex, -COORD_MAX, COORD_MAX as int) as i64,
                y: clamp_spec(ey, -COORD_MAX, COORD_MAX as int) as i64,
                vx: rotate_x(body.vx as int, body.vy as int, k) as i64,
                vy: rotate_y(body.vx as int, body.vy as int, k) as i64,
                ..body
            },
        )
    }

    /// One teleport check: the transfer when the body crosses, else nothing changes.
    pub open spec fn teleport_spec(&self, body: Body) -> (PortalPair, Body) {
        match self.crossing_spec(body) {
            Some(src) => self.transfer_spec(body, src),
            None => (*self, body),
        }
    }

    /// The pair with both portals closed.
    pub open spec fn closed_spec(&self) -> PortalPair {
        PortalPair {
            first: Portal { open: false, ..self.first },
            second: Portal { open: false, ..self.second },
            ..*self
        }
    }

    /// The pair with portal `id` opened at `(x, y)` facing `q`.
    pub open spec fn opened_spec(&self, id: u8, x: i64, y: i64, q: u8) -> PortalPair {
        let p = Portal { id, x, y, quarter_turns: q, open: true };
        if id == 0 {
            PortalPair { first: p, last_used: id, ..*self }
        } else {
            PortalPair { second: p, last_used: id, ..*self }
        }
    }

    pub open spec fn new_spec(long_side: i64, short_side: i64) -> PortalPair {
        PortalPair {
            first: Portal { id: 0, x: 0, y: 0, quarter_turns: 0, open: false },
            second: Portal { id: 1, x: 0, y: 0, quarter_turns: 0, open: false },
            long_side,
            short_side,
            last_used: 0,
            used_this_tick: false,
        }
    }

    /// Two closed portals with trigger boxes of the given sides.
    pub fn new(long_side: i64, short_side: i64) -> (r: PortalPair)
        requires
            0 <= short_side <= long_side <= COORD_MAX,
        ensures
            r.wf(),
            r == PortalPair::new_spec(long_side, short_side),
            !r.first.open && !r.second.open,
            r.long_side == long_side && r.short_side == short_side,
            r.last_used == 0,
            !r.used_this_tick,
    {
        PortalPair {
            first: Portal { id: 0, x: 0, y: 0, quarter_turns: 0, open: false },
            second: Portal { id: 1, x: 0, y: 0, quarter_turns: 0, open: false },
            long_side,
            short_side,
            last_used: 0,
            used_this_tick: false,
        }
    }

    pub fn portal(&self, id: u8) -> (r: Portal)
        ensures
            r == self.portal_spec(id),
    {
        if id == 0 { self.first } else { self.second }
    }

    /// The trigger box of portal `id`.
    pub fn portal_box(&self, id: u8) -> (r: Collider)
        requires
            self.wf(),
        ensures
            r == self.box_spec(id),
            r.wf(),
    {
        let p = self.portal(id);
        if p.quarter_turns % 2 == 0 {
            Collider::new(p.x, p.y, self.long_side, self.short_side, SurfaceTag::PortalSurface)
        } else {
            Collider::new(p.x, p.y, self.short_side, self.long_side, SurfaceTag::PortalSurface)
        }
    }

    /// Opens portal `id` (0 or 1) at `(x, y)` with the given orientation.
    pub fn open_portal(&mut self, id: u8, x: i64, y: i64, quarter_turns: u8)
        requires
            old(self).wf(),
            id < 2,
            in_coord_range(x as int),
            in_coord_range(y as int),
            quarter_turns < 4,
        ensures
            final(self).wf(),
            *final(self) == old(self).opened_spec(id, x, y, quarter_turns),
            final(self).portal_spec(id) == (Portal { id, x, y, quarter_turns, open: true }),
            final(self).portal_spec((1 - id) as u8) == old(self).portal_spec((1 - id) as u8),
            final(self).last_used == id,
            final(self).long_side == old(self).long_side,
            final(self).short_side == old(self).short_side,
            final(self).used_this_tick == old(self).used_this_tick,
    {
        let p = Portal { id, x, y, quarter_turns, open: true };
        if id == 0 {
            self.first = p;
        } else {
            self.second = p;
        }
        self.last_used = id;
    }

    /// Closes both portals; no teleport happens until both are open again.
    pub fn close_all(&mut self)
        requires
            old(self).wf(),
        ensures
            final(self).wf(),
            *final(self) == old(self).closed_spec(),
    {
        self.first.open = false;
        self.second.open = false;
    }

    /// Clears the guard that allows one teleport per tick.
    pub fn begin_tick(&mut self)
        requires
            old(self).wf(),
        ensures
            final(self).wf(),
            *final(self) == (PortalPair { used_this_tick: false, ..*old(self) }),
    {
        self.used_this_tick = false;
    }

    fn enters(&self, body: &Body, id: u8) -> (r: bool)
        requires
            self.wf(),
            body.wf(),
            id < 2,
        ensures
            r == self.enters_spec(*body, id),
    {
        let p = self.portal(id);
        if !self.first.open || !self.second.open || self.used_this_tick {
            return false;
        }
        let b = body.collider();
        let pb = self.portal_box(id);
        if !b.overlaps(&pb) {
            return false;
        }
        let facing: i64 = match p.quarter_turns {
            0 => -body.vy,
            1 => body.vx,
            2 => body.vy,
            _ => -body.vx,
        };
        facing < 0
    }

    /// The portal that the body crosses into this tick, if any.
    pub fn crossing(&self, body: &Body) -> (r: Option<u8>)
        requires
            self.wf(),
            body.wf(),
        ensures
            r == self.crossing_spec(*body),
    {
        if self.enters(body, 0) {
            Some(0)
        } else if self.enters(body, 1) {
            Some(1)
        } else {
            None
        }
    }

    /// Moves the body through the pair when it crosses into a portal;
    /// returns whether it did.
    pub fn teleport(&mut self, body: &mut Body) -> (r: bool)
        requires
            old(self).wf(),
            old(body).wf(),
        ensures
            final(self).wf(),
            final(body).wf(),
            r == old(self).crossing_spec(*old(body)).is_some(),
            (*final(self), *final(body)) == old(self).teleport_spec(*old(body)),
    {
        match self.crossing(body) {
            None => false,
            Some(src) => {
                let dst: u8 = if src == 0 { 1 } else { 0 };
                let s = self.portal(src);
                let d = self.portal(dst);
                let along: i64 = match s.quarter_turns {
                    0 => body.x - s.x,
                    1 => body.y - s.y,
                    2 => s.x - body.x,
                    _ => s.y - body.y,
                };
                let (nx, ny): (i64, i64) = match d.quarter_turns {
                    0 => (d.x + along, d.y),
                    1 => (d.x, d.y + along),
                    2 => (d.x - along, d.y),
                    _ => (d.x, d.y - along),
                };
                let k: u8 = (d.quarter_turns + 4 - s.quarter_turns) % 4;
                let (vx, vy) = (body.vx, body.vy);
                let (nvx, nvy): (i64, i64) = match k {
                    0 => (vx, vy),
                    1 => (-vy, vx),
                    2 => (-vx, -vy),
                    _ => (vy, -vx),
                };
                body.x = clamp_coord(nx);
                body.y = clamp_coord(ny);
                body.vx = nvx;
                body.vy = nvy;
                self.last_used = dst;
                self.used_this_tick = true;
                true
            },
        }
    }

    /// Id of the portal last exited through or last opened.
    pub fn last_portal(&self) -> (r: u8)
        ensures
            r == self.last_used,
    {
        self.last_used
    }
}

/// Teleporting keeps the body's speed: the squared length of its velocity
/// is the same before and after, whatever the two orientations.
pub proof fn lemma_teleport_keeps_speed(pair: PortalPair, body: Body)
    requires
        pair.wf(),
        body.wf(),
    ensures
        ({
            let out = pair.teleport_spec(body).1;
            out.vx * out.vx + out.vy * out.vy == body.vx * body.vx + body.vy * body.vy
        }),
{
    let (vx, vy) = (body.vx as int, body.vy as int);
    assert((-vx) * (-vx) == vx * vx) by (nonlinear_arith);
    assert((-vy) * (-vy) == vy * vy) by (nonlinear_arith);
}

/// At most one teleport per tick: once the body has been moved through the
/// pair, checking the crossing again in the same tick finds none, and a
/// second teleport changes nothing.
pub proof fn lemma_teleport_once_per_tick(pair: PortalPair, body: Body)
    requires
        pair.wf(),
        body.wf(),
        pair.crossing_spec(body).is_some(),
    ensures
        ({
            let (p1, b1) = pair.teleport_spec(body);
            &&& p1.crossing_spec(b1).is_none()
            &&& p1.teleport_spec(b1) == (p1, b1)
        }),
{
}

/// Where a portal aimed at `(px, py)` lands on surface `c`: the face of `c`
/// nearest the point gives the orientation, and the portal's box sits just
/// outside that face, centred on the point along it.
pub open spec fn placement_on_spec(c: Collider, px: int, py: int, long_side: int, short_side: int) -> (int, int, u8) {
    let up = py - c.y;
    let right = c.x + c.w - px;
    let down = c.y + c.h - py;
    let left = px - c.x;
    if up <= right && up <= down && up <= left {
        (px - long_side / 2, c.y - short_side, 0u8)
    } else if right <= down && right <= left {
        (c.x + c.w, py - long_side / 2, 1u8)
    } else if down <= left {
        (px - long_side / 2, c.y + c.h, 2u8)
    } else {
        (c.x - short_side, py - long_side / 2, 3u8)
    }
}

/// The aim stops at `c` at `(px, py)`: stone and portal brick stop it,
/// glass and triggers let it through.
pub open spec fn stops_aim(c: Collider, px: int, py: int) -> bool {
    (c.tag == SurfaceTag::Solid || c.tag == SurfaceTag::PortalSurface) && contains_point_spec(c, px, py)
}

/// `i` is the first collider of `cs` that stops the aim at `(px, py)`.
pub open spec fn is_first_surface(cs: Seq<Collider>, px: int, py: int, i: int) -> bool {
    &&& 0 <= i < cs.len()
    &&& stops_aim(cs[i], px, py)
    &&& forall|j: int| 0 <= j < i ==> !stops_aim(#[trigger] cs[j], px, py)
}

/// Where a portal aimed at `(px, py)` goes, with its orientation: on the
/// first collider of `cs` that stops the aim there, when that one takes
/// portals; `None` otherwise.
pub open spec fn placement_spec(cs: Seq<Collider>, px: int, py: int, long_side: int, short_side: int) -> Option<(i64, i64, u8)> {
    if exists|i: int| is_first_surface(cs, px, py, i) {
        let i = choose|i: int| is_first_surface(cs, px, py, i);
        if cs[i].tag == SurfaceTag::PortalSurface {
            let (sx, sy, q) = placement_on_spec(cs[i], px, py, long_side, short_side);
            Some((clamp_spec(sx, -COORD_MAX, COORD_MAX as int) as i64, clamp_spec(sy, -COORD_MAX, COORD_MAX as int) as i64, q))
        } else {
            None
        }
    } else {
        None
    }
}

/// Whether some collider of `cs` stops the aim at `(px, py)`.
pub fn aim_stops(cs: &Vec<Collider>, px: i64, py: i64) -> (r: bool)
    requires
        forall|i: int| 0 <= i < cs@.len() ==> (#[trigger] cs@[i]).wf(),
    ensures
        r == exists|i: int| 0 <= i < cs@.len() && stops_aim(#[trigger] cs@[i], px as int, py as int),
{
    let mut i: usize = 0;
    while i < cs.len()
        invariant
            i <= cs@.len(),
            forall|k: int| 0 <= k < cs@.len() ==> (#[trigger] cs@[k]).wf(),
            forall|j: int| 0 <= j < i ==> !stops_aim(#[trigger] cs@[j], px as int, py as int),
        decreases cs@.len() - i,
    {
        let c = cs[i];
        if (c.tag == SurfaceTag::Solid || c.tag == SurfaceTag::PortalSurface) && c.contains_point(px, py) {
            assert(stops_aim(cs@[i as int], px as int, py as int));
            return true;
        }
        i = i + 1;
    }
    false
}

/// Points sampled along an aim ray, after its start.
pub const RAY_STEPS: i64 = 256;

/// `d / RAY_STEPS`, rounded toward zero.
pub open spec fn ray_div(d: int) -> int {
    if d >= 0 { d / RAY_STEPS as int } else { -((-d) / RAY_STEPS as int) }
}

/// Sample `k` of the ray from `f` to `t`: `k / RAY_STEPS` of the way.
pub open spec fn ray_coord(f: int, t: int, k: int) -> int {
    f + ray_div((t - f) * k)
}

pub open spec fn ray_hits(cs: Seq<Collider>, fx: int, fy: int, tx: int, ty: int, k: int) -> bool {
    exists|i: int| 0 <= i < cs.len() && stops_aim(#[trigger] cs[i], ray_coord(fx, tx, k), ray_coord(fy, ty, k))
}

/// `k` is the first sample of the ray that something stops.
pub open spec fn is_first_hit(cs: Seq<Collider>, fx: int, fy: int, tx: int, ty: int, k: int) -> bool {
    &&& 0 <= k <= RAY_STEPS
    &&& ray_hits(cs, fx, fy, tx, ty, k)
    &&& forall|j: int| 0 <= j < k ==> !ray_hits(cs, fx, fy, tx, ty, j)
}

/// Where the aim from `(fx, fy)` toward `(tx, ty)` ends: at the first
/// sample that a collider stops, or at the target where none does.
pub open spec fn aim_end_spec(cs: Seq<Collider>, fx: int, fy: int, tx: int, ty: int) -> (int, int) {
    if exists|k: int| is_first_hit(cs, fx, fy, tx, ty, k) {
        let k = choose|k: int| is_first_hit(cs, fx, fy, tx, ty, k);
        (ray_coord(fx, tx, k), ray_coord(fy, ty, k))
    } else {
        (tx, ty)
    }
}

fn ray_step(f: i64, t: i64, k: i64) -> (r: i64)
    requires
        -COORD_MAX <= f <= COORD_MAX,
        -COORD_MAX <= t <= COORD_MAX,
        0 <= k <= RAY_STEPS,
    ensures
        r == ray_coord(f as int, t as int, k as int),
        -4 * COORD_MAX <= r <= 4 * COORD_MAX,
{
    let diff = t - f;
    proof {
        assert(-2 * COORD_MAX * RAY_STEPS <= diff * k <= 2 * COORD_MAX * RAY_STEPS) by (nonlinear_arith)
            requires -2 * COORD_MAX <= diff <= 2 * COORD_MAX, 0 <= k <= RAY_STEPS;
    }
    let d = diff * k;
    if d >= 0 {
        f + d / RAY_STEPS
    } else {
        f - (-d) / RAY_STEPS
    }
}

/// Where the aim from `(fx, fy)` toward `(tx, ty)` ends.
pub fn aim_end(cs: &Vec<Collider>, fx: i64, fy: i64, tx: i64, ty: i64) -> (r: (i64, i64))
    requires
        forall|i: int| 0 <= i < cs@.len() ==> (#[trigger] cs@[i]).wf(),
        in_coord_range(fx as int),
        in_coord_range(fy as int),
        in_coord_range(tx as int),
        in_coord_range(ty as int),
    ensures
        (r.0 as int, r.1 as int) == aim_end_spec(cs@, fx as int, fy as int, tx as int, ty as int),
        -4 * COORD_MAX <= r.0 <= 4 * COORD_MAX,
        -4 * COORD_MAX <= r.1 <= 4 * COORD_MAX,
{
    let mut k: i64 = 0;
    while k <= RAY_STEPS
        invariant
            0 <= k <= RAY_STEPS + 1,
            forall|i: int| 0 <= i < cs@.len() ==> (#[trigger] cs@[i]).wf(),
            in_coord_range(fx as int),
            in_coord_range(fy as int),
            in_coord_range(tx as int),
            in_coord_range(ty as int),
            forall|j: int| 0 <= j < k ==> !ray_hits(cs@, fx as int, fy as int, tx as int, ty as int, j),
        decreases RAY_STEPS + 1 - k,
    {
        let x = ray_step(fx, tx, k);
        let y = ray_step(fy, ty, k);
        if aim_stops(cs, x, y) {
            proof {
                let (a, b, c, d) = (fx as int, fy as int, tx as int, ty as int);
                assert(is_first_hit(cs@, a, b, c, d, k as int));
                let m = choose|m: int| is_first_hit(cs@, a, b, c, d, m);
                if m < k {
                    assert(!ray_hits(cs@, a, b, c, d, m));
                } else if k < m {
                    assert(!ray_hits(cs@, a, b, c, d, k as int));
                }
            }
            return (x, y);
        }
        k = k + 1;
    }
    proof {
        let (a, b, c, d) = (fx as int, fy as int, tx as int, ty as int);
        if exists|m: int| is_first_hit(cs@, a, b, c, d, m) {
            let m = choose|m: int| is_first_hit(cs@, a, b, c, d, m);
            assert(!ray_hits(cs@, a, b, c, d, m));
        }
    }
    (tx, ty)
}

/// Where a portal aimed at `(px, py)` is placed: on the first collider of
/// `cs` that stops the aim there, when it takes portals.
pub fn placement(cs: &Vec<Collider>, px: i64, py: i64, long_side: i64, short_side: i64) -> (r: Option<(i64, i64, u8)>)
    requires
        forall|i: int| 0 <= i < cs@.len() ==> (#[trigger] cs@[i]).wf(),
        0 <= short_side <= long_side <= COORD_MAX,
        -4 * COORD_MAX <= px <= 4 * COORD_MAX,
        -4 * COORD_MAX <= py <= 4 * COORD_MAX,
    ensures
        r == placement_spec(cs@, px as int, py as int, long_side as int, short_side as int),
        r matches Some((x, y, q)) ==> in_coord_range(x as int) && in_coord_range(y as int) && q < 4,
{
    let mut i: usize = 0;
    while i < cs.len()
        invariant
            i <= cs@.len(),
            0 <= short_side <= long_side <= COORD_MAX,
            -4 * COORD_MAX <= px <= 4 * COORD_MAX,
            -4 * COORD_MAX <= py <= 4 * COORD_MAX,
            forall|k: int| 0 <= k < cs@.len() ==> (#[trigger] cs@[k]).wf(),
            forall|j: int| 0 <= j < i ==> !stops_aim(#[trigger] cs@[j], px as int, py as int),
        decreases cs@.len() - i,
    {
        let c = cs[i];
        if (c.tag == SurfaceTag::Solid || c.tag == SurfaceTag::PortalSurface) && c.contains_point(px, py) {
            proof {
                assert(is_first_surface(cs@, px as int, py as int, i as int));
                let k = choose|k: int| is_first_surface(cs@, px as int, py as int, k);
                if k < i {
                    assert(!stops_aim(cs@[k], px as int, py as int));
                } else if i < k {
                    assert(!stops_aim(cs@[i as int], px as int, py as int));
                }
            }
            if c.tag != SurfaceTag::PortalSurface {
                return None;
            }
            let up = py - c.y;
            let right = c.x + c.w - px;
            let down = c.y + c.h - py;
            let left = px - c.x;
            let (sx, sy, q): (i64, i64, u8) = if up <= right && up <= down && up <= left {
                (px - long_side / 2, c.y - short_side, 0)
            } else if right <= down && right <= left {
                (c.x + c.w, py - long_side / 2, 1)
            } else if down <= left {
                (px - long_side / 2, c.y + c.h, 2)
            } else {
                (c.x - short_side, py - long_side / 2, 3)
            };
            return Some((clamp_coord(sx), clamp_coord(sy), q));
        }
        i = i + 1;
    }
    assert(!exists|k: int| is_first_surface(cs@, px as int, py as int, k));
    None
}

} // verus!
