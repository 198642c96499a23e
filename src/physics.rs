use vstd::prelude::*;
use crate::collider::{blocks, blocks_spec, Collider, SurfaceTag};
use crate::geometry::{clamp_coord, clamp_spec, in_coord_range, COORD_MAX, SPEED_MAX};

verus! {

/// A blocking surface met other than from above.
#[derive(Clone, Copy, Debug, PartialEq, Eq, Structural)]
pub enum Obstacle {
    /// Met from below while rising.
    Ceiling,
    /// Met from the side while moving sideways.
    Wall,
}

/// The tuning of a body's motion, in sub-pixel units per tick.
#[derive(Clone, Copy, Debug, PartialEq, Eq, Structural)]
pub struct PhysicsConfig {
    /// Horizontal speed gained per tick of movement intent.
    pub accel: i64,
    /// Horizontal speed lost per tick without movement intent.
    pub friction: i64,
    /// Horizontal speed that movement intent accelerates up to.
    pub max_speed: i64,
    /// Vertical speed gained per tick.
    pub gravity: i64,
    /// Largest vertical speed, in either direction.
    pub terminal_speed: i64,
    /// Upward speed a jump sets.
    pub jump_impulse: i64,
    /// Jumps available between two landings.
    pub max_jumps: u32,
    /// Width of the body's box.
    pub width: i64,
    /// Height of the body's box.
    pub height: i64,
}

impl PhysicsConfig {
    pub open spec fn wf(&self) -> bool {
        &&& 0 <= self.accel <= SPEED_MAX
        &&& 0 <= self.friction <= SPEED_MAX
        &&& 0 <= self.gravity <= SPEED_MAX
        &&& 0 <= self.max_speed <= self.terminal_speed <= SPEED_MAX
        &&& 0 <= self.jump_impulse <= self.terminal_speed
        &&& 0 <= self.width <= COORD_MAX
        &&& 0 <= self.height <= COORD_MAX
    }
}

/// The kinematic state of one entity.
#[derive(Clone, Copy, Debug, PartialEq, Eq, Structural)]
pub struct Body {
    pub cfg: PhysicsConfig,
    pub x: i64,
    pub y: i64,
    pub vx: i64,
    pub vy: i64,
    pub jumps_left: u32,
    pub grounded: bool,
    pub start_x: i64,
    pub start_y: i64,
    /// Ignores movement and jump intent, but keeps moving.
    pub immobilized: bool,
    /// Ignores intent and does not move at all.
    pub frozen: bool,
}

/// Horizontal speed after one tick of intent to the right.
pub open spec fn accel_right_spec(vx: int, accel: int, max: int) -> int {
    if vx < max {
        if vx + accel > max { max } else { vx + accel }
    } else {
        vx
    }
}

/// Horizontal speed after one tick of intent to the left.
pub open spec fn accel_left_spec(vx: int, accel: int, max: int) -> int {
    if vx > -max {
        if vx - accel < -max { -max } else { vx - accel }
    } else {
        vx
    }
}

/// Horizontal speed after one tick without horizontal intent.
pub open spec fn decelerate_spec(vx: int, friction: int) -> int {
    if vx > 0 {
        if vx - friction < 0 { 0 } else { vx - friction }
    } else if vx < 0 {
        if vx + friction > 0 { 0 } else { vx + friction }
    } else {
        0
    }
}

/// Vertical speed after gravity, clamped to the terminal speed.
pub open spec fn fall_speed_spec(vy: int, gravity: int, terminal: int) -> int {
    if vy + gravity > terminal { terminal } else { vy + gravity }
}

impl Body {
    pub open spec fn wf(&self) -> bool {
        &&& self.cfg.wf()
        &&& in_coord_range(self.x as int)
        &&& in_coord_range(self.y as int)
        &&& in_coord_range(self.start_x as int)
        &&& in_coord_range(self.start_y as int)
        &&& -self.cfg.terminal_speed <= self.vx <= self.cfg.terminal_speed
        &&& -self.cfg.terminal_speed <= self.vy <= self.cfg.terminal_speed
        &&& self.jumps_left <= self.cfg.max_jumps
    }

    pub open spec fn accepts_input(&self) -> bool {
        !self.immobilized && !self.frozen
    }

    pub open spec fn collider_spec(&self) -> Collider {
        Collider { x: self.x, y: self.y, w: self.cfg.width, h: self.cfg.height, tag: SurfaceTag::Body }
    }

    /// The body lands on `c` this tick: `c` blocks, overlaps the body's
    /// width, and its top lies between the body's bottom before and after
    /// this tick's downward move.
    pub open spec fn lands_on_spec(&self, c: Collider, gate_open: bool) -> bool {
        &&& blocks_spec(c.tag, gate_open)
        &&& self.vy >= 0
        &&& self.x < c.x + c.w
        &&& c.x < self.x + self.cfg.width
        &&& c.y <= self.y + self.cfg.height
        &&& self.y + self.cfg.height - self.vy <= c.y
    }

    /// The body after one tick of gravity and motion.
    pub open spec fn integrate_spec(&self) -> Body {
        if self.frozen {
            *self
        } else {
            let vy = fall_speed_spec(self.vy as int, self.cfg.gravity as int, self.cfg.terminal_speed as int);
            Body {
                vy: vy as i64,
                x: clamp_spec(self.x + self.vx, -COORD_MAX, COORD_MAX as int) as i64,
                y: clamp_spec(self.y + vy, -COORD_MAX, COORD_MAX as int) as i64,
                grounded: false,
                ..*self
            }
        }
    }

    /// The body after `n` ticks of falling with nothing to land on.
    pub open spec fn fall_ticks(&self, n: nat) -> Body
        decreases n,
    {
        if n == 0 {
            *self
        } else {
            self.fall_ticks((n - 1) as nat).integrate_spec()
        }
    }

    /// The body after the horizontal part of a tick's intent.
    pub open spec fn steer_spec(&self, left: bool, right: bool) -> Body {
        if !self.accepts_input() {
            *self
        } else if left && !right {
            Body { vx: accel_left_spec(self.vx as int, self.cfg.accel as int, self.cfg.max_speed as int) as i64, ..*self }
        } else if right && !left {
            Body { vx: accel_right_spec(self.vx as int, self.cfg.accel as int, self.cfg.max_speed as int) as i64, ..*self }
        } else {
            Body { vx: decelerate_spec(self.vx as int, self.cfg.friction as int) as i64, ..*self }
        }
    }

    pub open spec fn can_jump(&self) -> bool {
        self.accepts_input() && self.jumps_left > 0
    }

    /// The body after a jump that `can_jump` allows.
    pub open spec fn jump_spec(&self) -> Body {
        Body { vy: (-self.cfg.jump_impulse) as i64, jumps_left: (self.jumps_left - 1) as u32, grounded: false, ..*self }
    }

    /// The body after a tick's intent: steering, then a jump when asked
    /// for and allowed.
    pub open spec fn input_spec(&self, left: bool, right: bool, jump: bool) -> Body {
        let b = self.steer_spec(left, right);
        if jump && b.can_jump() { b.jump_spec() } else { b }
    }

    pub open spec fn new_spec(cfg: PhysicsConfig, start_x: i64, start_y: i64) -> Body {
        Body {
            cfg,
            x: start_x,
            y: start_y,
            vx: 0,
            vy: 0,
            jumps_left: cfg.max_jumps,
            grounded: false,
            start_x,
            start_y,
            immobilized: false,
            frozen: false,
        }
    }

    /// The body back at its start position, at rest; its jump budget and
    /// flags are kept.
    pub open spec fn respawn_spec(&self) -> Body {
        Body { x: self.start_x, y: self.start_y, vx: 0, vy: 0, grounded: false, ..*self }
    }

    /// A body at rest at its start position with every jump available.
    pub fn new(cfg: PhysicsConfig, start_x: i64, start_y: i64) -> (r: Body)
        requires
            cfg.wf(),
            in_coord_range(start_x as int),
            in_coord_range(start_y as int),
        ensures
            r.wf(),
            r == Body::new_spec(cfg, start_x, start_y),
    {
        Body {
            cfg,
            x: start_x,
            y: start_y,
            vx: 0,
            vy: 0,
            jumps_left: cfg.max_jumps,
            grounded: false,
            start_x,
            start_y,
            immobilized: false,
            frozen: false,
        }
    }

    /// The body's box in world coordinates.
    pub fn collider(&self) -> (r: Collider)
        requires
            self.wf(),
        ensures
            r == self.collider_spec(),
            r.wf(),
    {
        Collider::new(self.x, self.y, self.cfg.width, self.cfg.height, SurfaceTag::Body)
    }

    /// One tick of intent to the right: accelerates up to the maximum
    /// horizontal speed, never past it and never cutting a faster speed.
    pub fn accelerate_right(&mut self)
        requires
            old(self).wf(),
        ensures
            final(self).wf(),
            old(self).accepts_input() ==> *final(self) == (Body {
                vx: accel_right_spec(old(self).vx as int, old(self).cfg.accel as int, old(self).cfg.max_speed as int) as i64,
                ..*old(self)
            }),
            !old(self).accepts_input() ==> *final(self) == *old(self),
    {
        if !self.immobilized && !self.frozen && self.vx < self.cfg.max_speed {
            let v = self.vx + self.cfg.accel;
            self.vx = if v > self.cfg.max_speed { self.cfg.max_speed } else { v };
        }
    }

    /// One tick of intent to the left, the mirror image of `accelerate_right`.
    pub fn accelerate_left(&mut self)
        requires
            old(self).wf(),
        ensures
            final(self).wf(),
            old(self).accepts_input() ==> *final(self) == (Body {
                vx: accel_left_spec(old(self).vx as int, old(self).cfg.accel as int, old(self).cfg.max_speed as int) as i64,
                ..*old(self)
            }),
            !old(self).accepts_input() ==> *final(self) == *old(self),
    {
        if !self.immobilized && !self.frozen && self.vx > -self.cfg.max_speed {
            let v = self.vx - self.cfg.accel;
            self.vx = if v < -self.cfg.max_speed { -self.cfg.max_speed } else { v };
        }
    }

    /// One tick without horizontal intent: slows toward zero by the friction.
    pub fn decelerate(&mut self)
        requires
            old(self).wf(),
        ensures
            final(self).wf(),
            *final(self) == (Body {
                vx: decelerate_spec(old(self).vx as int, old(self).cfg.friction as int) as i64,
                ..*old(self)
            }),
    {
        if self.vx > 0 {
            let v = self.vx - self.cfg.friction;
            self.vx = if v < 0 { 0 } else { v };
        } else if self.vx < 0 {
            let v = self.vx + self.cfg.friction;
            self.vx = if v > 0 { 0 } else { v };
        }
    }

    /// Jumps when a jump is left and input is accepted: the vertical speed
    /// becomes the negative jump impulse and one jump is used up.
    pub fn jump(&mut self) -> (r: bool)
        requires
            old(self).wf(),
        ensures
            final(self).wf(),
            r == old(self).can_jump(),
            r ==> *final(self) == old(self).jump_spec(),
            !r ==> *final(self) == *old(self),
    {
        if !self.immobilized && !self.frozen && self.jumps_left > 0 {
            self.vy = -self.cfg.jump_impulse;
            self.jumps_left = self.jumps_left - 1;
            self.grounded = false;
            true
        } else {
            false
        }
    }

    /// Applies gravity, clamped to the terminal speed, then moves by the
    /// velocity. A frozen body does not move.
    pub fn integrate(&mut self)
        requires
            old(self).wf(),
        ensures
            final(self).wf(),
            *final(self) == old(self).integrate_spec(),
    {
        if !self.frozen {
            let v = self.vy + self.cfg.gravity;
            self.vy = if v > self.cfg.terminal_speed { self.cfg.terminal_speed } else { v };
            self.x = clamp_coord(self.x + self.vx);
            self.y = clamp_coord(self.y + self.vy);
            self.grounded = false;
        }
    }

    /// Rests the body on a surface whose top is at `top`: vertical speed
    /// zero, every jump available again.
    pub fn land(&mut self, top: i64)
        requires
            old(self).wf(),
            in_coord_range(top as int),
        ensures
            final(self).wf(),
            *final(self) == old(self).land_spec(top as int),
    {
        self.y = clamp_coord(top - self.cfg.height);
        self.vy = 0;
        self.jumps_left = self.cfg.max_jumps;
        self.grounded = true;
    }

    /// The first collider of `cs` that the body lands on this tick.
    pub fn find_landing(&self, cs: &Vec<Collider>, gate_open: bool) -> (r: Option<usize>)
        requires
            self.wf(),
            forall|i: int| 0 <= i < cs@.len() ==> (#[trigger] cs@[i]).wf(),
        ensures
            match r {
                Some(i) => {
                    &&& i < cs@.len()
                    &&& self.lands_on_spec(cs@[i as int], gate_open)
                    &&& forall|j: int| 0 <= j < i ==> !self.lands_on_spec(#[trigger] cs@[j], gate_open)
                },
                None => forall|j: int| 0 <= j < cs@.len() ==> !self.lands_on_spec(#[trigger] cs@[j], gate_open),
            },
    {
        let mut i: usize = 0;
        while i < cs.len()
            invariant
                self.wf(),
                i <= cs@.len(),
                forall|k: int| 0 <= k < cs@.len() ==> (#[trigger] cs@[k]).wf(),
                forall|j: int| 0 <= j < i ==> !self.lands_on_spec(#[trigger] cs@[j], gate_open),
            decreases cs@.len() - i,
        {
            let c = &cs[i];
            if blocks(c.tag, gate_open) && self.vy >= 0 && self.x < c.x + c.w && c.x < self.x
                + self.cfg.width && c.y <= self.y + self.cfg.height && self.y + self.cfg.height
                - self.vy <= c.y {
                return Some(i);
            }
            i = i + 1;
        }
        None
    }

    /// Applies one tick of intent: steers left or right (or, with neither or
    /// both, slows down), then jumps when asked and allowed. Returns whether
    /// it jumped. Ignored while the body is immobilized or frozen.
    pub fn apply_input(&mut self, left: bool, right: bool, jump: bool) -> (r: bool)
        requires
            old(self).wf(),
        ensures
            final(self).wf(),
            *final(self) == old(self).input_spec(left, right, jump),
            r == (jump && old(self).steer_spec(left, right).can_jump()),
    {
        if self.immobilized || self.frozen {
            return false;
        }
        if left && !right {
            self.accelerate_left();
        } else if right && !left {
            self.accelerate_right();
        } else {
            self.decelerate();
        }
        if jump {
            self.jump()
        } else {
            false
        }
    }

    pub open spec fn land_spec(&self, top: int) -> Body {
        Body {
            y: clamp_spec(top - self.cfg.height, -COORD_MAX, COORD_MAX as int) as i64,
            vy: 0,
            jumps_left: self.cfg.max_jumps,
            grounded: true,
            ..*self
        }
    }

    /// `i` is the first collider of `cs` that the body lands on.
    pub open spec fn is_first_landing(&self, cs: Seq<Collider>, gate_open: bool, i: int) -> bool {
        &&& 0 <= i < cs.len()
        &&& self.lands_on_spec(cs[i], gate_open)
        &&& forall|j: int| 0 <= j < i ==> !self.lands_on_spec(#[trigger] cs[j], gate_open)
    }

    /// The body after grounding against `cs`: landed on the first collider
    /// it lands on, or unchanged where there is none.
    pub open spec fn settle_spec(&self, cs: Seq<Collider>, gate_open: bool) -> Body {
        if exists|i: int| self.is_first_landing(cs, gate_open, i) {
            let i = choose|i: int| self.is_first_landing(cs, gate_open, i);
            self.land_spec(cs[i].y as int)
        } else {
            *self
        }
    }

    /// Grounding: lands the body on the first collider of `cs` it lands on
    /// this tick, if any; returns whether it landed.
    pub fn settle(&mut self, cs: &Vec<Collider>, gate_open: bool) -> (r: bool)
        requires
            old(self).wf(),
            forall|i: int| 0 <= i < cs@.len() ==> (#[trigger] cs@[i]).wf(),
        ensures
            final(self).wf(),
            r == exists|i: int| 0 <= i < cs@.len() && old(self).lands_on_spec(#[trigger] cs@[i], gate_open),
            r ==> exists|i: int| {
                &&& 0 <= i < cs@.len()
                &&& old(self).lands_on_spec(#[trigger] cs@[i], gate_open)
                &&& forall|j: int| 0 <= j < i ==> !old(self).lands_on_spec(#[trigger] cs@[j], gate_open)
                &&& *final(self) == old(self).land_spec(cs@[i].y as int)
            },
            !r ==> *final(self) == *old(self),
            *final(self) == old(self).settle_spec(cs@, gate_open),
    {
        match self.find_landing(cs, gate_open) {
            Some(i) => {
                proof {
                    assert(self.is_first_landing(cs@, gate_open, i as int));
                    let k = choose|k: int| self.is_first_landing(cs@, gate_open, k);
                    if k < i {
                        assert(!self.lands_on_spec(cs@[k], gate_open));
                    } else if i < k {
                        assert(!self.lands_on_spec(cs@[i as int], gate_open));
                    }
                }
                let top = cs[i].y;
                self.land(top);
                true
            },
            None => {
                assert(!exists|i: int| self.is_first_landing(cs@, gate_open, i));
                false
            },
        }
    }

    /// The body meets `c` as `kind` this tick: `c` blocks and overlaps the
    /// body across the direction of motion, and the body's leading edge
    /// passed `c`'s near edge during this tick's move.
    pub open spec fn meets_spec(&self, kind: Obstacle, c: Collider, gate_open: bool) -> bool {
        &&& blocks_spec(c.tag, gate_open)
        &&& match kind {
            Obstacle::Ceiling => {
                &&& self.vy < 0
                &&& self.x < c.x + c.w
                &&& c.x < self.x + self.cfg.width
                &&& self.y <= c.y + c.h
                &&& self.y - self.vy >= c.y + c.h
            },
            Obstacle::Wall => {
                &&& self.y < c.y + c.h
                &&& c.y < self.y + self.cfg.height
                &&& ((self.vx > 0 && c.x < self.x + self.cfg.width && self.x + self.cfg.width - self.vx <= c.x)
                    || (self.vx < 0 && self.x < c.x + c.w && self.x - self.vx >= c.x + c.w))
            },
        }
    }

    /// The body stopped by `c`: against its bottom for a ceiling, against
    /// the side it ran into for a wall, with that speed zeroed.
    pub open spec fn stopped_spec(&self, kind: Obstacle, c: Collider) -> Body {
        match kind {
            Obstacle::Ceiling => Body {
                y: clamp_spec(c.y + c.h, -COORD_MAX, COORD_MAX as int) as i64,
                vy: 0,
                ..*self
            },
            Obstacle::Wall => Body {
                x: clamp_spec(if self.vx > 0 { c.x - self.cfg.width } else { c.x + c.w }, -COORD_MAX, COORD_MAX as int) as i64,
                vx: 0,
                ..*self
            },
        }
    }

    pub open spec fn is_first_obstacle(&self, kind: Obstacle, cs: Seq<Collider>, gate_open: bool, i: int) -> bool {
        &&& 0 <= i < cs.len()
        &&& self.meets_spec(kind, cs[i], gate_open)
        &&& forall|j: int| 0 <= j < i ==> !self.meets_spec(kind, #[trigger] cs[j], gate_open)
    }

    /// The body after meeting the first obstacle of `kind` in `cs`, if any.
    pub open spec fn stop_spec(&self, kind: Obstacle, cs: Seq<Collider>, gate_open: bool) -> Body {
        if exists|i: int| self.is_first_obstacle(kind, cs, gate_open, i) {
            let i = choose|i: int| self.is_first_obstacle(kind, cs, gate_open, i);
            self.stopped_spec(kind, cs[i])
        } else {
            *self
        }
    }

    /// Grounding, then ceilings, then walls.
    pub open spec fn collide_spec(&self, cs: Seq<Collider>, gate_open: bool) -> Body {
        self.settle_spec(cs, gate_open).stop_spec(Obstacle::Ceiling, cs, gate_open).stop_spec(Obstacle::Wall, cs,
            gate_open)
    }

    fn meets(&self, kind: Obstacle, c: &Collider, gate_open: bool) -> (r: bool)
        requires
            self.wf(),
            c.wf(),
        ensures
            r == self.meets_spec(kind, *c, gate_open),
    {
        if !blocks(c.tag, gate_open) {
            return false;
        }
        let (x, y, w, h) = (self.x, self.y, self.cfg.width, self.cfg.height);
        match kind {
            Obstacle::Ceiling => self.vy < 0 && x < c.x + c.w && c.x < x + w && y <= c.y + c.h && y - self.vy >= c.y
                + c.h,
            Obstacle::Wall => y < c.y + c.h && c.y < y + h && ((self.vx > 0 && c.x < x + w && x + w - self.vx <= c.x) || (
            self.vx < 0 && x < c.x + c.w && x - self.vx >= c.x + c.w)),
        }
    }

    /// Stops the body at the first obstacle of `kind` in `cs` that it
    /// meets this tick; returns whether there was one.
    pub fn stop_at(&mut self, kind: Obstacle, cs: &Vec<Collider>, gate_open: bool) -> (r: bool)
        requires
            old(self).wf(),
            forall|i: int| 0 <= i < cs@.len() ==> (#[trigger] cs@[i]).wf(),
        ensures
            final(self).wf(),
            r == exists|i: int| old(self).is_first_obstacle(kind, cs@, gate_open, i),
            *final(self) == old(self).stop_spec(kind, cs@, gate_open),
    {
        let mut i: usize = 0;
        while i < cs.len()
            invariant
                *self == *old(self),
                self.wf(),
                i <= cs@.len(),
                forall|k: int| 0 <= k < cs@.len() ==> (#[trigger] cs@[k]).wf(),
                forall|j: int| 0 <= j < i ==> !self.meets_spec(kind, #[trigger] cs@[j], gate_open),
            decreases cs@.len() - i,
        {
            if self.meets(kind, &cs[i], gate_open) {
                proof {
                    assert(self.is_first_obstacle(kind, cs@, gate_open, i as int));
                    let k = choose|k: int| self.is_first_obstacle(kind, cs@, gate_open, k);
                    if k < i {
                        assert(!self.meets_spec(kind, cs@[k], gate_open));
                    } else if i < k {
                        assert(!self.meets_spec(kind, cs@[i as int], gate_open));
                    }
                }
                let c = cs[i];
                match kind {
                    Obstacle::Ceiling => {
                        self.y = clamp_coord(c.y + c.h);
                        self.vy = 0;
                    },
                    Obstacle::Wall => {
                        self.x = clamp_coord(if self.vx > 0 { c.x - self.cfg.width } else { c.x + c.w });
                        self.vx = 0;
                    },
                }
                return true;
            }
            i = i + 1;
        }
        assert(!exists|k: int| self.is_first_obstacle(kind, cs@, gate_open, k));
        false
    }

    /// Grounding, then ceilings, then walls; returns whether the body landed.
    pub fn collide(&mut self, cs: &Vec<Collider>, gate_open: bool) -> (r: bool)
        requires
            old(self).wf(),
            forall|i: int| 0 <= i < cs@.len() ==> (#[trigger] cs@[i]).wf(),
        ensures
            final(self).wf(),
            r == exists|i: int| old(self).is_first_landing(cs@, gate_open, i),
            *final(self) == old(self).collide_spec(cs@, gate_open),
    {
        let landed = self.settle(cs, gate_open);
        proof {
            if landed {
                let i = choose|i: int| 0 <= i < cs@.len() && old(self).lands_on_spec(#[trigger] cs@[i], gate_open) && (
                forall|j: int| 0 <= j < i ==> !old(self).lands_on_spec(#[trigger] cs@[j], gate_open)) && *self == old(
                    self).land_spec(cs@[i].y as int);
                assert(old(self).is_first_landing(cs@, gate_open, i));
            } else {
                assert(!exists|i: int| old(self).is_first_landing(cs@, gate_open, i));
            }
        }
        self.stop_at(Obstacle::Ceiling, cs, gate_open);
        self.stop_at(Obstacle::Wall, cs, gate_open);
        landed
    }

    /// Puts the body back at its start position, at rest.
    pub fn respawn(&mut self)
        requires
            old(self).wf(),
        ensures
            final(self).wf(),
            *final(self) == old(self).respawn_spec(),
    {
        self.x = self.start_x;
        self.y = self.start_y;
        self.vx = 0;
        self.vy = 0;
        self.grounded = false;
    }

    /// Records a new start position; the body stays where it is.
    pub fn set_start(&mut self, x: i64, y: i64)
        requires
            old(self).wf(),
            in_coord_range(x as int),
            in_coord_range(y as int),
        ensures
            final(self).wf(),
            *final(self) == (Body { start_x: x, start_y: y, ..*old(self) }),
    {
        self.start_x = x;
        self.start_y = y;
    }

    /// Stops intent and motion both, or lets them run again.
    pub fn set_frozen(&mut self, frozen: bool)
        requires
            old(self).wf(),
        ensures
            final(self).wf(),
            *final(self) == (Body { frozen, ..*old(self) }),
    {
        self.frozen = frozen;
    }

    /// Stops intent, or lets it through again; motion goes on either way.
    pub fn set_immobilized(&mut self, immobilized: bool)
        requires
            old(self).wf(),
        ensures
            final(self).wf(),
            *final(self) == (Body { immobilized, ..*old(self) }),
    {
        self.immobilized = immobilized;
    }
}

/// However many ticks a body falls, its vertical speed stays within the
/// terminal speed in both directions, and the body stays well formed.
pub proof fn lemma_fall_speed_bounded(b: Body, n: nat)
    requires
        b.wf(),
    ensures
        b.fall_ticks(n).wf(),
        -b.cfg.terminal_speed <= b.fall_ticks(n).vy <= b.cfg.terminal_speed,
        b.fall_ticks(n).cfg == b.cfg,
    decreases n,
{
    if n > 0 {
        lemma_fall_speed_bounded(b, (n - 1) as nat);
    }
}

} // verus!
