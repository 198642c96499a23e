use vstd::prelude::*;
use crate::animation::{next_counters, AnimMachine, Snapshot};
use crate::block::{presses, presses_spec, Block};
use crate::collider::{overlaps_spec, Collider};
use crate::geometry::{clamp_coord, clamp_spec, in_coord_range, COORD_MAX};
use crate::physics::{Body, PhysicsConfig};
use crate::portal::{aim_end, aim_end_spec, placement, placement_spec, PortalPair};

verus! {

/// The geometry of one level, built fresh each time a level is loaded.
#[derive(Clone, Debug)]
pub struct Level {
    pub colliders: Vec<Collider>,
    /// The exit: touching it ends the level.
    pub door: Collider,
    pub start_x: i64,
    pub start_y: i64,
    pub block_start_x: i64,
    pub block_start_y: i64,
    /// The pressure plate, if the level has one.
    pub plate: Option<Collider>,
    /// The world rectangle is `[0, width] x [0, height]`.
    pub width: i64,
    pub height: i64,
}

impl Level {
    pub open spec fn wf(&self) -> bool {
        &&& forall|i: int| 0 <= i < self.colliders@.len() ==> (#[trigger] self.colliders@[i]).wf()
        &&& self.door.wf()
        &&& in_coord_range(self.start_x as int)
        &&& in_coord_range(self.start_y as int)
        &&& 0 <= self.start_x <= self.width
        &&& 0 <= self.start_y <= self.height
        &&& in_coord_range(self.block_start_x as int)
        &&& in_coord_range(self.block_start_y as int)
        &&& self.plate matches Some(c) ==> c.wf()
        &&& 0 <= self.width <= COORD_MAX
        &&& 0 <= self.height <= COORD_MAX
    }

    /// The body has left the world rectangle.
    pub open spec fn out_of_bounds_spec(&self, b: Body) -> bool {
        b.x < 0 || b.x > self.width || b.y < 0 || b.y > self.height
    }

    pub fn out_of_bounds(&self, b: &Body) -> (r: bool)
        ensures
            r == self.out_of_bounds_spec(*b),
    {
        b.x < 0 || b.x > self.width || b.y < 0 || b.y > self.height
    }
}

/// Where an entity stands in its life.
#[derive(Clone, Copy, Debug, PartialEq, Eq, Structural)]
pub enum Lifecycle {
    Alive,
    Dead,
    LevelTransition,
}

/// What the player asks for in one tick.
#[derive(Clone, Copy, Debug, PartialEq, Eq, Structural)]
pub struct Intent {
    pub left: bool,
    pub right: bool,
    pub jump: bool,
    pub cancel_portals: bool,
    pub restart: bool,
    /// Pick the block up, or put it down.
    pub pick_up: bool,
    /// Open the first portal where the player aims.
    pub open_first: bool,
    /// Open the second portal where the player aims; after the first.
    pub open_second: bool,
    pub aim_x: i64,
    pub aim_y: i64,
}

/// What happened in one tick.
#[derive(Clone, Copy, Debug, PartialEq, Eq, Structural)]
pub struct TickReport {
    pub jumped: bool,
    pub landed: bool,
    pub teleported: bool,
    pub died: bool,
    pub reached_door: bool,
}

/// The velocity that the animation conditions read.
pub open spec fn snapshot_spec(b: Body) -> Snapshot {
    Snapshot { vx: b.vx, vy: b.vy }
}

pub fn snapshot_of(b: &Body) -> (r: Snapshot)
    ensures
        r == snapshot_spec(*b),
{
    Snapshot { vx: b.vx, vy: b.vy }
}

/// Where the player's aim ends: the ray from the body's centre toward the
/// aim point, both kept inside the world's coordinate range.
pub open spec fn aim_spot_spec(cs: Seq<Collider>, b: Body, intent: Intent) -> (int, int) {
    let c = |v: int| clamp_spec(v, -COORD_MAX, COORD_MAX as int);
    aim_end_spec(cs, c(b.x + b.cfg.width / 2), c(b.y + b.cfg.height / 2), c(intent.aim_x as int), c(intent.aim_y as int))
}

/// The pair with portal `id` opened where the aim ends on a surface that
/// takes it; unchanged otherwise.
pub open spec fn open_at_aim(p: PortalPair, id: u8, cs: Seq<Collider>, ax: int, ay: int) -> PortalPair {
    match placement_spec(cs, ax, ay, p.long_side as int, p.short_side as int) {
        Some((x, y, q)) => p.opened_spec(id, x, y, q),
        None => p,
    }
}

/// The portals after a tick's commands: restart or cancel closes both,
/// then the first and the second portal open where the aim of the body
/// `b` ends.
pub open spec fn commands_portals_spec(p: PortalPair, cs: Seq<Collider>, b: Body, intent: Intent) -> PortalPair {
    let closed = if intent.restart || intent.cancel_portals { p.closed_spec() } else { p };
    let (ax, ay) = aim_spot_spec(cs, b, intent);
    let a = if intent.open_first { open_at_aim(closed, 0, cs, ax, ay) } else { closed };
    if intent.open_second { open_at_aim(a, 1, cs, ax, ay) } else { a }
}

/// The body after a tick's commands: restart puts it back at its start.
pub open spec fn commands_body_spec(b: Body, intent: Intent) -> Body {
    if intent.restart { b.respawn_spec() } else { b }
}

/// The block after a tick's commands: restart puts it back at its start,
/// then a pick-up intent takes it up or puts it down.
pub open spec fn commands_block_spec(bl: Block, player: Body, intent: Intent) -> Block {
    let r = if intent.restart { bl.respawn_spec() } else { bl };
    if intent.pick_up { r.toggle_spec(player) } else { r }
}

/// The block after its part of a tick: held over the player while carried;
/// otherwise gravity and motion, grounding, ceilings and walls, and a teleport through the
/// player's portals, and back to its start once it leaves the world.
pub open spec fn block_motion_spec(bl: Block, player: Body, p: PortalPair, level: Level, gate_open: bool) -> Block {
    if bl.carried {
        bl.follow_spec(player)
    } else {
        let moved = bl.body.integrate_spec();
        let settled = moved.collide_spec(level.colliders@, gate_open);
        let b = PortalPair { used_this_tick: false, ..p }.teleport_spec(settled).1;
        if level.out_of_bounds_spec(b) {
            Block { body: b, ..bl }.respawn_spec()
        } else {
            Block { body: b, ..bl }
        }
    }
}

/// Whether the sprite faces left: moving right turns it right, moving left
/// turns it left, standing still keeps it.
pub open spec fn flip_spec(flip: bool, vx: int) -> bool {
    if vx > 0 { false } else if vx < 0 { true } else { flip }
}

/// One entity in one level: everything a tick reads and changes.
#[derive(Clone, Debug)]
pub struct Game {
    pub body: Body,
    pub block: Block,
    pub portals: PortalPair,
    pub anim: AnimMachine,
    pub level: Level,
    pub state: Lifecycle,
    pub flip: bool,
}

impl Game {
    /// Well formed, and the body inside the world rectangle: the state at
    /// every tick boundary.
    pub open spec fn wf(&self) -> bool {
        &&& self.parts_wf()
        &&& !self.level.out_of_bounds_spec(self.body)
    }

    /// Every part well formed and tied to the level; the body may be
    /// anywhere.
    pub open spec fn parts_wf(&self) -> bool {
        &&& self.body.wf()
        &&& self.portals.wf()
        &&& self.anim.wf()
        &&& self.level.wf()
        &&& self.state != Lifecycle::Dead
        &&& self.body.start_x == self.level.start_x
        &&& self.body.start_y == self.level.start_y
        &&& self.block.wf()
        &&& self.block.body.start_x == self.level.block_start_x
        &&& self.block.body.start_y == self.level.block_start_y
    }

    /// A game at the start of `level` with both portals closed.
    pub fn new(cfg: PhysicsConfig, block_cfg: PhysicsConfig, anim: AnimMachine, level: Level, portal_long: i64, portal_short: i64) -> (r: Game)
        requires
            cfg.wf(),
            block_cfg.wf(),
            anim.wf(),
            level.wf(),
            0 <= portal_short <= portal_long <= COORD_MAX,
        ensures
            r.wf(),
            r.body == Body::new_spec(cfg, level.start_x, level.start_y),
            r.block == (Block { body: Body::new_spec(block_cfg, level.block_start_x, level.block_start_y), carried: false }),
            !r.portals.first.open && !r.portals.second.open,
            r.state == Lifecycle::Alive,
            r.portals == PortalPair::new_spec(portal_long, portal_short),
            !r.flip,
            r.anim.bindings@ == anim.bindings@,
            r.anim.active == anim.active && r.anim.frame == anim.frame && r.anim.elapsed == anim.elapsed,
            r.anim.frozen == anim.frozen && r.anim.frame_w == anim.frame_w && r.anim.frame_h == anim.frame_h,
            r.level.colliders@ == level.colliders@,
            r.level.door == level.door,
            r.level.start_x == level.start_x && r.level.start_y == level.start_y,
            r.level.width == level.width && r.level.height == level.height,
            r.level.block_start_x == level.block_start_x && r.level.block_start_y == level.block_start_y,
            r.level.plate == level.plate,
    {
        let body = Body::new(cfg, level.start_x, level.start_y);
        let block = Block::new(block_cfg, level.block_start_x, level.block_start_y);
        let portals = PortalPair::new(portal_long, portal_short);
        Game { body, block, portals, anim, level, state: Lifecycle::Alive, flip: false }
    }

    /// Restart, cancel-portals and portal-open intents, in that order. A
    /// portal opens only where the aim falls on a surface that takes one.
    pub fn handle_commands(&mut self, intent: &Intent)
        requires
            old(self).wf(),
        ensures
            final(self).wf(),
            final(self).state == old(self).state,
            final(self).anim == old(self).anim,
            final(self).level == old(self).level,
            final(self).flip == old(self).flip,
            final(self).body == commands_body_spec(old(self).body, *intent),
            final(self).block == commands_block_spec(old(self).block, commands_body_spec(old(self).body, *intent),
                *intent),
            final(self).portals == commands_portals_spec(old(self).portals, old(self).level.colliders@,
                commands_body_spec(old(self).body, *intent), *intent),
    {
        if intent.restart {
            self.body.respawn();
            self.block.respawn();
        }
        if intent.pick_up {
            self.block.toggle_carry(&self.body);
        }
        if intent.restart || intent.cancel_portals {
            self.portals.close_all();
        }
        let b = self.body;
        let (ax, ay) = aim_end(
            &self.level.colliders,
            clamp_coord(b.x + b.cfg.width / 2),
            clamp_coord(b.y + b.cfg.height / 2),
            clamp_coord(intent.aim_x),
            clamp_coord(intent.aim_y),
        );
        if intent.open_first {
            let spot = placement(&self.level.colliders, ax, ay, self.portals.long_side, self.portals.short_side);
            if let Some((x, y, q)) = spot {
                self.portals.open_portal(0, x, y, q);
            }
        }
        if intent.open_second {
            let spot = placement(&self.level.colliders, ax, ay, self.portals.long_side, self.portals.short_side);
            if let Some((x, y, q)) = spot {
                self.portals.open_portal(1, x, y, q);
            }
        }
    }

    /// Death and level completion, in that order. A body outside the world
    /// rectangle dies and respawns at once; otherwise a body touching the
    /// door starts the level transition, which stops input and motion.
    /// Returns `(died, reached_door)`.
    pub fn resolve_lifecycle(&mut self) -> (r: (bool, bool))
        requires
            old(self).parts_wf(),
            old(self).state == Lifecycle::Alive,
        ensures
            final(self).wf(),
            r.0 == (old(self).state == Lifecycle::Alive && old(self).level.out_of_bounds_spec(old(self).body)),
            r.1 == (old(self).state == Lifecycle::Alive && !r.0 && overlaps_spec(old(self).body.collider_spec(),
                old(self).level.door)),
            r.0 ==> final(self).body == old(self).body.respawn_spec() && final(self).state == Lifecycle::Alive,
            r.1 ==> final(self).body == (Body { frozen: true, ..old(self).body }) && final(self).state
                == Lifecycle::LevelTransition && final(self).anim.frozen,
            !r.0 && !r.1 ==> final(self).body == old(self).body && final(self).state == old(self).state
                && final(self).anim.frozen == old(self).anim.frozen,
            final(self).anim.bindings@ == old(self).anim.bindings@,
            final(self).anim.frozen == (old(self).anim.frozen || r.1),
            final(self).anim.frame_w == old(self).anim.frame_w,
            final(self).anim.frame_h == old(self).anim.frame_h,
            final(self).anim.active == old(self).anim.active,
            final(self).anim.frame == old(self).anim.frame,
            final(self).anim.elapsed == old(self).anim.elapsed,
            final(self).portals == old(self).portals,
            final(self).level == old(self).level,
            final(self).flip == old(self).flip,
            final(self).block == old(self).block,
    {
        if self.state != Lifecycle::Alive {
            return (false, false);
        }
        if self.level.out_of_bounds(&self.body) {
            self.state = Lifecycle::Dead;
            self.body.respawn();
            self.state = Lifecycle::Alive;
            return (true, false);
        }
        let b = self.body.collider();
        if b.is_touching(&self.level.door) {
            self.state = Lifecycle::LevelTransition;
            self.body.set_frozen(true);
            self.anim.set_frozen(true);
            return (false, true);
        }
        (false, false)
    }

    /// The moving part of a tick: input, gravity and motion, grounding,
    /// ceilings and walls, and teleport. Returns `(jumped, landed, teleported)`.
    pub fn step_motion(&mut self, intent: &Intent, gate_open: bool) -> (r: (bool, bool, bool))
        requires
            old(self).wf(),
        ensures
            final(self).parts_wf(),
            final(self).state == old(self).state,
            final(self).anim == old(self).anim,
            final(self).level == old(self).level,
            final(self).flip == old(self).flip,
            final(self).body.cfg == old(self).body.cfg,
            final(self).body.frozen == old(self).body.frozen,
            final(self).body.immobilized == old(self).body.immobilized,
            final(self).block == old(self).block,
            r.0 == (intent.jump && old(self).body.steer_spec(intent.left, intent.right).can_jump()),
            r.1 ==> final(self).body.jumps_left == final(self).body.cfg.max_jumps,
            !r.1 && r.0 ==> final(self).body.jumps_left == old(self).body.jumps_left - 1,
            !r.1 && !r.0 ==> final(self).body.jumps_left == old(self).body.jumps_left,
            ({
                let moved = old(self).body.input_spec(intent.left, intent.right, intent.jump).integrate_spec();
                let settled = moved.collide_spec(old(self).level.colliders@, gate_open);
                &&& r.1 == exists|i: int| moved.is_first_landing(old(self).level.colliders@, gate_open, i)
                &&& r.2 == old(self).portals.crossing_spec(settled).is_some()
                &&& (final(self).portals, final(self).body) == old(self).portals.teleport_spec(settled)
            }),
            !(old(self).portals.first.open && old(self).portals.second.open) ==> !r.2,
    {
        let jumped = self.body.apply_input(intent.left, intent.right, intent.jump);
        self.body.integrate();
        let landed = self.body.collide(&self.level.colliders, gate_open);
        let teleported = self.portals.teleport(&mut self.body);
        (jumped, landed, teleported)
    }

    /// The block's part of a tick, after the player's.
    pub fn step_block(&mut self, gate_open: bool)
        requires
            old(self).wf(),
        ensures
            final(self).wf(),
            final(self).block == block_motion_spec(old(self).block, old(self).body, old(self).portals, old(self).level,
                gate_open),
            final(self).body == old(self).body,
            final(self).portals == old(self).portals,
            final(self).anim == old(self).anim,
            final(self).level == old(self).level,
            final(self).state == old(self).state,
            final(self).flip == old(self).flip,
    {
        if self.block.carried {
            self.block.follow(&self.body);
            return;
        }
        self.block.body.integrate();
        self.block.body.collide(&self.level.colliders, gate_open);
        let mut pair = self.portals;
        pair.used_this_tick = false;
        pair.teleport(&mut self.block.body);
        if self.level.out_of_bounds(&self.block.body) {
            self.block.respawn();
        }
    }

    /// Whether the block presses the level's plate, which opens its gate.
    pub fn gate_open(&self) -> (r: bool)
        requires
            self.wf(),
        ensures
            r == match self.level.plate {
                Some(p) => presses_spec(p, self.block),
                None => false,
            },
    {
        match &self.level.plate {
            Some(p) => presses(p, &self.block),
            None => false,
        }
    }

    /// One tick: commands, input, gravity and motion, grounding, ceilings
    /// and walls, teleport,
    /// death or level completion, animation, facing. A game in its level
    /// transition waits for `load_level` and does nothing.
    pub fn tick(&mut self, intent: &Intent, gate_open: bool) -> (r: TickReport)
        requires
            old(self).wf(),
        ensures
            final(self).wf(),
            old(self).state == Lifecycle::LevelTransition ==> *final(self) == *old(self) && r == (TickReport {
                jumped: false,
                landed: false,
                teleported: false,
                died: false,
                reached_door: false,
            }),
            final(self).body.cfg == old(self).body.cfg,
            final(self).level == old(self).level,
            final(self).anim.bindings@ == old(self).anim.bindings@,
            old(self).state == Lifecycle::Alive ==> ({
                let cs = old(self).level.colliders@;
                let b0 = commands_body_spec(old(self).body, *intent);
                let p0 = commands_portals_spec(PortalPair { used_this_tick: false, ..old(self).portals }, cs, b0,
                    *intent);
                let moved = b0.input_spec(intent.left, intent.right, intent.jump).integrate_spec();
                let settled = moved.collide_spec(cs, gate_open);
                let (p1, b1) = p0.teleport_spec(settled);
                &&& r.jumped == (intent.jump && b0.steer_spec(intent.left, intent.right).can_jump())
                &&& r.landed == exists|i: int| moved.is_first_landing(cs, gate_open, i)
                &&& r.teleported == p0.crossing_spec(settled).is_some()
                &&& r.died == old(self).level.out_of_bounds_spec(b1)
                &&& r.reached_door == (!r.died && overlaps_spec(b1.collider_spec(), old(self).level.door))
                &&& final(self).portals == p1
                &&& final(self).body == if r.died { b1.respawn_spec() } else if r.reached_door {
                    Body { frozen: true, ..b1 } } else { b1 }
                &&& final(self).state == if r.reached_door { Lifecycle::LevelTransition } else { Lifecycle::Alive }
                &&& final(self).anim.frozen == (old(self).anim.frozen || r.reached_door)
                &&& final(self).block == block_motion_spec(commands_block_spec(old(self).block, b0, *intent),
                    final(self).body, final(self).portals, old(self).level, gate_open)
                &&& final(self).flip == flip_spec(old(self).flip, final(self).body.vx as int)
            }),
            final(self).anim.frame_w == old(self).anim.frame_w,
            final(self).anim.frame_h == old(self).anim.frame_h,
            final(self).anim.frozen ==> final(self).anim.active == old(self).anim.active && final(self).anim.frame
                == old(self).anim.frame && final(self).anim.elapsed == old(self).anim.elapsed,
            // the jump budget rises only by landing and falls only by a jump
            r.landed ==> final(self).body.jumps_left == final(self).body.cfg.max_jumps,
            !r.landed && r.jumped ==> final(self).body.jumps_left == old(self).body.jumps_left - 1,
            !r.landed && !r.jumped ==> final(self).body.jumps_left == old(self).body.jumps_left,
            r.died ==> final(self).body.x == final(self).level.start_x && final(self).body.y == final(self).level.start_y
                && final(self).body.vx == 0 && final(self).body.vy == 0 && final(self).state == Lifecycle::Alive,
            old(self).state == Lifecycle::Alive && !final(self).anim.frozen ==> (final(self).anim.active as int,
                final(self).anim.frame as int,
                final(self).anim.elapsed as int) == next_counters(old(self).anim.bindings@,
                old(self).anim.active as int, old(self).anim.frame as int, old(self).anim.elapsed as int,
                snapshot_spec(final(self).body)),
    {
        let quiet = TickReport { jumped: false, landed: false, teleported: false, died: false, reached_door: false };
        if self.state == Lifecycle::LevelTransition {
            return quiet;
        }
        self.portals.begin_tick();
        self.handle_commands(intent);
        let (jumped, landed, teleported) = self.step_motion(intent, gate_open);
        let (died, reached_door) = self.resolve_lifecycle();
        self.step_block(gate_open);
        let snap = snapshot_of(&self.body);
        self.anim.tick(snap);
        if self.body.vx > 0 {
            self.flip = false;
        } else if self.body.vx < 0 {
            self.flip = true;
        }
        TickReport { jumped, landed, teleported, died, reached_door }
    }

    /// Starts `level`: the body at its start, at rest and free to move,
    /// both portals closed, the animation running again.
    pub fn load_level(&mut self, level: Level)
        requires
            old(self).wf(),
            level.wf(),
        ensures
            final(self).wf(),
            final(self).level.colliders@ == level.colliders@,
            final(self).level.door == level.door,
            final(self).level.start_x == level.start_x && final(self).level.start_y == level.start_y,
            final(self).level.width == level.width && final(self).level.height == level.height,
            final(self).body == (Body {
                x: level.start_x,
                y: level.start_y,
                start_x: level.start_x,
                start_y: level.start_y,
                vx: 0,
                vy: 0,
                grounded: false,
                frozen: false,
                ..old(self).body
            }),
            final(self).block == (Block {
                body: Body {
                    x: level.block_start_x,
                    y: level.block_start_y,
                    start_x: level.block_start_x,
                    start_y: level.block_start_y,
                    vx: 0,
                    vy: 0,
                    grounded: false,
                    ..old(self).block.body
                },
                carried: false,
            }),
            final(self).level.block_start_x == level.block_start_x,
            final(self).level.block_start_y == level.block_start_y,
            final(self).level.plate == level.plate,
            !final(self).portals.first.open && !final(self).portals.second.open,
            final(self).portals == old(self).portals.closed_spec(),
            final(self).state == Lifecycle::Alive,
            !final(self).anim.frozen,
            final(self).anim.active == old(self).anim.active,
            final(self).anim.frame == old(self).anim.frame,
            final(self).anim.elapsed == old(self).anim.elapsed,
            final(self).anim.frame_w == old(self).anim.frame_w,
            final(self).anim.frame_h == old(self).anim.frame_h,
            final(self).flip == old(self).flip,
            final(self).anim.bindings@ == old(self).anim.bindings@,
    {
        self.body.set_start(level.start_x, level.start_y);
        self.body.respawn();
        self.body.set_frozen(false);
        self.block.body.set_start(level.block_start_x, level.block_start_y);
        self.block.respawn();
        self.portals.close_all();
        self.anim.set_frozen(false);
        self.level = level;
        self.state = Lifecycle::Alive;
    }
}

/// Respawning puts the body at the current level's recorded start with
/// zero velocity, whatever its position and velocity were (mid-air, or in
/// the middle of a portal crossing).
pub proof fn lemma_respawn_at_level_start(g: Game)
    requires
        g.wf(),
    ensures
        g.body.respawn_spec().x == g.level.start_x,
        g.body.respawn_spec().y == g.level.start_y,
        g.body.respawn_spec().vx == 0,
        g.body.respawn_spec().vy == 0,
        g.body.respawn_spec().wf(),
{
}

} // verus!
