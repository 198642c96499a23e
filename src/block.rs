use vstd::prelude::*;
use crate::collider::{overlaps_spec, Collider, SurfaceTag};
use crate::geometry::{clamp_coord, clamp_spec, in_coord_range, COORD_MAX};
use crate::physics::{Body, PhysicsConfig};

verus! {

/// The pushable block: a body of its own, carried by the player or free.
#[derive(Clone, Copy, Debug, PartialEq, Eq, Structural)]
pub struct Block {
    pub body: Body,
    pub carried: bool,
}

impl Block {
    pub open spec fn wf(&self) -> bool {
        self.body.wf()
    }

    /// The block after a pick-up-or-drop intent: a carried block is put
    /// down; a free one is picked up when the player touches it.
    pub open spec fn toggle_spec(&self, player: Body) -> Block {
        if self.carried {
            Block { carried: false, ..*self }
        } else if overlaps_spec(player.collider_spec(), self.body.collider_spec()) {
            Block { carried: true, body: Body { vx: 0, vy: 0, ..self.body }, ..*self }
        } else {
            *self
        }
    }

    /// Where a carried block is held: above the player's head, centred.
    pub open spec fn follow_spec(&self, player: Body) -> Block {
        Block {
            body: Body {
                x: clamp_spec(player.x + player.cfg.width / 2 - self.body.cfg.width / 2, -COORD_MAX, COORD_MAX as int) as i64,
                y: clamp_spec(player.y - self.body.cfg.height, -COORD_MAX, COORD_MAX as int) as i64,
                vx: 0,
                vy: 0,
                ..self.body
            },
            ..*self
        }
    }

    /// The block back at its start, at rest and free.
    pub open spec fn respawn_spec(&self) -> Block {
        Block { body: self.body.respawn_spec(), carried: false }
    }

    /// A free block at rest at `(x, y)`.
    pub fn new(cfg: PhysicsConfig, x: i64, y: i64) -> (r: Block)
        requires
            cfg.wf(),
            in_coord_range(x as int),
            in_coord_range(y as int),
        ensures
            r.wf(),
            r == (Block { body: Body::new_spec(cfg, x, y), carried: false }),
    {
        Block { body: Body::new(cfg, x, y), carried: false }
    }

    pub fn collider(&self) -> (r: Collider)
        requires
            self.wf(),
        ensures
            r == self.body.collider_spec(),
            r.wf(),
    {
        self.body.collider()
    }

    /// Picks the block up or puts it down.
    pub fn toggle_carry(&mut self, player: &Body)
        requires
            old(self).wf(),
            player.wf(),
        ensures
            final(self).wf(),
            *final(self) == old(self).toggle_spec(*player),
    {
        if self.carried {
            self.carried = false;
        } else if player.collider().overlaps(&self.collider()) {
            self.carried = true;
            self.body.vx = 0;
            self.body.vy = 0;
        }
    }

    /// Holds a carried block over the player.
    pub fn follow(&mut self, player: &Body)
        requires
            old(self).wf(),
            player.wf(),
        ensures
            final(self).wf(),
            *final(self) == old(self).follow_spec(*player),
    {
        self.body.x = clamp_coord(player.x + player.cfg.width / 2 - self.body.cfg.width / 2);
        self.body.y = clamp_coord(player.y - self.body.cfg.height);
        self.body.vx = 0;
        self.body.vy = 0;
    }

    /// Puts the block back at its start, free and at rest.
    pub fn respawn(&mut self)
        requires
            old(self).wf(),
        ensures
            final(self).wf(),
            *final(self) == old(self).respawn_spec(),
    {
        self.body.respawn();
        self.carried = false;
    }
}

/// Whether a block on the plate presses it.
pub open spec fn presses_spec(plate: Collider, block: Block) -> bool {
    overlaps_spec(plate, block.body.collider_spec())
}

pub fn presses(plate: &Collider, block: &Block) -> (r: bool)
    requires
        plate.wf(),
        block.wf(),
    ensures
        r == presses_spec(*plate, *block),
{
    plate.overlaps(&block.collider())
}

} // verus!
