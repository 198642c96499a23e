use vstd::prelude::*;
use crate::collider::{Collider, SurfaceTag};
use crate::game::Level;
use crate::geometry::SUBPIXELS;
use crate::render::{DOOR_H, DOOR_W, PIXEL_MAX, PIXEL_MIN, TILE_SIZE};

verus! {

/// One record of a level description, in pixels and tiles.
#[derive(Clone, Copy, Debug, PartialEq, Eq, Structural)]
pub enum LevelRecord {
    /// Where the player and the block start.
    Start { x: i64, y: i64, block_x: i64, block_y: i64 },
    /// A rectangle of tiles of one kind.
    Surface { tag: SurfaceTag, x: i64, y: i64, w_tiles: i64, h_tiles: i64 },
    /// A pressure plate, and a gate that opens while it is pressed.
    GatePlate { plate_x: i64, plate_y: i64, gate_x: i64, gate_y: i64, gate_length: i64, vertical: bool },
}

#[derive(Clone, Copy, Debug, PartialEq, Eq, Structural)]
pub enum LevelError {
    /// A record with a coordinate or size out of range, or a surface of a
    /// kind that levels do not hold.
    BadRecord,
    /// More than one start record.
    TwoStarts,
    /// The start lies outside the screen.
    StartOutside,
}

pub open spec fn in_screen(v: i64) -> bool {
    PIXEL_MIN <= v <= PIXEL_MAX
}

pub open spec fn record_ok(r: LevelRecord) -> bool {
    match r {
        LevelRecord::Start { x, y, block_x, block_y } => in_screen(x) && in_screen(y) && in_screen(block_x)
            && in_screen(block_y),
        LevelRecord::Surface { tag, x, y, w_tiles, h_tiles } => {
            &&& tag == SurfaceTag::Solid || tag == SurfaceTag::PortalSurface || tag == SurfaceTag::PortalGlass
            &&& in_screen(x) && in_screen(y)
            &&& 0 <= w_tiles <= PIXEL_MAX && 0 <= h_tiles <= PIXEL_MAX
        },
        LevelRecord::GatePlate { plate_x, plate_y, gate_x, gate_y, gate_length, vertical } => {
            &&& in_screen(plate_x) && in_screen(plate_y) && in_screen(gate_x) && in_screen(gate_y)
            &&& 0 <= gate_length <= PIXEL_MAX
        },
    }
}

/// The collider a record adds to the level, in sub-pixel units: a surface
/// its tiles, a gate its bar, one tile thick.
pub open spec fn record_collider(r: LevelRecord) -> Option<Collider> {
    match r {
        LevelRecord::Start { .. } => None,
        LevelRecord::Surface { tag, x, y, w_tiles, h_tiles } => Some(
            Collider {
                x: (x * SUBPIXELS) as i64,
                y: (y * SUBPIXELS) as i64,
                w: (w_tiles * TILE_SIZE * SUBPIXELS) as i64,
                h: (h_tiles * TILE_SIZE * SUBPIXELS) as i64,
                tag,
            },
        ),
        LevelRecord::GatePlate { gate_x, gate_y, gate_length, vertical, .. } => Some(
            Collider {
                x: (gate_x * SUBPIXELS) as i64,
                y: (gate_y * SUBPIXELS) as i64,
                w: (if vertical { TILE_SIZE * SUBPIXELS } else { gate_length * SUBPIXELS }) as i64,
                h: (if vertical { gate_length * SUBPIXELS } else { TILE_SIZE * SUBPIXELS }) as i64,
                tag: SurfaceTag::Gate,
            },
        ),
    }
}

/// The colliders of `rs`, in record order.
pub open spec fn colliders_of(rs: Seq<LevelRecord>) -> Seq<Collider>
    decreases rs.len(),
{
    if rs.len() == 0 {
        Seq::empty()
    } else {
        let before = colliders_of(rs.drop_last());
        match record_collider(rs.last()) {
            Some(c) => before.push(c),
            None => before,
        }
    }
}

pub open spec fn is_start(r: LevelRecord) -> bool {
    r is Start
}

/// The block's start that a start record gives, in sub-pixel units.
pub open spec fn block_start_of(r: LevelRecord) -> (int, int) {
    match r {
        LevelRecord::Start { block_x, block_y, .. } => (block_x * SUBPIXELS, block_y * SUBPIXELS),
        _ => (0, 0),
    }
}

/// The box of a pressure plate at `(x, y)`, in sub-pixel units: one tile,
/// raised by half a tile, as it is drawn.
pub open spec fn plate_box(x: i64, y: i64) -> Collider {
    Collider {
        x: (x * SUBPIXELS) as i64,
        y: ((y - TILE_SIZE / 2) * SUBPIXELS) as i64,
        w: (TILE_SIZE * SUBPIXELS) as i64,
        h: (TILE_SIZE * SUBPIXELS) as i64,
        tag: SurfaceTag::Plate,
    }
}

/// The plate of the last plate-and-gate record of `rs`, if any.
pub open spec fn plate_of(rs: Seq<LevelRecord>) -> Option<Collider>
    decreases rs.len(),
{
    if rs.len() == 0 {
        None
    } else {
        match rs.last() {
            LevelRecord::GatePlate { plate_x, plate_y, .. } => Some(plate_box(plate_x, plate_y)),
            _ => plate_of(rs.drop_last()),
        }
    }
}

/// A start record puts the player on a screen `w` by `h` pixels.
pub open spec fn start_on_screen(r: LevelRecord, w: int, h: int) -> bool {
    match r {
        LevelRecord::Start { x, y, .. } => 0 <= x <= w && 0 <= y <= h,
        _ => true,
    }
}

/// At most one record of `rs` is a start record.
pub open spec fn at_most_one_start(rs: Seq<LevelRecord>) -> bool {
    forall|i: int, j: int| 0 <= i < j < rs.len() ==> !(is_start(#[trigger] rs[i]) && is_start(#[trigger] rs[j]))
}

/// The start record that counts: the level's own, or `fallback` where the
/// level has none.
pub open spec fn start_record(rs: Seq<LevelRecord>, fallback: LevelRecord) -> LevelRecord {
    if exists|i: int| 0 <= i < rs.len() && is_start(#[trigger] rs[i]) {
        rs[choose|i: int| 0 <= i < rs.len() && is_start(#[trigger] rs[i])]
    } else {
        fallback
    }
}

/// The player's start that a start record gives, in sub-pixel units.
pub open spec fn start_of(r: LevelRecord) -> (int, int) {
    match r {
        LevelRecord::Start { x, y, .. } => (x * SUBPIXELS, y * SUBPIXELS),
        _ => (0, 0),
    }
}

/// The exit door's trigger box on a screen `screen_w` by `screen_h` pixels,
/// in sub-pixel units: the inner part of the drawn door.
pub open spec fn door_spec(screen_w: int, screen_h: int) -> Collider {
    Collider {
        x: ((screen_w - DOOR_W + 25) * SUBPIXELS) as i64,
        y: ((screen_h - DOOR_H + 25) * SUBPIXELS) as i64,
        w: ((DOOR_W / 2 - 10) * SUBPIXELS) as i64,
        h: ((DOOR_H - 90) * SUBPIXELS) as i64,
        tag: SurfaceTag::Door,
    }
}

pub fn door_trigger(screen_w: i64, screen_h: i64) -> (r: Collider)
    requires
        0 <= screen_w <= PIXEL_MAX,
        0 <= screen_h <= PIXEL_MAX,
    ensures
        r == door_spec(screen_w as int, screen_h as int),
        r.wf(),
{
    Collider::new(
        (screen_w - DOOR_W + 25) * SUBPIXELS,
        (screen_h - DOOR_H + 25) * SUBPIXELS,
        (DOOR_W / 2 - 10) * SUBPIXELS,
        (DOOR_H - 90) * SUBPIXELS,
        SurfaceTag::Door,
    )
}

fn record_valid(r: &LevelRecord) -> (ok: bool)
    ensures
        ok == record_ok(*r),
{
    let fits = |v: i64| -> (b: bool)
        ensures
            b == in_screen(v),
        { PIXEL_MIN <= v && v <= PIXEL_MAX };
    match *r {
        LevelRecord::Start { x, y, block_x, block_y } => fits(x) && fits(y) && fits(block_x) && fits(block_y),
        LevelRecord::Surface { tag, x, y, w_tiles, h_tiles } => (tag == SurfaceTag::Solid || tag
            == SurfaceTag::PortalSurface || tag == SurfaceTag::PortalGlass) && fits(x) && fits(y) && 0 <= w_tiles
            && w_tiles <= PIXEL_MAX && 0 <= h_tiles && h_tiles <= PIXEL_MAX,
        LevelRecord::GatePlate { plate_x, plate_y, gate_x, gate_y, gate_length, .. } => fits(plate_x) && fits(
            plate_y,
        ) && fits(gate_x) && fits(gate_y) && 0 <= gate_length && gate_length <= PIXEL_MAX,
    }
}

fn collider_of(r: &LevelRecord) -> (c: Option<Collider>)
    requires
        record_ok(*r),
    ensures
        c == record_collider(*r),
        c matches Some(k) ==> k.wf(),
{
    match *r {
        LevelRecord::Start { .. } => None,
        LevelRecord::Surface { tag, x, y, w_tiles, h_tiles } => Some(
            Collider::new(x * SUBPIXELS, y * SUBPIXELS, w_tiles * TILE_SIZE * SUBPIXELS, h_tiles * TILE_SIZE * SUBPIXELS, tag),
        ),
        LevelRecord::GatePlate { gate_x, gate_y, gate_length, vertical, .. } => {
            let along = gate_length * SUBPIXELS;
            let across = TILE_SIZE * SUBPIXELS;
            Some(
                Collider::new(
                    gate_x * SUBPIXELS,
                    gate_y * SUBPIXELS,
                    if vertical { across } else { along },
                    if vertical { along } else { across },
                    SurfaceTag::Gate,
                ),
            )
        },
    }
}

/// Builds the level that `records` describe on a screen `screen_w` by
/// `screen_h` pixels: one collider per surface and gate record, in order,
/// the starts from the level's start record, or from `fallback` (the
/// starts so far) where it has none, and the exit door.
pub fn build_level(records: &Vec<LevelRecord>, screen_w: i64, screen_h: i64, fallback: LevelRecord) -> (r: Result<
    Level,
    LevelError,
>)
    requires
        0 <= screen_w <= PIXEL_MAX,
        0 <= screen_h <= PIXEL_MAX,
        is_start(fallback),
        record_ok(fallback),
    ensures
        (exists|i: int| 0 <= i < records@.len() && !record_ok(#[trigger] records@[i])) ==> r == Err::<Level, LevelError>(
            LevelError::BadRecord),
        ((forall|i: int| 0 <= i < records@.len() ==> record_ok(#[trigger] records@[i])) && !at_most_one_start(records@))
            ==> r == Err::<Level, LevelError>(LevelError::TwoStarts),
        ((forall|i: int| 0 <= i < records@.len() ==> record_ok(#[trigger] records@[i])) && at_most_one_start(records@)
            && !start_on_screen(start_record(records@, fallback), screen_w as int, screen_h as int)) ==> r == Err::<
            Level,
            LevelError,
        >(LevelError::StartOutside),
        r.is_ok() <==> ((forall|i: int| 0 <= i < records@.len() ==> record_ok(#[trigger] records@[i]))
            && at_most_one_start(records@) && start_on_screen(start_record(records@, fallback), screen_w as int,
            screen_h as int)),
        r matches Ok(level) ==> {
            &&& level.wf()
            &&& level.colliders@ == colliders_of(records@)
            &&& level.door == door_spec(screen_w as int, screen_h as int)
            &&& level.width == screen_w * SUBPIXELS
            &&& level.height == screen_h * SUBPIXELS
            &&& level.plate == plate_of(records@)
            &&& start_of(start_record(records@, fallback)) == (level.start_x as int, level.start_y as int)
            &&& block_start_of(start_record(records@, fallback)) == (level.block_start_x as int,
                level.block_start_y as int)
        },
{
    let mut colliders: Vec<Collider> = Vec::new();
    let mut start: Option<(i64, i64, i64, i64)> = None;
    let mut plate: Option<Collider> = None;
    let mut starts: usize = 0;
    let mut i: usize = 0;
    while i < records.len()
        invariant
            i <= records@.len(),
            forall|k: int| 0 <= k < i ==> record_ok(#[trigger] records@[k]),
            colliders@ == colliders_of(records@.take(i as int)),
            forall|k: int| 0 <= k < colliders@.len() ==> (#[trigger] colliders@[k]).wf(),
            starts == 0 <==> forall|k: int| 0 <= k < i ==> !is_start(#[trigger] records@[k]),
            starts <= 1,
            starts == 0 <==> start.is_none(),
            plate == plate_of(records@.take(i as int)),
            plate matches Some(c) ==> c.wf(),
            start matches Some((x, y, bx, by)) ==> exists|k: int|
                0 <= k < i && is_start(#[trigger] records@[k]) && start_of(records@[k]) == (x as int, y as int)
                    && block_start_of(records@[k]) == (bx as int, by as int),
            start matches Some((x, y, bx, by)) ==> -0x100_0000_0000 <= x <= 0x100_0000_0000 && -0x100_0000_0000 <= y <= 0x100_0000_0000
                && -0x100_0000_0000 <= bx <= 0x100_0000_0000 && -0x100_0000_0000 <= by <= 0x100_0000_0000,
            starts == 1 ==> forall|a: int, b: int| 0 <= a < b < i ==> !(is_start(#[trigger] records@[a]) && is_start(#[trigger] records@[b])),
        decreases records@.len() - i,
    {
        let r = &records[i];
        if !record_valid(r) {
            return Err(LevelError::BadRecord);
        }
        proof {
            assert(records@.take(i as int + 1).drop_last() =~= records@.take(i as int));
            assert(records@.take(i as int + 1).last() == records@[i as int]);
        }
        match collider_of(r) {
            Some(c) => colliders.push(c),
            None => {},
        }
        if let LevelRecord::GatePlate { plate_x, plate_y, .. } = *r {
            plate = Some(
                Collider::new(
                    plate_x * SUBPIXELS,
                    (plate_y - TILE_SIZE / 2) * SUBPIXELS,
                    TILE_SIZE * SUBPIXELS,
                    TILE_SIZE * SUBPIXELS,
                    SurfaceTag::Plate,
                ),
            );
        }
        if let LevelRecord::Start { x, y, block_x, block_y } = *r {
            if starts == 1 {
                // finish checking the rest for bad records first
                let mut j: usize = i + 1;
                while j < records.len()
                    invariant
                        i < j <= records@.len(),
                        forall|k: int| 0 <= k < j ==> record_ok(#[trigger] records@[k]),
                    decreases records@.len() - j,
                {
                    if !record_valid(&records[j]) {
                        return Err(LevelError::BadRecord);
                    }
                    j = j + 1;
                }
                return Err(LevelError::TwoStarts);
            }
            starts = 1;
            start = Some((x * SUBPIXELS, y * SUBPIXELS, block_x * SUBPIXELS, block_y * SUBPIXELS));
        }
        i = i + 1;
    }
    proof {
        assert(records@.take(i as int) =~= records@);
    }
    let start = match start {
        Some(st) => {
            proof {
                let k = choose|k: int| 0 <= k < records@.len() && is_start(#[trigger] records@[k]);
                let m = choose|m: int|
                    0 <= m < i && is_start(#[trigger] records@[m]) && start_of(records@[m]) == (st.0 as int, st.1 as int)
                        && block_start_of(records@[m]) == (st.2 as int, st.3 as int);
                if k < m {
                    assert(!(is_start(records@[k]) && is_start(records@[m])));
                } else if m < k {
                    assert(!(is_start(records@[m]) && is_start(records@[k])));
                }
            }
            st
        },
        None => {
            let (x, y, bx, by) = match fallback {
                LevelRecord::Start { x, y, block_x, block_y } => (x, y, block_x, block_y),
                _ => (0, 0, 0, 0),
            };
            (x * SUBPIXELS, y * SUBPIXELS, bx * SUBPIXELS, by * SUBPIXELS)
        },
    };
    let (x, y, bx, by) = start;
    if x < 0 || x > screen_w * SUBPIXELS || y < 0 || y > screen_h * SUBPIXELS {
        return Err(LevelError::StartOutside);
    }
    Ok(
        Level {
            colliders,
            door: door_trigger(screen_w, screen_h),
            start_x: x,
            start_y: y,
            block_start_x: bx,
            block_start_y: by,
            plate,
            width: screen_w * SUBPIXELS,
            height: screen_h * SUBPIXELS,
        },
    )
}

} // verus!
