use vstd::prelude::*;
use crate::geometry::Rect;

verus! {

/// Side of a level tile, in pixels.
pub const TILE_SIZE: i64 = 64;
/// Width and height of the door sprite, in pixels.
pub const DOOR_W: i64 = 160;
pub const DOOR_H: i64 = 230;
/// Side of a sprite cell on the plate and gate sheets.
pub const SHEET_CELL: i64 = 266;
/// Range of a pixel coordinate or length: that of `i32`.
pub const PIXEL_MIN: i64 = -0x8000_0000;
pub const PIXEL_MAX: i64 = 0x7fff_ffff;
/// Largest sheet coordinate or cell height `sprite_for_role` takes.
pub const CELL_MAX: i64 = 0x100_0000_0000;

/// Tile `(i, j)` of a surface whose corner is at `(x, y)`.
pub open spec fn tile_rect(x: int, y: int, i: int, j: int) -> Rect {
    Rect { x: (x + i * TILE_SIZE) as i64, y: (y + j * TILE_SIZE) as i64, w: TILE_SIZE, h: TILE_SIZE }
}

/// The tiles of a surface `w` tiles wide and `h` tiles high, column by
/// column: entry `k` is tile `(k / h, k % h)`. A surface without width or
/// height has no tiles.
pub fn surface_tiles(x: i64, y: i64, w: i64, h: i64) -> (r: Vec<Rect>)
    requires
        PIXEL_MIN <= x <= PIXEL_MAX,
        PIXEL_MIN <= y <= PIXEL_MAX,
        w <= PIXEL_MAX,
        h <= PIXEL_MAX,
    ensures
        r@.len() == if w <= 0 || h <= 0 { 0 } else { w * h },
        forall|k: int| 0 <= k < r@.len() ==> #[trigger] r@[k] == tile_rect(x as int, y as int, k / (h as int), k % (h as int)),
{
    let mut out: Vec<Rect> = Vec::new();
    if w <= 0 || h <= 0 {
        return out;
    }
    proof {
        assert(0 <= w * h <= PIXEL_MAX * PIXEL_MAX) by (nonlinear_arith)
            requires 0 <= w <= PIXEL_MAX, 0 <= h <= PIXEL_MAX;
    }
    let n: i64 = w * h;
    let mut k: i64 = 0;
    while k < n
        invariant
            0 <= k <= n,
            n == w * h,
            0 <= n <= PIXEL_MAX * PIXEL_MAX,
            PIXEL_MIN <= x <= PIXEL_MAX,
            PIXEL_MIN <= y <= PIXEL_MAX,
            0 <= w <= PIXEL_MAX,
            0 <= h <= PIXEL_MAX,
            out@.len() == k,
            forall|m: int| 0 <= m < k ==> #[trigger] out@[m] == tile_rect(x as int, y as int, m / (h as int), m % (h as int)),
        decreases n - k,
    {
        proof {
            assert(h > 0) by (nonlinear_arith)
                requires 0 <= k < n, n == w * h, 0 <= w, 0 <= h;
            assert(0 <= k / h <= w) by (nonlinear_arith)
                requires 0 <= k < n, n == w * h, 0 <= w, 0 < h;
            assert(0 <= k % h < h) by (nonlinear_arith)
                requires 0 <= k, 0 < h;
        }
        let i = k / h;
        let j = k % h;
        out.push(Rect { x: x + i * TILE_SIZE, y: y + j * TILE_SIZE, w: TILE_SIZE, h: TILE_SIZE });
        k = k + 1;
    }
    out
}

/// Where the exit door is drawn on a screen `screen_w` by `screen_h`
/// pixels: bottom right, standing on the floor tiles.
pub fn door_position(screen_w: i64, screen_h: i64) -> (r: Rect)
    requires
        0 <= screen_w <= PIXEL_MAX,
        0 <= screen_h <= PIXEL_MAX,
    ensures
        r == (Rect { x: (screen_w - DOOR_W) as i64, y: (screen_h - TILE_SIZE - DOOR_H) as i64, w: DOOR_W, h: DOOR_H }),
{
    Rect { x: screen_w - DOOR_W, y: screen_h - TILE_SIZE - DOOR_H, w: DOOR_W, h: DOOR_H }
}

/// The door's cell on its sheet: open while the player touches it.
pub fn door_frame(open: bool) -> (r: Rect)
    ensures
        r == (Rect { x: if open { DOOR_W } else { 0 }, y: 0, w: DOOR_W, h: DOOR_H }),
{
    Rect { x: if open { DOOR_W } else { 0 }, y: 0, w: DOOR_W, h: DOOR_H }
}

/// Where a pressure plate whose box starts at `(x, y)` is drawn: one tile,
/// raised by half a tile.
pub fn plate_position(x: i64, y: i64) -> (r: Rect)
    requires
        PIXEL_MIN <= x <= PIXEL_MAX,
        PIXEL_MIN <= y <= PIXEL_MAX,
    ensures
        r == (Rect { x, y: (y - TILE_SIZE / 2) as i64, w: TILE_SIZE, h: TILE_SIZE }),
{
    Rect { x, y: y - TILE_SIZE / 2, w: TILE_SIZE, h: TILE_SIZE }
}

/// The pressure plate's cell on its sheet: the third one while pressed.
pub fn plate_frame(pressed: bool) -> (r: Rect)
    ensures
        r == (Rect { x: if pressed { (2 * SHEET_CELL) as i64 } else { 0 }, y: 0, w: SHEET_CELL, h: SHEET_CELL }),
{
    Rect { x: if pressed { 2 * SHEET_CELL } else { 0 }, y: 0, w: SHEET_CELL, h: SHEET_CELL }
}

/// One sprite copy of a gate: a sheet cell, where it goes, and whether it
/// is turned a quarter turn.
#[derive(Clone, Copy, Debug, PartialEq, Eq, Structural)]
pub struct GatePiece {
    pub src: Rect,
    pub dst: Rect,
    pub turned: bool,
}

pub open spec fn gate_pieces_spec(x: int, y: int, length: int, vertical: bool, open: bool) -> Seq<GatePiece> {
    let half = (SHEET_CELL / 2) as i64;
    let t = TILE_SIZE;
    let t2 = (TILE_SIZE / 2) as i64;
    let bar = Rect { x: SHEET_CELL, y: 0, w: SHEET_CELL, h: SHEET_CELL };
    let left_cap = Rect { x: 0, y: 0, w: half, h: SHEET_CELL };
    let right_cap = Rect { x: half, y: 0, w: half, h: SHEET_CELL };
    let caps = if !vertical {
        seq![
            GatePiece { src: left_cap, dst: Rect { x: x as i64, y: y as i64, w: t2, h: t }, turned: false },
            GatePiece {
                src: right_cap,
                dst: Rect { x: (x + length - t / 2) as i64, y: y as i64, w: t2, h: t },
                turned: false,
            },
        ]
    } else {
        seq![
            GatePiece { src: left_cap, dst: Rect { x: (x + 16) as i64, y: (y - 16) as i64, w: t2, h: t }, turned: true },
            GatePiece {
                src: right_cap,
                dst: Rect { x: (x + 16) as i64, y: (y - 16 + length - t / 2) as i64, w: t2, h: t },
                turned: true,
            },
        ]
    };
    let bar_piece = if !vertical {
        GatePiece { src: bar, dst: Rect { x: x as i64, y: y as i64, w: length as i64, h: t }, turned: false }
    } else {
        GatePiece {
            src: bar,
            dst: Rect { x: (x - length / 2 + t / 2) as i64, y: (y + length / 2 - t / 2) as i64, w: length as i64, h: t },
            turned: true,
        }
    };
    if open { caps } else { seq![bar_piece] + caps }
}

/// The sprite copies that draw a gate of `length` pixels at `(x, y)`:
/// the bar while it is closed, then its two end caps. A vertical gate
/// is drawn turned a quarter turn about the horizontal one's centre.
pub fn gate_pieces(x: i64, y: i64, length: i64, vertical: bool, open: bool) -> (r: Vec<GatePiece>)
    requires
        PIXEL_MIN <= x <= PIXEL_MAX,
        PIXEL_MIN <= y <= PIXEL_MAX,
        0 <= length <= PIXEL_MAX,
    ensures
        r@ == gate_pieces_spec(x as int, y as int, length as int, vertical, open),
{
    let half = SHEET_CELL / 2;
    let t = TILE_SIZE;
    let bar = Rect { x: SHEET_CELL, y: 0, w: SHEET_CELL, h: SHEET_CELL };
    let left_cap = Rect { x: 0, y: 0, w: half, h: SHEET_CELL };
    let right_cap = Rect { x: half, y: 0, w: half, h: SHEET_CELL };
    let mut out: Vec<GatePiece> = Vec::new();
    if !vertical {
        if !open {
            out.push(GatePiece { src: bar, dst: Rect { x, y, w: length, h: t }, turned: false });
        }
        out.push(GatePiece { src: left_cap, dst: Rect { x, y, w: t / 2, h: t }, turned: false });
        out.push(GatePiece { src: right_cap, dst: Rect { x: x + length - t / 2, y, w: t / 2, h: t }, turned: false });
    } else {
        if !open {
            out.push(GatePiece {
                src: bar,
                dst: Rect { x: x - length / 2 + t / 2, y: y + length / 2 - t / 2, w: length, h: t },
                turned: true,
            });
        }
        out.push(GatePiece { src: left_cap, dst: Rect { x: x + 16, y: y - 16, w: t / 2, h: t }, turned: true });
        out.push(GatePiece {
            src: right_cap,
            dst: Rect { x: x + 16, y: y - 16 + length - t / 2, w: t / 2, h: t },
            turned: true,
        });
    }
    proof {
        assert(out@ =~= gate_pieces_spec(x as int, y as int, length as int, vertical, open));
    }
    out
}

/// Which of the two players of a session this one is. Both share one
/// sprite sheet; the second player's cells sit two cell heights lower.
#[derive(Clone, Copy, Debug, PartialEq, Eq, Structural)]
pub enum Role {
    First,
    Second,
}

/// The sheet cell to draw for `role`, given the animation's cell.
pub fn sprite_for_role(cell: Rect, role: Role) -> (r: Rect)
    requires
        -CELL_MAX <= cell.y <= CELL_MAX,
        0 <= cell.h <= CELL_MAX,
    ensures
        r == match role {
            Role::First => cell,
            Role::Second => Rect { y: (cell.y + 2 * cell.h) as i64, ..cell },
        },
{
    match role {
        Role::First => cell,
        Role::Second => Rect { y: cell.y + 2 * cell.h, ..cell },
    }
}

} // verus!
