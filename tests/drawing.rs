use portal_game::geometry::Rect;
use portal_game::render::{door_frame, door_position, gate_pieces, plate_frame, plate_position, sprite_for_role, surface_tiles, Role};

fn rect(x: i64, y: i64, w: i64, h: i64) -> Rect {
    Rect { x, y, w, h }
}

#[test]
fn surface_tiles_cover_surface() {
    let t = surface_tiles(100, 200, 2, 3);
    assert_eq!(t.len(), 6);
    assert_eq!(t[0], rect(100, 200, 64, 64));
    assert_eq!(t[2], rect(100, 328, 64, 64));
    assert_eq!(t[3], rect(164, 200, 64, 64));
    assert_eq!(t[5], rect(164, 328, 64, 64));
    assert!(surface_tiles(0, 0, 0, 5).is_empty());
    assert!(surface_tiles(0, 0, -2, 5).is_empty());
    assert!(surface_tiles(0, 0, 3, -1).is_empty());
}

#[test]
fn door_open_when_touched() {
    assert_eq!(door_frame(true), rect(160, 0, 160, 230));
    assert_eq!(door_frame(false), rect(0, 0, 160, 230));
    assert_eq!(door_position(1280, 720), rect(1120, 426, 160, 230));
}

#[test]
fn plate_frame_when_pressed() {
    assert_eq!(plate_frame(true), rect(532, 0, 266, 266));
    assert_eq!(plate_frame(false), rect(0, 0, 266, 266));
}

#[test]
fn closed_horizontal_gate() {
    let p = gate_pieces(100, 200, 192, false, false);
    assert_eq!(p.len(), 3);
    assert_eq!(p[0].src, rect(266, 0, 266, 266));
    assert_eq!(p[0].dst, rect(100, 200, 192, 64));
    assert_eq!(p[1].dst, rect(100, 200, 32, 64));
    assert_eq!(p[2].src, rect(133, 0, 133, 266));
    assert_eq!(p[2].dst, rect(260, 200, 32, 64));
    assert!(!p[0].turned);
}

#[test]
fn open_vertical_gate() {
    let p = gate_pieces(100, 200, 192, true, true);
    assert_eq!(p.len(), 2);
    assert_eq!(p[0].dst, rect(116, 184, 32, 64));
    assert_eq!(p[1].dst, rect(116, 344, 32, 64));
    assert!(p[0].turned && p[1].turned);
    let closed = gate_pieces(100, 200, 192, true, false);
    assert_eq!(closed[0].dst, rect(36, 264, 192, 64));
}

#[test]
fn second_player_sprite_offset() {
    let cell = rect(69, 98, 69, 98);
    assert_eq!(sprite_for_role(cell, Role::First), cell);
    assert_eq!(sprite_for_role(cell, Role::Second), rect(69, 294, 69, 98));
}

#[test]
fn plate_drawn_half_a_tile_up() {
    assert_eq!(plate_position(300, 656), rect(300, 624, 64, 64));
}

#[test]
fn drawing_at_far_positions() {
    let t = surface_tiles(i32::MAX as i64 - 200, i32::MIN as i64, 1, 2);
    assert_eq!(t[1], rect(i32::MAX as i64 - 200, i32::MIN as i64 + 64, 64, 64));
    assert_eq!(plate_position(i32::MIN as i64 + 40, 2_000_000_000), rect(i32::MIN as i64 + 40, 1_999_999_968, 64, 64));
    let p = gate_pieces(1_500_000_000, -1_500_000_000, 3_000_000, false, false);
    assert_eq!(p[2].dst, rect(1_502_999_968, -1_500_000_000, 32, 64));
}
