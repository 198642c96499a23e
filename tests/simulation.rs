use portal_game::animation::{evaluate, AnimError, AnimMachine, Binding, Clip, Predicate, Snapshot};
use portal_game::collider::{Collider, SurfaceTag};
use portal_game::game::{Game, Intent, Level, Lifecycle};
use portal_game::physics::{Body, Obstacle, PhysicsConfig};
use portal_game::level::{build_level, door_trigger, LevelError, LevelRecord};
use portal_game::portal::{aim_end, placement, PortalPair};

fn config() -> PhysicsConfig {
    PhysicsConfig {
        accel: 70,
        friction: 100,
        max_speed: 800,
        gravity: 20,
        terminal_speed: 4000,
        jump_impulse: 2000,
        max_jumps: 1,
        width: 6900,
        height: 9800,
    }
}

fn clip(row: i64, frames: Vec<i64>, hold: u32) -> Clip {
    Clip { row, frames, hold }
}

fn player_anim() -> AnimMachine {
    AnimMachine::new(
        vec![
            Binding { when: Predicate::FallSpeedBelow(0), clip: clip(3, vec![0], 1) },
            Binding { when: Predicate::FallSpeedAbove(100), clip: clip(4, vec![0], 1) },
            Binding { when: Predicate::SpeedNonZero, clip: clip(2, vec![0, 1], 10) },
            Binding { when: Predicate::Always, clip: clip(1, vec![0], 10) },
        ],
        69,
        98,
    )
    .unwrap()
}

fn floor() -> Collider {
    Collider::new(0, 50000, 128000, 6400, SurfaceTag::Solid)
}

fn level() -> Level {
    Level {
        colliders: vec![floor()],
        door: Collider::new(100000, 40000, 7000, 10000, SurfaceTag::Door),
        start_x: 10000,
        start_y: 50000 - 9800,
        block_start_x: 40000,
        block_start_y: 50000 - 3200,
        plate: None,
        width: 128000,
        height: 72000,
    }
}

fn fallback() -> LevelRecord {
    LevelRecord::Start { x: 75, y: 500, block_x: 200, block_y: 624 }
}

fn idle() -> Intent {
    Intent {
        left: false,
        right: false,
        jump: false,
        cancel_portals: false,
        restart: false,
        pick_up: false,
        open_first: false,
        open_second: false,
        aim_x: 0,
        aim_y: 0,
    }
}

fn block_config() -> PhysicsConfig {
    PhysicsConfig { width: 3200, height: 3200, ..config() }
}

fn game() -> Game {
    Game::new(config(), block_config(), player_anim(), level(), 10000, 6000)
}

#[test]
fn jump_from_rest_uses_one_jump() {
    let mut g = game();
    let r = g.tick(&idle(), false);
    assert!(r.landed);
    assert!(g.body.grounded);
    assert_eq!(g.body.jumps_left, 1);
    let r = g.tick(&Intent { jump: true, ..idle() }, false);
    assert!(r.jumped);
    assert!(!r.landed);
    assert_eq!(g.body.jumps_left, 0);
    assert!(!g.body.grounded);
    assert_eq!(g.body.vy, -2000 + 20);
}

#[test]
fn jump_sets_negative_impulse() {
    let mut b = Body::new(config(), 0, 0);
    b.grounded = true;
    assert!(b.apply_input(false, false, true));
    assert_eq!(b.vy, -2000);
    assert_eq!(b.jumps_left, 0);
    assert!(!b.grounded);
    assert!(!b.apply_input(false, false, true));
    assert_eq!(b.vy, -2000);
}

#[test]
fn jump_budget_restored_only_by_landing() {
    let mut g = game();
    g.tick(&idle(), false);
    g.tick(&Intent { jump: true, ..idle() }, false);
    assert_eq!(g.body.jumps_left, 0);
    let mut ticks = 0;
    while !g.body.grounded {
        let r = g.tick(&Intent { jump: true, ..idle() }, false);
        assert!(!r.jumped || r.landed);
        assert!(g.body.jumps_left <= 1);
        ticks += 1;
        assert!(ticks < 1000);
    }
    assert_eq!(g.body.jumps_left, 1);
}

#[test]
fn fall_speed_clamped_to_terminal() {
    let mut b = Body::new(config(), 0, 0);
    for _ in 0..1000 {
        b.integrate();
        assert!(b.vy <= 4000 && b.vy >= -4000);
    }
    assert_eq!(b.vy, 4000);
    assert_eq!(b.y, 4000 * 1000 - (4000 * 4000 / 20 - (200 * 201 / 2) * 20));
}

#[test]
fn frozen_body_stays_put() {
    let mut b = Body::new(config(), 500, 700);
    b.set_frozen(true);
    b.integrate();
    b.accelerate_right();
    assert_eq!((b.x, b.y, b.vx, b.vy), (500, 700, 0, 0));
}

#[test]
fn immobilized_body_still_falls() {
    let mut b = Body::new(config(), 0, 0);
    b.set_immobilized(true);
    assert!(!b.apply_input(false, true, true));
    assert_eq!(b.vx, 0);
    b.integrate();
    assert_eq!(b.vy, 20);
    assert_eq!(b.y, 20);
}

#[test]
fn acceleration_is_gradual_and_capped() {
    let mut b = Body::new(config(), 0, 0);
    b.accelerate_right();
    assert_eq!(b.vx, 70);
    for _ in 0..20 {
        b.accelerate_right();
    }
    assert_eq!(b.vx, 800);
    b.decelerate();
    assert_eq!(b.vx, 700);
    for _ in 0..30 {
        b.accelerate_left();
    }
    assert_eq!(b.vx, -800);
    b.vx = -50;
    b.decelerate();
    assert_eq!(b.vx, 0);
}

#[test]
fn landing_snaps_to_surface() {
    let mut b = Body::new(config(), 1000, 50000 - 9800 - 10);
    b.vy = 30;
    b.integrate();
    let cs = vec![Collider::new(0, 90000, 1000, 10, SurfaceTag::Solid), floor()];
    assert_eq!(b.find_landing(&cs, false), Some(1));
    assert!(b.settle(&cs, false));
    assert_eq!(b.y, 50000 - 9800);
    assert_eq!(b.vy, 0);
    assert!(b.grounded);
}

#[test]
fn open_gate_does_not_hold_body() {
    let gate = Collider::new(0, 50000, 128000, 100, SurfaceTag::Gate);
    let mut b = Body::new(config(), 1000, 50000 - 9800 - 10);
    b.vy = 30;
    b.integrate();
    let cs = vec![gate];
    assert_eq!(b.find_landing(&cs, true), None);
    assert_eq!(b.find_landing(&cs, false), Some(0));
}

#[test]
fn colliders_overlap_and_touch() {
    let a = Collider::new(0, 0, 10, 10, SurfaceTag::Solid);
    let b = Collider::new(10, 10, 5, 5, SurfaceTag::Door);
    let c = Collider::new(11, 0, 5, 5, SurfaceTag::Door);
    assert!(a.overlaps(&b));
    assert!(a.is_touching(&b));
    assert!(!a.overlaps(&c));
    assert!(!c.is_touching(&a));
    assert!(a.contains_point(5, 10));
    assert!(!a.contains_point(5, 11));
}

fn falling_into_floor_portal() -> (PortalPair, Body) {
    let mut pair = PortalPair::new(10000, 6000);
    pair.open_portal(0, 0, 60000, 0);
    pair.open_portal(1, 200000, 0, 1);
    let mut b = Body::new(config(), 2000, 60000 - 9000);
    b.vy = 4000;
    (pair, b)
}

#[test]
fn portal_turns_velocity_by_orientation_difference() {
    let (mut pair, mut b) = falling_into_floor_portal();
    assert_eq!(pair.crossing(&b), Some(0));
    assert!(pair.teleport(&mut b));
    assert_eq!((b.vx, b.vy), (-4000, 0));
    assert_eq!(b.vx * b.vx + b.vy * b.vy, 4000 * 4000);
    assert_eq!((b.x, b.y), (200000, 2000));
    assert_eq!(pair.last_portal(), 1);
}

#[test]
fn portal_keeps_speed_for_every_orientation() {
    for a in 0..4u8 {
        for d in 0..4u8 {
            let mut pair = PortalPair::new(10000, 6000);
            pair.open_portal(0, 0, 0, a);
            pair.open_portal(1, 500000, 500000, d);
            let mut b = Body::new(config(), 0, 0);
            let (vx, vy) = match a {
                0 => (300, 700),
                1 => (-700, 300),
                2 => (300, -700),
                _ => (700, 300),
            };
            b.vx = vx;
            b.vy = vy;
            assert!(pair.teleport(&mut b));
            assert_eq!(b.vx * b.vx + b.vy * b.vy, vx * vx + vy * vy);
        }
    }
}

#[test]
fn no_second_teleport_in_one_tick() {
    let (mut pair, mut b) = falling_into_floor_portal();
    pair.open_portal(1, 0, 60000, 0);
    pair.open_portal(0, 0, 60000, 0);
    assert!(pair.teleport(&mut b));
    assert_eq!(pair.crossing(&b), None);
    let before = b;
    assert!(!pair.teleport(&mut b));
    assert_eq!(b, before);
    pair.begin_tick();
    assert!(pair.crossing(&b).is_some());
}

#[test]
fn closed_portal_never_teleports() {
    let (mut pair, b) = falling_into_floor_portal();
    pair.close_all();
    assert_eq!(pair.crossing(&b), None);
}

#[test]
fn moving_away_does_not_cross() {
    let (pair, mut b) = falling_into_floor_portal();
    b.vy = -100;
    assert_eq!(pair.crossing(&b), None);
}

#[test]
fn cancel_portals_then_no_teleport() {
    let mut g = game();
    g.portals.open_portal(0, 0, 30000, 0);
    g.portals.open_portal(1, 100000, 0, 1);
    g.body.x = 2000;
    g.body.y = 30000 - 9000;
    g.body.vy = 4000;
    let r = g.tick(&Intent { cancel_portals: true, ..idle() }, false);
    assert!(!r.teleported);
    assert!(!g.portals.first.open && !g.portals.second.open);
    g.body.x = 2000;
    g.body.y = 30000 - 9000;
    let r = g.tick(&idle(), false);
    assert!(!r.teleported);
}

#[test]
fn tick_teleports_through_open_portals() {
    let mut g = game();
    g.portals.open_portal(0, 0, 30000, 0);
    g.portals.open_portal(1, 100000, 0, 1);
    g.body.x = 2000;
    g.body.y = 30000 - 9000;
    g.body.vy = 3000;
    let r = g.tick(&idle(), false);
    assert!(r.teleported);
    assert_eq!((g.body.vx, g.body.vy), (-3020, 0));
}

#[test]
fn portal_placed_on_nearest_face() {
    let cs = vec![
        Collider::new(0, 0, 1000, 1000, SurfaceTag::Solid),
        Collider::new(10000, 10000, 6400, 6400, SurfaceTag::PortalSurface),
    ];
    assert_eq!(placement(&cs, 500, 500, 10000, 6000), None);
    assert_eq!(placement(&cs, 12000, 10100, 10000, 6000), Some((7000, 4000, 0)));
    assert_eq!(placement(&cs, 16300, 13000, 10000, 6000), Some((16400, 8000, 1)));
    assert_eq!(placement(&cs, 12000, 16300, 10000, 6000), Some((7000, 16400, 2)));
    assert_eq!(placement(&cs, 10100, 13000, 10000, 6000), Some((4000, 8000, 3)));
}

#[test]
fn tick_opens_portal_where_aimed() {
    let mut g = game();
    g.level.colliders.push(Collider::new(60000, 0, 6400, 6400, SurfaceTag::PortalSurface));
    g.tick(&Intent { open_second: true, aim_x: 60100, aim_y: 3000, ..idle() }, false);
    assert!(g.portals.second.open);
    assert!(!g.portals.first.open);
    assert_eq!((g.portals.second.x, g.portals.second.y, g.portals.second.quarter_turns), (54000, -2000, 3));
    assert_eq!(g.portals.last_portal(), 1);
    g.tick(&Intent { open_first: true, aim_x: 500, aim_y: 500, ..idle() }, false);
    assert!(!g.portals.first.open);
}

#[test]
fn leaving_world_respawns_at_start() {
    let mut g = game();
    g.body.x = 50000;
    g.body.y = 71000;
    g.body.vy = 2000;
    g.body.vx = 500;
    let r = g.tick(&idle(), false);
    assert!(r.died);
    assert_eq!(g.state, Lifecycle::Alive);
    assert_eq!((g.body.x, g.body.y), (10000, 50000 - 9800));
    assert_eq!((g.body.vx, g.body.vy), (0, 0));
}

#[test]
fn respawn_mid_portal_crossing() {
    let mut b = Body::new(config(), 700, 900);
    b.x = -5;
    b.vx = 3000;
    b.vy = -4000;
    b.respawn();
    assert_eq!((b.x, b.y, b.vx, b.vy), (700, 900, 0, 0));
}

#[test]
fn restart_intent_respawns_and_closes_portals() {
    let mut g = game();
    g.portals.open_portal(0, 0, 0, 0);
    g.portals.open_portal(1, 0, 0, 0);
    g.body.x = 90000;
    let r = g.tick(&Intent { restart: true, ..idle() }, false);
    assert!(!r.died);
    assert!(!g.portals.first.open && !g.portals.second.open);
    assert_eq!(g.body.x, 10000);
}

#[test]
fn door_starts_level_transition() {
    let mut g = game();
    g.body.x = 99000;
    let r = g.tick(&idle(), false);
    assert!(r.reached_door);
    assert_eq!(g.state, Lifecycle::LevelTransition);
    assert!(g.body.frozen);
    let before = (g.body.x, g.body.y);
    let r = g.tick(&Intent { right: true, ..idle() }, false);
    assert!(!r.jumped && !r.died && !r.reached_door);
    assert_eq!((g.body.x, g.body.y), before);
    let mut next = level();
    next.start_x = 3000;
    next.start_y = 4000;
    g.load_level(next);
    assert_eq!(g.state, Lifecycle::Alive);
    assert_eq!((g.body.x, g.body.y), (3000, 4000));
    assert!(!g.body.frozen);
    assert!(!g.anim.frozen);
}

#[test]
fn death_wins_over_door() {
    let mut g = game();
    g.level.door = Collider::new(0, 60000, 128000, 20000, SurfaceTag::Door);
    g.body.x = 50000;
    g.body.y = 72000;
    let r = g.tick(&idle(), false);
    assert!(r.died);
    assert!(!r.reached_door);
    assert_eq!(g.state, Lifecycle::Alive);
}

#[test]
fn idle_clip_selected_when_run_fails() {
    let m = AnimMachine::new(
        vec![
            Binding { when: Predicate::SpeedNonZero, clip: clip(2, vec![0, 1], 10) },
            Binding { when: Predicate::Always, clip: clip(1, vec![0], 10) },
        ],
        69,
        98,
    )
    .unwrap();
    assert_eq!(m.select(Snapshot { vx: 0, vy: 0 }), 1);
    assert_eq!(m.select(Snapshot { vx: 5, vy: 0 }), 0);
    assert_eq!(m.select(Snapshot { vx: 0, vy: 0 }), 1);
}

#[test]
fn missing_default_rejected() {
    let r = AnimMachine::new(vec![Binding { when: Predicate::SpeedNonZero, clip: clip(2, vec![0], 10) }], 69, 98);
    assert_eq!(r.err(), Some(AnimError::NoDefault));
    let r = AnimMachine::new(vec![], 69, 98);
    assert_eq!(r.err(), Some(AnimError::NoDefault));
}

#[test]
fn bad_clip_rejected() {
    let r = AnimMachine::new(vec![Binding { when: Predicate::Always, clip: clip(1, vec![], 10) }], 69, 98);
    assert_eq!(r.err(), Some(AnimError::BadClip));
    let r = AnimMachine::new(vec![Binding { when: Predicate::Always, clip: clip(1, vec![0], 0) }], 69, 98);
    assert_eq!(r.err(), Some(AnimError::BadClip));
    let r = AnimMachine::new(vec![Binding { when: Predicate::SpeedNonZero, clip: clip(1, vec![-1], 3) }], 69, 98);
    assert_eq!(r.err(), Some(AnimError::BadClip));
}

#[test]
fn frames_advance_after_hold_and_wrap() {
    let mut m = AnimMachine::new(
        vec![
            Binding { when: Predicate::SpeedNonZero, clip: clip(2, vec![4, 5], 3) },
            Binding { when: Predicate::Always, clip: clip(1, vec![0], 10) },
        ],
        69,
        98,
    )
    .unwrap();
    let run = Snapshot { vx: 1, vy: 0 };
    m.tick(run);
    assert_eq!((m.active, m.frame, m.elapsed), (0, 0, 1));
    m.tick(run);
    m.tick(run);
    assert_eq!((m.active, m.frame, m.elapsed), (0, 1, 0));
    let r = m.current_rect();
    assert_eq!((r.x, r.y, r.w, r.h), (5 * 69, 2 * 98, 69, 98));
    m.tick(run);
    m.tick(run);
    m.tick(run);
    assert_eq!((m.frame, m.elapsed), (0, 0));
    m.tick(Snapshot { vx: 0, vy: 0 });
    assert_eq!((m.active, m.frame, m.elapsed), (1, 0, 0));
}

#[test]
fn same_snapshot_same_frame() {
    let mut a = player_anim();
    let mut b = player_anim();
    for vx in [0i64, 3, 3, 3, 0, -2, -2] {
        let s = Snapshot { vx, vy: 0 };
        a.tick(s);
        b.tick(s);
        assert_eq!((a.active, a.frame, a.elapsed), (b.active, b.frame, b.elapsed));
        assert_eq!(a.current_rect(), b.current_rect());
    }
}

#[test]
fn frozen_animation_keeps_frame() {
    let mut m = player_anim();
    m.tick(Snapshot { vx: 0, vy: -5 });
    let r = m.current_rect();
    m.set_frozen(true);
    m.tick(Snapshot { vx: 4, vy: 0 });
    m.tick(Snapshot { vx: 0, vy: 500 });
    assert_eq!(m.current_rect(), r);
    assert_eq!((r.x, r.y), (0, 3 * 98));
}

#[test]
fn predicates_compare_fields() {
    let s = Snapshot { vx: 0, vy: 2 };
    assert!(evaluate(Predicate::Always, s));
    assert!(!evaluate(Predicate::SpeedNonZero, s));
    assert!(evaluate(Predicate::FallSpeedAbove(1), s));
    assert!(!evaluate(Predicate::FallSpeedAbove(2), s));
    assert!(!evaluate(Predicate::FallSpeedBelow(0), s));
    assert!(evaluate(Predicate::FallSpeedBelow(3), s));
}

#[test]
fn facing_follows_horizontal_speed() {
    let mut g = game();
    g.tick(&Intent { left: true, ..idle() }, false);
    assert!(g.flip);
    g.tick(&idle(), false);
    assert!(g.flip);
    for _ in 0..3 {
        g.tick(&Intent { right: true, ..idle() }, false);
    }
    assert!(!g.flip);
}

#[test]
fn level_built_from_records() {
    let records = vec![
        LevelRecord::Surface { tag: SurfaceTag::Solid, x: 0, y: 656, w_tiles: 20, h_tiles: 1 },
        LevelRecord::Start { x: 75, y: 500, block_x: 200, block_y: 600 },
        LevelRecord::Surface { tag: SurfaceTag::PortalSurface, x: 640, y: 0, w_tiles: 1, h_tiles: 3 },
        LevelRecord::GatePlate { plate_x: 300, plate_y: 656, gate_x: 900, gate_y: 400, gate_length: 192, vertical: true },
    ];
    let level = build_level(&records, 1280, 720, fallback()).unwrap();
    assert_eq!(level.colliders.len(), 3);
    assert_eq!(level.colliders[0], Collider::new(0, 65600, 128000, 6400, SurfaceTag::Solid));
    assert_eq!(level.colliders[1], Collider::new(64000, 0, 6400, 19200, SurfaceTag::PortalSurface));
    assert_eq!(level.colliders[2], Collider::new(90000, 40000, 6400, 19200, SurfaceTag::Gate));
    assert_eq!((level.start_x, level.start_y), (7500, 50000));
    assert_eq!((level.width, level.height), (128000, 72000));
    assert_eq!(level.door, Collider::new(114500, 51500, 7000, 14000, SurfaceTag::Door));
    assert_eq!(level.door, door_trigger(1280, 720));
    assert_eq!((level.block_start_x, level.block_start_y), (20000, 60000));
    assert_eq!(level.plate, Some(Collider::new(30000, 62400, 6400, 6400, SurfaceTag::Plate)));
}

#[test]
fn level_errors() {
    let start = LevelRecord::Start { x: 1, y: 2, block_x: 3, block_y: 4 };
    let wall = LevelRecord::Surface { tag: SurfaceTag::Solid, x: 0, y: 0, w_tiles: 1, h_tiles: 1 };
    let bad = LevelRecord::Surface { tag: SurfaceTag::Door, x: 0, y: 0, w_tiles: 1, h_tiles: 1 };
    let huge = LevelRecord::Surface { tag: SurfaceTag::Solid, x: 0, y: 0, w_tiles: -1, h_tiles: 1 };
    let level = build_level(&vec![wall], 1280, 720, fallback()).unwrap();
    assert_eq!((level.start_x, level.start_y, level.block_start_x, level.block_start_y), (7500, 50000, 20000, 62400));
    let outside = LevelRecord::Start { x: 2000, y: 10, block_x: 0, block_y: 0 };
    assert_eq!(build_level(&vec![wall], 1280, 720, outside).err(), Some(LevelError::StartOutside));
    assert_eq!(build_level(&vec![start, wall, start], 1280, 720, fallback()).err(), Some(LevelError::TwoStarts));
    assert_eq!(build_level(&vec![start, bad], 1280, 720, fallback()).err(), Some(LevelError::BadRecord));
    assert_eq!(build_level(&vec![start, start, huge], 1280, 720, fallback()).err(), Some(LevelError::BadRecord));
    assert!(build_level(&vec![start], 1280, 720, fallback()).is_ok());
}

#[test]
fn both_portals_open_in_one_tick() {
    let mut g = game();
    g.level.colliders.push(Collider::new(60000, 0, 6400, 6400, SurfaceTag::PortalSurface));
    g.tick(&Intent { open_first: true, open_second: true, aim_x: 60100, aim_y: 3000, ..idle() }, false);
    assert!(g.portals.first.open && g.portals.second.open);
    assert_eq!(g.portals.last_portal(), 1);
}

#[test]
fn block_picked_up_carried_and_dropped() {
    let mut g = game();
    g.tick(&idle(), false);
    g.tick(&Intent { pick_up: true, ..idle() }, false);
    assert!(!g.block.carried);
    g.block.body.x = g.body.x + 1000;
    g.block.body.y = g.body.y + 1000;
    g.tick(&Intent { pick_up: true, ..idle() }, false);
    assert!(g.block.carried);
    assert_eq!(g.block.body.x, g.body.x + 6900 / 2 - 3200 / 2);
    assert_eq!(g.block.body.y, g.body.y - 3200);
    for _ in 0..5 {
        g.tick(&Intent { right: true, ..idle() }, false);
    }
    assert_eq!(g.block.body.x, g.body.x + 6900 / 2 - 3200 / 2);
    g.tick(&Intent { pick_up: true, ..idle() }, false);
    assert!(!g.block.carried);
    assert_eq!(g.block.body.vy, 20);
}

#[test]
fn free_block_falls_and_lands() {
    let mut g = game();
    g.block.body.y = 40000;
    for _ in 0..200 {
        g.tick(&idle(), false);
    }
    assert!(g.block.body.grounded);
    assert_eq!(g.block.body.y, 50000 - 3200);
}

#[test]
fn block_respawns_on_restart_and_out_of_world() {
    let mut g = game();
    g.block.body.x = 70000;
    g.tick(&Intent { restart: true, ..idle() }, false);
    assert_eq!(g.block.body.x, 40000);
    g.block.body.x = -100;
    g.tick(&idle(), false);
    assert_eq!((g.block.body.x, g.block.body.y), (40000, 50000 - 3200));
}

#[test]
fn block_goes_through_portals() {
    let mut g = game();
    g.portals.open_portal(0, 60000, 30000, 0);
    g.portals.open_portal(1, 100000, 0, 1);
    g.block.body.x = 61000;
    g.block.body.y = 30000 - 3000;
    g.block.body.vy = 2000;
    g.tick(&idle(), false);
    assert_eq!((g.block.body.vx, g.block.body.vy), (-2020, 0));
    assert_eq!(g.portals.last_portal(), 1);
}

#[test]
fn block_on_plate_opens_gate() {
    let mut g = game();
    assert!(!g.gate_open());
    g.level.plate = Some(Collider::new(80000, 45000, 6400, 6400, SurfaceTag::Plate));
    assert!(!g.gate_open());
    g.block.body.x = 81000;
    g.block.body.y = 50000 - 3200;
    assert!(g.gate_open());
}

#[test]
fn wall_stops_sideways_motion() {
    let mut g = game();
    g.level.colliders.push(Collider::new(20000, 30000, 6400, 20000, SurfaceTag::Solid));
    for _ in 0..100 {
        g.tick(&Intent { right: true, ..idle() }, false);
        assert!(g.body.x + 6900 <= 20000);
    }
    assert_eq!(g.body.x + 6900, 20000);
    assert_eq!(g.body.vx, 0);
    assert!(g.body.grounded);
}

#[test]
fn ceiling_stops_a_jump() {
    let mut g = game();
    g.level.colliders.push(Collider::new(0, 30000, 30000, 1000, SurfaceTag::Solid));
    g.tick(&idle(), false);
    g.tick(&Intent { jump: true, ..idle() }, false);
    let mut ticks = 0;
    while g.body.vy < 0 {
        g.tick(&idle(), false);
        ticks += 1;
        assert!(ticks < 10);
        assert!(g.body.y >= 31000);
    }
    assert_eq!(g.body.y, 31000);
    assert_eq!(g.body.vy, 0);
    g.tick(&idle(), false);
    assert_eq!(g.body.vy, 20);
}

#[test]
fn stop_at_meets_first_obstacle() {
    let mut b = Body::new(config(), 0, 0);
    b.vx = 500;
    b.x = 300;
    let cs = vec![Collider::new(7200, -50, 100, 100, SurfaceTag::Plate), Collider::new(7000, -50, 100, 100, SurfaceTag::Solid)];
    assert!(b.stop_at(Obstacle::Wall, &cs, false));
    assert_eq!((b.x, b.vx), (7000 - 6900, 0));
    assert!(!b.stop_at(Obstacle::Ceiling, &cs, false));
}

#[test]
fn start_outside_screen_rejected() {
    let wall = LevelRecord::Surface { tag: SurfaceTag::Solid, x: 0, y: 0, w_tiles: 1, h_tiles: 1 };
    let start = LevelRecord::Start { x: 100, y: 800, block_x: 3, block_y: 4 };
    assert_eq!(build_level(&vec![wall, start], 1280, 720, fallback()).err(), Some(LevelError::StartOutside));
    let start = LevelRecord::Start { x: -1, y: 10, block_x: 3, block_y: 4 };
    assert_eq!(build_level(&vec![start], 1280, 720, fallback()).err(), Some(LevelError::StartOutside));
    let start = LevelRecord::Start { x: 1280, y: 720, block_x: 3, block_y: 4 };
    assert!(build_level(&vec![start], 1280, 720, fallback()).is_ok());
}

#[test]
fn large_records_accepted() {
    let start = LevelRecord::Start { x: 0, y: 0, block_x: 3, block_y: 4 };
    let far = LevelRecord::Surface { tag: SurfaceTag::Solid, x: i32::MAX as i64, y: i32::MIN as i64, w_tiles: 100000, h_tiles: 2 };
    let level = build_level(&vec![start, far], 1280, 720, fallback()).unwrap();
    assert_eq!(level.colliders[0].x, i32::MAX as i64 * 100);
    assert_eq!(level.colliders[0].w, 100000 * 6400);
}

#[test]
fn aim_stops_at_first_wall() {
    let cs = vec![
        Collider::new(30000, 0, 6400, 60000, SurfaceTag::Solid),
        Collider::new(60000, 0, 6400, 60000, SurfaceTag::PortalSurface),
    ];
    let (x, y) = aim_end(&cs, 0, 25600, 61000, 25600);
    assert_eq!(y, 25600);
    assert!(x >= 30000 && x < 30000 + 6400);
    assert_eq!(aim_end(&vec![], 0, 0, 5000, -7000), (5000, -7000));
}

#[test]
fn portal_not_placed_through_stone() {
    let mut g = game();
    g.level.colliders.push(Collider::new(30000, 0, 6400, 49000, SurfaceTag::Solid));
    g.level.colliders.push(Collider::new(60000, 0, 6400, 49000, SurfaceTag::PortalSurface));
    g.tick(&Intent { open_first: true, aim_x: 60100, aim_y: 45100, ..idle() }, false);
    assert!(!g.portals.first.open);
}

#[test]
fn portal_placed_through_glass() {
    let mut g = game();
    g.level.colliders.push(Collider::new(30000, 0, 6400, 49000, SurfaceTag::PortalGlass));
    g.level.colliders.push(Collider::new(60000, 0, 6400, 49000, SurfaceTag::PortalSurface));
    g.tick(&Intent { open_first: true, aim_x: 60100, aim_y: 45100, ..idle() }, false);
    assert!(g.portals.first.open);
    assert_eq!(g.portals.first.quarter_turns, 3);
}
