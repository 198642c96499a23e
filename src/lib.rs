//! Simulation core of a side-scrolling portal puzzle game: colliders, body
//! physics, the portal pair, the animation state machine and the per-tick
//! orchestration that ties them together.
//!
//! All quantities are integers. Positions and velocities are measured in
//! sub-pixel units (see `geometry::SUBPIXELS`), and portal orientations in
//! quarter turns, which is every orientation a portal can take on the
//! axis-aligned level geometry.

pub mod geometry;
pub mod collider;
pub mod physics;
pub mod portal;
pub mod animation;
pub mod block;
pub mod game;
pub mod render;
pub mod level;
