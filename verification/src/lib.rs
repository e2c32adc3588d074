//! Core simulation logic for a 2D arcade space shooter: the entity registry,
//! collision classification and resolution, damage tracking, and the
//! wave-driven spawn director.
//!
//! Rendering, audio, input and the physics integration itself are external
//! collaborators; this crate consumes their notifications (collision-started
//! pairs, elapsed time) as plain values and emits plain outcome events.

pub mod classify;
pub mod effects;
pub mod enemies;
pub mod events;
pub mod game;
pub mod groups;
pub mod kinds;
pub mod registry;
pub mod resolve;
pub mod rng;
pub mod spawn;
pub mod waves;
pub mod weapon;
pub mod world;
