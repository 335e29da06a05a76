//! Frame-stepped rules of a small arcade space shooter.
//!
//! The crate owns no clock, no window and no renderer. A host hands it the
//! keys that are held, the length of the frame and the wall-clock time, and
//! reads back where every ship, bolt and blast stands. All distances are
//! fixed-point integers, so every rule can be stated and proved exactly.

pub mod animation;
pub mod collision;
pub mod enemy;
pub mod explosion;
pub mod game;
pub mod geometry;
pub mod input;
pub mod laws;
pub mod menu;
pub mod player;
pub mod projectile;
pub mod random;
pub mod timing;
