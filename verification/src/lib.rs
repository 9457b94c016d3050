//! Core simulation of a bounded 2D arcade arena: a player-controlled craft
//! moves inside the arena, fires projectiles upward, and must avoid a stream
//! of descending adversaries while destroying them for score.
//!
//! Rendering, input polling and timing live outside this crate; the
//! simulation consumes only plain values (boolean action signals, an elapsed
//! time, arena bounds) and exposes its whole state for a renderer to read.
//! Arena coordinates are integers (pixels); a bounding box is an axis-aligned
//! square given by its top-left corner and a positive size.

pub mod adversary;
pub mod collision;
pub mod geometry;
pub mod player;
pub mod projectile;
pub mod session;
pub mod spawn;
