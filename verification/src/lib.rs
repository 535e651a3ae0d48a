//! Simulation core of an arcade tank battle game.
//!
//! The arena, the player tank, its spawn shield and its bullets are modeled as
//! plain data: positions are whole milli-pixels, time is whole
//! milliseconds.  Every per-frame system (movement, animation, attack gating,
//! shield expiry) is a verified function over an explicit [`world::GameWorld`]
//! handle; the engine-facing layer converts its own units and drives these
//! functions once per frame.

pub mod common;
pub mod tank;
pub mod timer;
pub mod world;
