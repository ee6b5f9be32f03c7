//! Core of a single-player brick-breaking arcade game, on exact integer
//! coordinates: axis-aligned bounding boxes, fixed-timestep motion, paddle
//! control clamped to the arena, collision classification and response,
//! brick destruction with scoring, and a per-tick collision event queue.

pub mod collision;
pub mod events;
pub mod geometry;
pub mod layout;
pub mod motion;
pub mod paddle;
pub mod scoreboard;
pub mod sim;
