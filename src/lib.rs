//! The deterministic simulation core of a platformer in which the player is
//! chased by an echo that replays the player's own past positions.
//!
//! All quantities are integers: positions and sizes are in pixels, time is in
//! milliseconds, velocities are in milli-pixels per second. Rendering, input
//! devices and the frame clock live outside this crate and feed it plain values.

pub mod game;
pub mod geometry;
pub mod world;
pub mod coins;
pub mod echo;
pub mod hazard;
pub mod motion;
pub mod platform;
pub mod player;
pub mod random;
