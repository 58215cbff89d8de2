//! A side-scrolling avoidance game reduced to its rules: a body that falls
//! under gravity and is kicked upward by flaps, a fixed set of pipes that
//! scroll toward it and are moved back to the front once they leave the field,
//! the collision tests, the timers that pace the end of a run, and the score.
//!
//! Everything is computed on integers. Lengths are millionths of a world unit,
//! times are microseconds, velocities are millionths of a unit per second and
//! angles are millionths of a degree; results that leave the 64-bit range stop
//! at its ends.

pub mod app;
pub mod gameplay;
pub mod timer;
pub mod ui;
pub mod units;
pub mod window;
pub mod world;
