//! Core simulation of a small side-scrolling arcade game: a player falls
//! under gravity and can jump, a pair of obstacles scrolls from right to
//! left and is recycled at the field edge, and a three-state flow
//! (menu, play, game over) is driven by jump edges and collisions.
//!
//! All quantities are integers on fixed scales: positions and sizes in
//! micro-units, speeds in world units per second, and tick durations in
//! microseconds, so that a displacement is exactly `speed * dt` with no
//! rounding anywhere in the simulation. Rendering, real time and real
//! input belong to a host around this crate: each tick it hands in the
//! elapsed microseconds and the jump edge, and reads back the state and
//! the entity positions.

pub mod config;
pub mod kinematics;
pub mod collision;
pub mod state;
pub mod game;
