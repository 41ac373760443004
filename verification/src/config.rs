//! World constants of the simulation, gathered in one configurable record.
//!
//! Scales: lengths (positions, sizes) are in micro-units, one world unit
//! being `MICROS_PER_UNIT` micro-units; speeds are in world units per
//! second; a tick's duration is in microseconds. A speed in units per
//! second times a duration in microseconds is therefore a displacement in
//! micro-units, exactly, with no division.

use vstd::prelude::*;

verus! {

/// Micro-units per world unit (also microseconds per second).
pub const MICROS_PER_UNIT: i64 = 1_000_000;

/// Largest tick duration a host may hand the simulation, in microseconds
/// (ten seconds: far beyond any real frame pacing).
pub const MAX_TICK_MICROS: u64 = 10_000_000;

/// Largest length (field dimension, box size, gap) a configuration may
/// hold, in micro-units (one million world units).
pub const MAX_LENGTH: i64 = 1_000_000_000_000;

/// Largest magnitude of a configured speed, in world units per second.
pub const MAX_SPEED: i64 = 1_000_000;

/// The constants that shape one game: field dimensions, gravity, jump
/// impulse, obstacle geometry and speed, and the player's box and spawn
/// offset.
#[derive(Clone, Copy, Debug, PartialEq, Eq, Structural)]
pub struct Config {
    /// Width of the visible field, micro-units.
    pub field_width: i64,
    /// Height of the visible field, micro-units.
    pub field_height: i64,
    /// Speed added to the player's downward velocity once per tick,
    /// units per second.
    pub gravity: i64,
    /// The player's vertical velocity right after a jump, units per
    /// second; negative, since negative velocity moves the player up.
    pub jump_speed: i64,
    /// Width of each obstacle box, micro-units. An obstacle is as tall
    /// as the field.
    pub block_width: i64,
    /// Leftward scroll speed of the obstacles, units per second.
    pub block_speed: i64,
    /// Vertical gap between the upper and the lower obstacle,
    /// micro-units.
    pub block_gap: i64,
    /// Width of the player's box, micro-units.
    pub player_width: i64,
    /// Height of the player's box, micro-units.
    pub player_height: i64,
    /// Horizontal distance from the left field edge to the player's
    /// spawn position, micro-units.
    pub player_offset: i64,
}

impl Config {
    /// A usable configuration: every length positive (the gap may be
    /// zero), even so that half-extents are exact, and within bounds
    /// that keep all of the simulation's arithmetic inside `i64` and
    /// `i128`; gravity and the scroll speed positive, the jump impulse
    /// upward.
    pub open spec fn wf(self) -> bool {
        &&& 0 < self.field_width <= MAX_LENGTH
        &&& self.field_width % 2 == 0
        &&& 0 < self.field_height <= MAX_LENGTH
        &&& self.field_height % 2 == 0
        &&& 0 < self.gravity <= MAX_SPEED
        &&& -MAX_SPEED <= self.jump_speed < 0
        &&& 0 < self.block_width <= MAX_LENGTH
        &&& self.block_width % 2 == 0
        &&& 0 < self.block_speed <= MAX_SPEED
        &&& 0 <= self.block_gap <= MAX_LENGTH
        &&& self.block_gap % 2 == 0
        &&& 0 < self.player_width <= MAX_LENGTH
        &&& self.player_width % 2 == 0
        &&& 0 < self.player_height <= MAX_LENGTH
        &&& self.player_height % 2 == 0
        &&& 0 <= self.player_offset <= self.field_width
    }
}

/// The standard game: an 800 by 500 unit field, gravity 10, jump impulse
/// -500, obstacles 70 units wide scrolling at 256 units per second with a
/// 140 unit gap, and a 32 by 32 player spawned 100 units in from the left
/// edge.
pub open spec fn standard_config() -> Config {
    Config {
        field_width: 800_000_000,
        field_height: 500_000_000,
        gravity: 10,
        jump_speed: -500i64,
        block_width: 70_000_000,
        block_speed: 256,
        block_gap: 140_000_000,
        player_width: 32_000_000,
        player_height: 32_000_000,
        player_offset: 100_000_000,
    }
}

impl Config {
    /// Build the standard configuration.
    pub fn standard() -> (c: Config)
        ensures
            c == standard_config(),
            c.wf(),
    {
        Config {
            field_width: 800_000_000,
            field_height: 500_000_000,
            gravity: 10,
            jump_speed: -500,
            block_width: 70_000_000,
            block_speed: 256,
            block_gap: 140_000_000,
            player_width: 32_000_000,
            player_height: 32_000_000,
            player_offset: 100_000_000,
        }
    }
}

} // verus!
