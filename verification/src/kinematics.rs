//! Motion of the two kinds of entity, one tick at a time.
//!
//! The player falls: gravity is added to its vertical velocity once per
//! tick (deliberately not scaled by the tick's duration), a jump edge
//! resets the velocity to the jump impulse, and the vertical position
//! integrates the resulting velocity over the tick and is then clamped to
//! the field's vertical half-extent. The clamp stops the position only;
//! the velocity keeps whatever it had.
//!
//! The obstacle pair scrolls left at a constant speed and, once its
//! horizontal position passes the recycle threshold just left of the
//! field, is teleported back to the spawn position just right of it.
//! Recycling is horizontal only: the pair's vertical placement and the
//! gap between its boxes are constant from round to round.

use vstd::prelude::*;
use crate::config::Config;
use crate::config::MAX_TICK_MICROS;

verus! {

/// `v` held to the range `[lo, hi]`.
pub open spec fn clamped(lo: int, hi: int, v: int) -> int {
    if v < lo {
        lo
    } else if v > hi {
        hi
    } else {
        v
    }
}

/// The field's vertical half-extent: the highest position the player's
/// center may take (and the negation of the lowest), micro-units.
pub open spec fn half_height(cfg: Config) -> int {
    cfg.field_height / 2
}

/// The player's vertical velocity after one tick: the jump impulse on a
/// jump edge, whatever the velocity was before; otherwise the old
/// velocity plus gravity, saturating at the top of `i64` (gravity
/// accumulates once per tick, not scaled by the tick's duration).
pub open spec fn next_velocity(cfg: Config, velocity: int, jump_edge: bool) -> int {
    if jump_edge {
        cfg.jump_speed as int
    } else if velocity + cfg.gravity <= i64::MAX {
        velocity + cfg.gravity
    } else {
        i64::MAX as int
    }
}

/// The player's vertical position after one tick: the updated velocity
/// (units per second) integrated over `dt` (microseconds) is a downward
/// displacement in micro-units, and the result is clamped to the field.
pub open spec fn next_y(cfg: Config, y: int, velocity: int, dt: int) -> int {
    clamped(-half_height(cfg), half_height(cfg), y - velocity * dt)
}

/// The player: a fixed-size box at `(x, y)` (micro-units, `x` fixed
/// after spawn) falling with vertical `velocity` (units per second,
/// positive downward).
#[derive(Clone, Copy, Debug, PartialEq, Eq, Structural)]
pub struct Player {
    pub x: i64,
    pub y: i64,
    pub velocity: i64,
}

/// The player's spawn position: `player_offset` in from the left field
/// edge, vertically centered.
pub open spec fn player_spawn_x(cfg: Config) -> int {
    -(cfg.field_width / 2) + cfg.player_offset
}

/// The player as it spawns: at its fixed position, at rest.
pub open spec fn spawned_player(cfg: Config) -> Player {
    Player { x: player_spawn_x(cfg) as i64, y: 0, velocity: 0 }
}

impl Player {
    /// The player never leaves the field vertically.
    pub open spec fn wf(self, cfg: Config) -> bool {
        -half_height(cfg) <= self.y <= half_height(cfg)
    }

    /// Spawn the player at its fixed position, at rest.
    pub fn spawn(cfg: &Config) -> (p: Player)
        requires
            cfg.wf(),
        ensures
            p == spawned_player(*cfg),
            p.wf(*cfg),
            p.x == player_spawn_x(*cfg),
            p.y == 0,
            p.velocity == 0,
    {
        Player { x: -(cfg.field_width / 2) + cfg.player_offset, y: 0, velocity: 0 }
    }

    /// One tick of player motion: accumulate gravity (or take the jump
    /// impulse), then integrate and clamp the vertical position.
    pub fn tick(&mut self, cfg: &Config, dt: u64, jump_edge: bool)
        requires
            cfg.wf(),
            old(self).wf(*cfg),
            1 <= dt <= MAX_TICK_MICROS,
        ensures
            final(self).wf(*cfg),
            final(self).x == old(self).x,
            final(self).velocity == next_velocity(*cfg, old(self).velocity as int, jump_edge),
            final(self).y == next_y(
                *cfg,
                old(self).y as int,
                final(self).velocity as int,
                dt as int,
            ),
    {
        let mut v: i64 = if self.velocity <= i64::MAX - cfg.gravity {
            self.velocity + cfg.gravity
        } else {
            i64::MAX
        };
        if jump_edge {
            v = cfg.jump_speed;
        }
        self.velocity = v;

        proof {
            lemma_velocity_times_dt_bounded(v as int, dt as int);
        }
        let displacement: i128 = (v as i128) * (dt as i128);
        let mut y: i128 = (self.y as i128) - displacement;
        let hh: i64 = cfg.field_height / 2;
        if y < -(hh as i128) {
            y = -(hh as i128);
        }
        if y > hh as i128 {
            y = hh as i128;
        }
        self.y = y as i64;
    }
}

/// The product of a velocity held by `i64` and a tick duration held by
/// `MAX_TICK_MICROS` stays far inside `i128`.
proof fn lemma_velocity_times_dt_bounded(v: int, dt: int)
    requires
        i64::MIN <= v <= i64::MAX,
        1 <= dt <= MAX_TICK_MICROS,
    ensures
        -0x8000_0000_0000_0000_0000_0000int <= v * dt <= 0x8000_0000_0000_0000_0000_0000int,
{
    assert(-0x8000_0000_0000_0000_0000_0000int <= v * dt <= 0x8000_0000_0000_0000_0000_0000int)
        by (nonlinear_arith)
        requires
            i64::MIN <= v <= i64::MAX,
            1 <= dt <= MAX_TICK_MICROS,
    ;
}

/// The obstacle pair: two boxes sharing horizontal position `x`
/// (micro-units), one above and one below a fixed vertical gap, moving in
/// lockstep.
#[derive(Clone, Copy, Debug, PartialEq, Eq, Structural)]
pub struct ObstaclePair {
    pub x: i64,
}

/// Where an obstacle (re)appears: half a block width right of the right
/// field edge, so that it enters the field from outside.
pub open spec fn block_spawn_x(cfg: Config) -> int {
    cfg.field_width / 2 + cfg.block_width / 2
}

/// Where an obstacle is recycled: once its position is left of this, its
/// right edge has left the field.
pub open spec fn recycle_threshold(cfg: Config) -> int {
    -block_spawn_x(cfg)
}

/// Center of the upper obstacle box: it hangs down to the top edge of
/// the gap, half a gap above the field's center line.
pub open spec fn upper_block_y(cfg: Config) -> int {
    half_height(cfg) + cfg.block_gap / 2
}

/// Center of the lower obstacle box: it reaches up to the bottom edge of
/// the gap.
pub open spec fn lower_block_y(cfg: Config) -> int {
    -upper_block_y(cfg)
}

/// The obstacles' horizontal position after one tick: it moves left by
/// exactly `block_speed * dt` (micro-units), and is reset to the spawn
/// position the moment it passes the recycle threshold.
pub open spec fn next_block_x(cfg: Config, x: int, dt: int) -> int {
    let moved = x - cfg.block_speed * dt;
    if moved < recycle_threshold(cfg) {
        block_spawn_x(cfg)
    } else {
        moved
    }
}

/// The obstacle pair as it spawns: at the spawn position.
pub open spec fn spawned_obstacles(cfg: Config) -> ObstaclePair {
    ObstaclePair { x: block_spawn_x(cfg) as i64 }
}

impl ObstaclePair {
    /// The pair stays between the recycle threshold and the spawn
    /// position.
    pub open spec fn wf(self, cfg: Config) -> bool {
        recycle_threshold(cfg) <= self.x <= block_spawn_x(cfg)
    }

    /// Spawn the pair at the spawn position.
    pub fn spawn(cfg: &Config) -> (b: ObstaclePair)
        requires
            cfg.wf(),
        ensures
            b == spawned_obstacles(*cfg),
            b.wf(*cfg),
            b.x == block_spawn_x(*cfg),
    {
        ObstaclePair { x: cfg.field_width / 2 + cfg.block_width / 2 }
    }

    /// One tick of obstacle motion: scroll left, recycling to the spawn
    /// position on passing the threshold.
    pub fn tick(&mut self, cfg: &Config, dt: u64)
        requires
            cfg.wf(),
            old(self).wf(*cfg),
            1 <= dt <= MAX_TICK_MICROS,
        ensures
            final(self).wf(*cfg),
            final(self).x == next_block_x(*cfg, old(self).x as int, dt as int),
    {
        proof {
            lemma_scroll_bounded(cfg.block_speed as int, dt as int);
        }
        let displacement: i64 = cfg.block_speed * (dt as i64);
        let moved: i64 = self.x - displacement;
        let spawn: i64 = cfg.field_width / 2 + cfg.block_width / 2;
        if moved < -spawn {
            self.x = spawn;
        } else {
            self.x = moved;
        }
    }
}

/// With no jump input, one tick adds exactly the gravity constant to the
/// vertical velocity, and a player that was not rising strictly descends
/// until it rests on the lower clamp (the ceiling of `i64`, far beyond
/// any reachable fall speed, is left out of the statement).
pub proof fn lemma_gravity_fall(cfg: Config, p: Player, dt: int)
    requires
        cfg.wf(),
        p.wf(cfg),
        1 <= dt,
        p.velocity + cfg.gravity <= i64::MAX,
    ensures
        next_velocity(cfg, p.velocity as int, false) == p.velocity + cfg.gravity,
        p.velocity >= 0 ==> next_y(cfg, p.y as int, p.velocity + cfg.gravity, dt) <= p.y,
        p.velocity >= 0 && p.y > -half_height(cfg) ==> next_y(
            cfg,
            p.y as int,
            p.velocity + cfg.gravity,
            dt,
        ) < p.y,
{
    let v2 = p.velocity + cfg.gravity;
    if p.velocity >= 0 {
        assert(v2 * dt >= v2) by (nonlinear_arith)
            requires
                1 <= v2,
                1 <= dt,
        ;
    }
}

/// A jump edge resets the vertical velocity to exactly the jump impulse,
/// whatever the velocity was before.
pub proof fn lemma_jump_resets_velocity(cfg: Config, velocity: int)
    ensures
        next_velocity(cfg, velocity, true) == cfg.jump_speed,
{
}

/// The player's vertical position after a tick lies within the field's
/// vertical half-extent, whatever position, velocity and tick duration
/// went in: across any sequence of ticks and inputs, the player never
/// leaves the field.
pub proof fn lemma_player_stays_in_field(cfg: Config, y: int, velocity: int, dt: int)
    requires
        cfg.wf(),
    ensures
        -half_height(cfg) <= next_y(cfg, y, velocity, dt) <= half_height(cfg),
{
}

/// One tick moves the obstacles left by exactly `block_speed * dt`,
/// strictly, unless that crosses the recycle threshold, in which case,
/// and in no other, they stand at the spawn position instead.
pub proof fn lemma_obstacle_scroll(cfg: Config, b: ObstaclePair, dt: int)
    requires
        cfg.wf(),
        b.wf(cfg),
        1 <= dt,
    ensures
        b.x - cfg.block_speed * dt >= recycle_threshold(cfg) ==> next_block_x(
            cfg,
            b.x as int,
            dt,
        ) == b.x - cfg.block_speed * dt,
        b.x - cfg.block_speed * dt >= recycle_threshold(cfg) ==> next_block_x(
            cfg,
            b.x as int,
            dt,
        ) < b.x,
        b.x - cfg.block_speed * dt < recycle_threshold(cfg) ==> next_block_x(
            cfg,
            b.x as int,
            dt,
        ) == block_spawn_x(cfg),
{
    assert(cfg.block_speed * dt >= cfg.block_speed) by (nonlinear_arith)
        requires
            1 <= cfg.block_speed,
            1 <= dt,
    ;
}

/// A configured scroll speed times a tick duration stays small: at most
/// `MAX_SPEED * MAX_TICK_MICROS` micro-units.
proof fn lemma_scroll_bounded(speed: int, dt: int)
    requires
        0 < speed <= crate::config::MAX_SPEED,
        1 <= dt <= MAX_TICK_MICROS,
    ensures
        speed <= speed * dt <= 10_000_000_000_000int,
{
    assert(speed <= speed * dt <= 10_000_000_000_000int) by (nonlinear_arith)
        requires
            0 < speed <= crate::config::MAX_SPEED,
            1 <= dt <= MAX_TICK_MICROS,
    ;
}

} // verus!
