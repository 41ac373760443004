//! End-to-end checks of the simulation on the standard configuration.
//!
//! Scales: positions in micro-units (1 world unit = 1_000_000), speeds in
//! units per second, tick durations in microseconds. A tick of 16_667 us
//! is one frame at roughly 60 frames per second.

use crab_game::config::Config;
use crab_game::game::Game;
use crab_game::kinematics::{ObstaclePair, Player};
use crab_game::state::GameState;

const FRAME: u64 = 16_667;

fn standard_game() -> Game {
    Game::new(Config::standard())
}

fn playing_game() -> Game {
    let mut g = standard_game();
    g.tick(FRAME, true);
    assert_eq!(g.state, GameState::Play);
    g
}

#[test]
fn standard_constants() {
    let c = Config::standard();
    assert_eq!(c.field_width, 800_000_000);
    assert_eq!(c.field_height, 500_000_000);
    assert_eq!(c.gravity, 10);
    assert_eq!(c.jump_speed, -500);
    assert_eq!(c.block_width, 70_000_000);
    assert_eq!(c.block_speed, 256);
    assert_eq!(c.block_gap, 140_000_000);
    assert_eq!(c.player_width, 32_000_000);
    assert_eq!(c.player_height, 32_000_000);
    assert_eq!(c.player_offset, 100_000_000);
}

#[test]
fn gravity_tick_scenario() {
    // At rest, one 1/60 s tick with gravity 10: velocity becomes exactly
    // 10, the position drops by 10 * 16_667 micro-units (about 0.1667
    // world units).
    let cfg = Config::standard();
    let mut p = Player { x: -300_000_000, y: 0, velocity: 0 };
    p.tick(&cfg, FRAME, false);
    assert_eq!(p.velocity, 10);
    assert_eq!(p.y, -166_670);
}

#[test]
fn gravity_accumulates_per_tick() {
    // Without jumps the velocity climbs by exactly the gravity constant
    // each tick, whatever dt is, and the position keeps falling.
    let cfg = Config::standard();
    let mut p = Player { x: -300_000_000, y: 0, velocity: 0 };
    let mut last_y = p.y;
    for i in 1..=20i64 {
        let dt = if i % 2 == 0 { FRAME } else { 33_333 };
        p.tick(&cfg, dt, false);
        assert_eq!(p.velocity, 10 * i);
        assert!(p.y < last_y);
        last_y = p.y;
    }
}

#[test]
fn jump_resets_velocity() {
    // A jump edge overrides any accumulated fall speed with exactly the
    // jump impulse.
    let cfg = Config::standard();
    let mut p = Player { x: -300_000_000, y: 0, velocity: 0 };
    for _ in 0..50 {
        p.tick(&cfg, FRAME, false);
    }
    assert_eq!(p.velocity, 500);
    p.tick(&cfg, FRAME, true);
    assert_eq!(p.velocity, -500);
}

#[test]
fn jump_resets_velocity_while_rising() {
    let cfg = Config::standard();
    let mut p = Player { x: -300_000_000, y: 0, velocity: -321 };
    p.tick(&cfg, FRAME, true);
    assert_eq!(p.velocity, -500);
}

#[test]
fn player_clamped_at_bottom() {
    // A long fall pins the position at the lower field edge, and the
    // clamp stops the position only: the velocity keeps accumulating.
    let cfg = Config::standard();
    let mut p = Player { x: -300_000_000, y: 0, velocity: 0 };
    for _ in 0..400 {
        p.tick(&cfg, FRAME, false);
        assert!(-250_000_000 <= p.y && p.y <= 250_000_000);
    }
    assert_eq!(p.y, -250_000_000);
    assert_eq!(p.velocity, 4000);
}

#[test]
fn player_clamped_at_top() {
    // Jumping every tick pins the position at the upper field edge.
    let cfg = Config::standard();
    let mut p = Player { x: -300_000_000, y: 0, velocity: 0 };
    for _ in 0..400 {
        p.tick(&cfg, FRAME, true);
        assert!(-250_000_000 <= p.y && p.y <= 250_000_000);
    }
    assert_eq!(p.y, 250_000_000);
}

#[test]
fn player_stays_in_field_under_wild_input() {
    // Any mix of jumps and tick lengths leaves the position inside the
    // field's vertical extent.
    let cfg = Config::standard();
    let mut p = Player { x: -300_000_000, y: 0, velocity: 0 };
    let mut dt: u64 = 1;
    for i in 0..300u32 {
        dt = (dt * 7 + 13) % 10_000_000 + 1;
        p.tick(&cfg, dt, i % 3 == 0);
        assert!(-250_000_000 <= p.y && p.y <= 250_000_000);
    }
}

#[test]
fn obstacle_scrolls_by_speed_times_dt() {
    // Away from the threshold the position drops by exactly
    // block_speed * dt micro-units each tick.
    let cfg = Config::standard();
    let mut b = ObstaclePair::spawn(&cfg);
    assert_eq!(b.x, 435_000_000);
    b.tick(&cfg, FRAME);
    assert_eq!(b.x, 435_000_000 - 256 * 16_667);
    b.tick(&cfg, 100_000);
    assert_eq!(b.x, 435_000_000 - 256 * 16_667 - 256 * 100_000);
}

#[test]
fn obstacle_recycles_at_threshold() {
    // A pair standing exactly on the recycle threshold (its left edge a
    // full block left of the field) teleports to the spawn position on
    // the next tick, whatever the tick length.
    let cfg = Config::standard();
    let mut b = ObstaclePair { x: -435_000_000 };
    b.tick(&cfg, 1);
    assert_eq!(b.x, 435_000_000);
}

#[test]
fn obstacle_does_not_recycle_early() {
    // One micro-unit right of the point where the tick's displacement
    // would cross the threshold, the pair still scrolls normally.
    let cfg = Config::standard();
    let displacement: i64 = 256 * 16_667;
    // Landing exactly on the threshold is not yet past it: no recycle.
    let mut b = ObstaclePair { x: -435_000_000 + displacement };
    b.tick(&cfg, FRAME);
    assert_eq!(b.x, -435_000_000);
    // One micro-unit further left, the same tick recycles it.
    let mut b = ObstaclePair { x: -435_000_000 + displacement - 1 };
    b.tick(&cfg, FRAME);
    assert_eq!(b.x, 435_000_000);
}

#[test]
fn menu_ignores_everything_but_jump() {
    let mut g = standard_game();
    assert_eq!(g.state, GameState::Menu);
    for _ in 0..10 {
        g.tick(FRAME, false);
        assert_eq!(g.state, GameState::Menu);
        assert!(g.player.is_none());
        assert!(g.obstacles.is_none());
    }
    g.tick(FRAME, true);
    assert_eq!(g.state, GameState::Play);
}

#[test]
fn play_entry_spawns_entities() {
    let g = playing_game();
    let p = g.player.expect("player exists in Play");
    let b = g.obstacles.expect("obstacles exist in Play");
    assert_eq!(p.x, -300_000_000);
    assert_eq!(p.y, 0);
    assert_eq!(p.velocity, 0);
    assert_eq!(b.x, 435_000_000);
}

#[test]
fn play_runs_until_collision_then_over() {
    // From a fresh round with no further input the player settles on the
    // lower edge, inside the lower obstacle's column once it arrives, so
    // the round must end; entities are gone in Over.
    let mut g = playing_game();
    let mut ticks = 0u32;
    while g.state == GameState::Play {
        g.tick(FRAME, false);
        if let Some(p) = g.player {
            assert!(-250_000_000 <= p.y && p.y <= 250_000_000);
        }
        ticks += 1;
        assert!(ticks < 1000, "round never ended");
    }
    assert_eq!(g.state, GameState::Over);
    assert!(g.player.is_none());
    assert!(g.obstacles.is_none());
}

#[test]
fn scene_boxes_follow_the_state() {
    // In Play the host gets three rectangles (player, upper obstacle,
    // lower obstacle) as center and full size; the text states get none.
    let menu = standard_game();
    assert!(menu.scene_boxes().is_empty());
    let g = playing_game();
    assert_eq!(
        g.scene_boxes(),
        vec![
            (-300_000_000, 0, 32_000_000, 32_000_000),
            (435_000_000, 320_000_000, 70_000_000, 500_000_000),
            (435_000_000, -320_000_000, 70_000_000, 500_000_000),
        ]
    );
}

#[test]
fn over_replays_on_jump_with_fresh_entities() {
    let mut g = playing_game();
    while g.state == GameState::Play {
        g.tick(FRAME, false);
    }
    assert_eq!(g.state, GameState::Over);
    g.tick(FRAME, false);
    assert_eq!(g.state, GameState::Over);
    g.tick(FRAME, true);
    assert_eq!(g.state, GameState::Play);
    let p = g.player.expect("player respawned");
    let b = g.obstacles.expect("obstacles respawned");
    assert_eq!((p.x, p.y, p.velocity), (-300_000_000, 0, 0));
    assert_eq!(b.x, 435_000_000);
}
