//! Checks of the exclusive axis-aligned bounding-box test, on its own and
//! through the player-versus-obstacles check.

use crab_game::collision::{boxes_collide, check_collision};
use crab_game::config::Config;
use crab_game::kinematics::{ObstaclePair, Player};

#[test]
fn overlap_on_both_axes_collides() {
    // A 32 by 32 player box at the origin against a 70 by 500 obstacle
    // box centered 20 units to its right: overlap on both axes.
    assert!(boxes_collide(
        0, 0, 32_000_000, 32_000_000, 20_000_000, 0, 70_000_000, 500_000_000,
    ));
}

#[test]
fn edge_touch_is_no_collision() {
    // Identical boxes offset on x by exactly the sum of the half-widths
    // touch at an edge; the test is exclusive, so they do not collide.
    assert!(!boxes_collide(
        0, 0, 32_000_000, 32_000_000, 32_000_000, 0, 32_000_000, 32_000_000,
    ));
    // One micro-unit closer, they do.
    assert!(boxes_collide(
        0, 0, 32_000_000, 32_000_000, 31_999_999, 0, 32_000_000, 32_000_000,
    ));
}

#[test]
fn overlap_on_one_axis_only_is_no_collision() {
    // Same columns, vertically apart.
    assert!(!boxes_collide(
        0, 0, 32_000_000, 32_000_000, 0, 100_000_000, 32_000_000, 32_000_000,
    ));
    // Same rows, horizontally apart.
    assert!(!boxes_collide(
        0, 0, 32_000_000, 32_000_000, 100_000_000, 0, 32_000_000, 32_000_000,
    ));
}

#[test]
fn player_in_gap_passes_between_obstacles() {
    // With the obstacles straddling the player's column, a player
    // centered in the gap misses both boxes; one pushed down into the
    // lower box collides.
    let cfg = Config::standard();
    let b = ObstaclePair { x: -300_000_000 };
    let centered = Player { x: -300_000_000, y: 0, velocity: 0 };
    assert!(!check_collision(&cfg, &centered, &b));
    let low = Player { x: -300_000_000, y: -60_000_000, velocity: 0 };
    assert!(check_collision(&cfg, &low, &b));
    let high = Player { x: -300_000_000, y: 60_000_000, velocity: 0 };
    assert!(check_collision(&cfg, &high, &b));
}

#[test]
fn gap_edge_touch_is_no_collision() {
    // The gap spans 70 units above and below the center line; a 32-tall
    // player centered at -54 units has its bottom edge exactly on the
    // lower box's top edge: no collision, one micro-unit lower: collision.
    let cfg = Config::standard();
    let b = ObstaclePair { x: -300_000_000 };
    let touching = Player { x: -300_000_000, y: -54_000_000, velocity: 0 };
    assert!(!check_collision(&cfg, &touching, &b));
    let inside = Player { x: -300_000_000, y: -54_000_001, velocity: 0 };
    assert!(check_collision(&cfg, &inside, &b));
}

#[test]
fn obstacle_out_of_reach_is_no_collision() {
    let cfg = Config::standard();
    let p = Player { x: -300_000_000, y: -250_000_000, velocity: 0 };
    let b = ObstaclePair { x: 435_000_000 };
    assert!(!check_collision(&cfg, &p, &b));
}
