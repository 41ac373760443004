//! Axis-aligned bounding-box collision, exclusive at the edges.
//!
//! A box is a center and a full size on each axis, all in micro-units.
//! Two boxes collide exactly when they overlap on both axes with strict
//! inequality: boxes that merely touch do not collide. Working with
//! doubled distances (`2 * |c1 - c2| < s1 + s2`) keeps the test exact on
//! integers without halving the sizes.

use vstd::prelude::*;
use crate::config::Config;
use crate::kinematics::Player;
use crate::kinematics::ObstaclePair;
use crate::kinematics::upper_block_y;
use crate::kinematics::lower_block_y;

verus! {

/// Two spans (center and full size on one axis) overlap strictly:
/// the distance between the centers, doubled, is less than the sum of
/// the sizes. Touching spans (equality) do not overlap.
pub open spec fn spans_overlap(c1: int, s1: int, c2: int, s2: int) -> bool {
    &&& 2 * (c1 - c2) < s1 + s2
    &&& 2 * (c2 - c1) < s1 + s2
}

/// Two boxes overlap: their spans overlap on both axes.
pub open spec fn boxes_overlap(
    x1: int, y1: int, w1: int, h1: int,
    x2: int, y2: int, w2: int, h2: int,
) -> bool {
    &&& spans_overlap(x1, w1, x2, w2)
    &&& spans_overlap(y1, h1, y2, h2)
}

/// Exclusive axis-aligned bounding-box test on two boxes given as center
/// `(x, y)` and full size `w` by `h`, micro-units. Total: any `i64`
/// coordinates are accepted.
pub fn boxes_collide(
    x1: i64, y1: i64, w1: i64, h1: i64,
    x2: i64, y2: i64, w2: i64, h2: i64,
) -> (r: bool)
    ensures
        r == boxes_overlap(
            x1 as int, y1 as int, w1 as int, h1 as int,
            x2 as int, y2 as int, w2 as int, h2 as int,
        ),
{
    let dx: i128 = (x1 as i128) - (x2 as i128);
    let wsum: i128 = (w1 as i128) + (w2 as i128);
    let dy: i128 = (y1 as i128) - (y2 as i128);
    let hsum: i128 = (h1 as i128) + (h2 as i128);
    2 * dx < wsum && 2 * (-dx) < wsum && 2 * dy < hsum && 2 * (-dy) < hsum
}

/// What the doubled-distance test means in edge coordinates: for spans
/// of even size, overlap holds exactly when each span's low edge lies
/// strictly left of the other's high edge, so spans that merely touch,
/// low edge on high edge, do not overlap.
pub proof fn lemma_spans_overlap_meaning(c1: int, s1: int, c2: int, s2: int)
    requires
        s1 % 2 == 0,
        s2 % 2 == 0,
    ensures
        spans_overlap(c1, s1, c2, s2) <==> {
            &&& c1 - s1 / 2 < c2 + s2 / 2
            &&& c2 - s2 / 2 < c1 + s1 / 2
        },
{
}

/// The player's box collides with the upper or the lower obstacle box.
/// Each obstacle is `block_width` wide and as tall as the field, at the
/// pair's shared `x`; the upper one sits half a gap above the field's
/// center line, the lower one mirrored below.
pub open spec fn player_hits_obstacles(cfg: Config, p: Player, b: ObstaclePair) -> bool {
    ||| boxes_overlap(
            p.x as int, p.y as int, cfg.player_width as int, cfg.player_height as int,
            b.x as int, upper_block_y(cfg), cfg.block_width as int, cfg.field_height as int,
        )
    ||| boxes_overlap(
            p.x as int, p.y as int, cfg.player_width as int, cfg.player_height as int,
            b.x as int, lower_block_y(cfg), cfg.block_width as int, cfg.field_height as int,
        )
}

/// Check the player against both obstacle boxes of the pair.
pub fn check_collision(cfg: &Config, p: &Player, b: &ObstaclePair) -> (r: bool)
    requires
        cfg.wf(),
    ensures
        r == player_hits_obstacles(*cfg, *p, *b),
{
    let upper_y: i64 = cfg.field_height / 2 + cfg.block_gap / 2;
    let hit_upper = boxes_collide(
        p.x, p.y, cfg.player_width, cfg.player_height,
        b.x, upper_y, cfg.block_width, cfg.field_height,
    );
    let hit_lower = boxes_collide(
        p.x, p.y, cfg.player_width, cfg.player_height,
        b.x, -upper_y, cfg.block_width, cfg.field_height,
    );
    hit_upper || hit_lower
}

} // verus!
