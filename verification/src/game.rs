//! The frame orchestrator: one value holding the whole game, advanced one
//! tick at a time from the host's time and input signals.
//!
//! Each tick reads the elapsed microseconds and the jump edge, moves the
//! entities (in `Play`), checks the player against the obstacles, and
//! drives the state machine. The player and the obstacles exist exactly
//! while the game is in `Play`: they are spawned on entry and dropped on
//! exit, so no entity outlives its round.

use vstd::prelude::*;
use crate::config::Config;
use crate::config::MAX_TICK_MICROS;
use crate::state::GameState;
use crate::state::spec_next_state;
use crate::kinematics::Player;
use crate::kinematics::ObstaclePair;
use crate::kinematics::player_spawn_x;
use crate::kinematics::spawned_player;
use crate::kinematics::spawned_obstacles;
use crate::kinematics::next_velocity;
use crate::kinematics::next_y;
use crate::kinematics::next_block_x;
use crate::kinematics::upper_block_y;
use crate::kinematics::lower_block_y;
use crate::collision::player_hits_obstacles;
use crate::collision::check_collision;

verus! {

/// The whole game: its constants, the state machine's state, and the
/// entities of the current round, present exactly in `Play`.
#[derive(Clone, Copy, Debug, PartialEq, Eq, Structural)]
pub struct Game {
    pub config: Config,
    pub state: GameState,
    pub player: Option<Player>,
    pub obstacles: Option<ObstaclePair>,
}

/// The player after one `Play` tick: velocity from gravity or the jump
/// impulse, position integrated and clamped, horizontal position fixed.
pub open spec fn play_step_player(cfg: Config, p: Player, dt: int, jump_edge: bool) -> Player {
    let v2 = next_velocity(cfg, p.velocity as int, jump_edge);
    Player { x: p.x, y: next_y(cfg, p.y as int, v2, dt) as i64, velocity: v2 as i64 }
}

/// The obstacles after one `Play` tick: scrolled left, recycled at the
/// threshold.
pub open spec fn play_step_obstacles(cfg: Config, b: ObstaclePair, dt: int) -> ObstaclePair {
    ObstaclePair { x: next_block_x(cfg, b.x as int, dt) as i64 }
}

/// Whether this tick's motion ends in a collision: meaningful in `Play`
/// only, where the moved player is checked against the moved obstacles.
pub open spec fn tick_collides(g: Game, dt: int, jump_edge: bool) -> bool {
    &&& g.state is Play
    &&& player_hits_obstacles(
        g.config,
        play_step_player(g.config, g.player->Some_0, dt, jump_edge),
        play_step_obstacles(g.config, g.obstacles->Some_0, dt),
    )
}

/// The whole game after one tick.
///
/// In `Menu` and `Over` a jump edge enters `Play` and spawns the
/// entities; anything else changes nothing. In `Play` the entities move,
/// and the round either goes on with them or, on a collision, ends in
/// `Over` with the entities dropped.
pub open spec fn spec_tick(g: Game, dt: int, jump_edge: bool) -> Game {
    match g.state {
        GameState::Menu | GameState::Over => {
            if jump_edge {
                Game {
                    state: GameState::Play,
                    player: Some(spawned_player(g.config)),
                    obstacles: Some(spawned_obstacles(g.config)),
                    ..g
                }
            } else {
                g
            }
        },
        GameState::Play => {
            let p2 = play_step_player(g.config, g.player->Some_0, dt, jump_edge);
            let b2 = play_step_obstacles(g.config, g.obstacles->Some_0, dt);
            if player_hits_obstacles(g.config, p2, b2) {
                Game { state: GameState::Over, player: None, obstacles: None, ..g }
            } else {
                Game { state: GameState::Play, player: Some(p2), obstacles: Some(b2), ..g }
            }
        },
    }
}

/// One tick keeps the game consistent, whatever the input: from any
/// well-formed game, `spec_tick` yields a well-formed game with the same
/// configuration. By induction, no sequence of ticks and inputs ever
/// drives the player out of the field or the obstacles out of their
/// range, or lets an entity outlive `Play`.
pub proof fn lemma_tick_preserves_wf(g: Game, dt: int, jump_edge: bool)
    requires
        g.wf(),
        1 <= dt <= MAX_TICK_MICROS,
    ensures
        spec_tick(g, dt, jump_edge).wf(),
        spec_tick(g, dt, jump_edge).config == g.config,
{
    if g.state is Play {
        let p = g.player->Some_0;
        let b = g.obstacles->Some_0;
        crate::kinematics::lemma_player_stays_in_field(
            g.config,
            p.y as int,
            next_velocity(g.config, p.velocity as int, jump_edge),
            dt,
        );
        assert(0 < g.config.block_speed * dt) by (nonlinear_arith)
            requires
                0 < g.config.block_speed,
                1 <= dt,
        ;
    }
}

/// A whole run: the game after every tick of `inputs`, each a tick
/// duration (microseconds) with its jump edge, applied in order.
pub open spec fn run_ticks(g: Game, inputs: Seq<(int, bool)>) -> Game
    decreases inputs.len(),
{
    if inputs.len() == 0 {
        g
    } else {
        run_ticks(spec_tick(g, inputs[0].0, inputs[0].1), inputs.drop_first())
    }
}

/// Every tick duration of the sequence lies within the bounds a single
/// tick asks for.
pub open spec fn valid_tick_inputs(inputs: Seq<(int, bool)>) -> bool {
    forall|i: int|
        0 <= i < inputs.len() ==> 1 <= (#[trigger] inputs[i]).0 <= MAX_TICK_MICROS
}

/// Any sequence of ticks and inputs leaves a well-formed game with its
/// configuration untouched; in particular, whenever the player exists
/// along the way or at the end, its vertical position lies within the
/// field's half-extent.
pub proof fn lemma_run_preserves_wf(g: Game, inputs: Seq<(int, bool)>)
    requires
        g.wf(),
        valid_tick_inputs(inputs),
    ensures
        run_ticks(g, inputs).wf(),
        run_ticks(g, inputs).config == g.config,
    decreases inputs.len(),
{
    if inputs.len() > 0 {
        lemma_tick_preserves_wf(g, inputs[0].0, inputs[0].1);
        let rest = inputs.drop_first();
        assert(valid_tick_inputs(rest)) by {
            assert forall|i: int|
                0 <= i < rest.len() implies 1 <= (#[trigger] rest[i]).0 <= MAX_TICK_MICROS by {
                assert(rest[i] == inputs[i + 1]);
            }
        }
        lemma_run_preserves_wf(spec_tick(g, inputs[0].0, inputs[0].1), inputs.drop_first());
    }
}

/// The state a tick leaves behind is exactly the state machine's answer
/// to this tick's signals: the jump edge, and whether this tick's motion
/// ends in a collision.
pub proof fn lemma_tick_follows_state_machine(g: Game, dt: int, jump_edge: bool)
    ensures
        spec_tick(g, dt, jump_edge).state == spec_next_state(
            g.state,
            jump_edge,
            tick_collides(g, dt, jump_edge),
        ),
{
}

impl Game {
    /// A consistent game: a usable configuration; the player and the
    /// obstacles present exactly in `Play`, inside their bounds, the
    /// player at its fixed horizontal position.
    pub open spec fn wf(self) -> bool {
        &&& self.config.wf()
        &&& (self.state is Play <==> self.player is Some)
        &&& (self.state is Play <==> self.obstacles is Some)
        &&& (self.player matches Some(p) ==> p.wf(self.config) && p.x == player_spawn_x(
            self.config,
        ))
        &&& (self.obstacles matches Some(b) ==> b.wf(self.config))
    }

    /// A fresh game: at the menu, with no entities yet.
    pub fn new(config: Config) -> (g: Game)
        requires
            config.wf(),
        ensures
            g.wf(),
            g.config == config,
            g.state is Menu,
            g.player is None,
            g.obstacles is None,
    {
        Game { config, state: GameState::Menu, player: None, obstacles: None }
    }

    /// Advance the game by one tick of `dt` microseconds, with or
    /// without a jump edge. The new game is exactly `spec_tick` of the
    /// old, and the state machine moved exactly on its trigger: a jump
    /// edge out of `Menu` or `Over`, this tick's collision out of
    /// `Play`.
    pub fn tick(&mut self, dt: u64, jump_edge: bool)
        requires
            old(self).wf(),
            1 <= dt <= MAX_TICK_MICROS,
        ensures
            final(self).wf(),
            *final(self) == spec_tick(*old(self), dt as int, jump_edge),
            final(self).state == spec_next_state(
                old(self).state,
                jump_edge,
                tick_collides(*old(self), dt as int, jump_edge),
            ),
            final(self).config == old(self).config,
    {
        match self.state {
            GameState::Menu | GameState::Over => {
                if jump_edge {
                    self.player = Some(Player::spawn(&self.config));
                    self.obstacles = Some(ObstaclePair::spawn(&self.config));
                    self.state = GameState::Play;
                }
            },
            GameState::Play => {
                let mut p = self.player.unwrap();
                let mut b = self.obstacles.unwrap();
                p.tick(&self.config, dt, jump_edge);
                b.tick(&self.config, dt);
                if check_collision(&self.config, &p, &b) {
                    self.player = None;
                    self.obstacles = None;
                    self.state = GameState::Over;
                } else {
                    self.player = Some(p);
                    self.obstacles = Some(b);
                }
            },
        }
    }

    /// The rectangles a host should draw this tick, each as center
    /// `(x, y)` and full size `(w, h)` in micro-units: in `Play` the
    /// player's box and the two obstacle boxes, in the other states
    /// nothing (they show text screens instead).
    pub fn scene_boxes(&self) -> (v: Vec<(i64, i64, i64, i64)>)
        requires
            self.wf(),
        ensures
            self.state is Play ==> {
                &&& v@.len() == 3
                &&& v@[0] == ((
                    self.player->Some_0.x,
                    self.player->Some_0.y,
                    self.config.player_width,
                    self.config.player_height,
                ))
                &&& v@[1] == ((
                    self.obstacles->Some_0.x,
                    upper_block_y(self.config) as i64,
                    self.config.block_width,
                    self.config.field_height,
                ))
                &&& v@[2] == ((
                    self.obstacles->Some_0.x,
                    lower_block_y(self.config) as i64,
                    self.config.block_width,
                    self.config.field_height,
                ))
            },
            !(self.state is Play) ==> v@.len() == 0,
    {
        let mut v: Vec<(i64, i64, i64, i64)> = Vec::new();
        if let (Some(p), Some(b)) = (&self.player, &self.obstacles) {
            let upper_y: i64 = self.config.field_height / 2 + self.config.block_gap / 2;
            v.push((p.x, p.y, self.config.player_width, self.config.player_height));
            v.push((b.x, upper_y, self.config.block_width, self.config.field_height));
            v.push((b.x, -upper_y, self.config.block_width, self.config.field_height));
        }
        v
    }
}

} // verus!
