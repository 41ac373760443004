//! The game-flow state machine: menu, play, game over.
//!
//! A jump edge starts a game from the menu or from the game-over screen;
//! a detected collision ends a round. Nothing else moves the machine, and
//! there is no terminal state: game over always leads back to play on the
//! next jump edge.

use vstd::prelude::*;

verus! {

/// The three states of the game flow. `Menu` is the initial state.
#[derive(Clone, Copy, Debug, PartialEq, Eq, Structural, Hash)]
pub enum GameState {
    Menu,
    Play,
    Over,
}

/// The machine's transition function. `jump_edge` is true on the tick
/// the jump key goes down; `collision` is true when the player's box
/// overlaps an obstacle box on this tick (meaningful in `Play` only; the
/// other states field no entities and ignore it).
pub open spec fn spec_next_state(s: GameState, jump_edge: bool, collision: bool) -> GameState {
    match s {
        GameState::Menu => if jump_edge {
            GameState::Play
        } else {
            GameState::Menu
        },
        GameState::Play => if collision {
            GameState::Over
        } else {
            GameState::Play
        },
        GameState::Over => if jump_edge {
            GameState::Play
        } else {
            GameState::Over
        },
    }
}

/// Advance the state machine by one tick's signals.
pub fn next_state(s: GameState, jump_edge: bool, collision: bool) -> (r: GameState)
    ensures
        r == spec_next_state(s, jump_edge, collision),
{
    match s {
        GameState::Menu => if jump_edge {
            GameState::Play
        } else {
            GameState::Menu
        },
        GameState::Play => if collision {
            GameState::Over
        } else {
            GameState::Play
        },
        GameState::Over => if jump_edge {
            GameState::Play
        } else {
            GameState::Over
        },
    }
}

/// Each transition has exactly one trigger: from `Menu`, a jump edge and
/// nothing else enters `Play`; from `Play`, a collision and nothing else
/// enters `Over`; from `Over`, a jump edge and nothing else re-enters
/// `Play`. Without its trigger a state keeps itself.
pub proof fn lemma_transition_triggers(s: GameState, jump_edge: bool, collision: bool)
    ensures
        s is Menu ==> (spec_next_state(s, jump_edge, collision) is Play <==> jump_edge),
        s is Menu && !jump_edge ==> spec_next_state(s, jump_edge, collision) == s,
        s is Play ==> (spec_next_state(s, jump_edge, collision) is Over <==> collision),
        s is Play && !collision ==> spec_next_state(s, jump_edge, collision) == s,
        s is Over ==> (spec_next_state(s, jump_edge, collision) is Play <==> jump_edge),
        s is Over && !jump_edge ==> spec_next_state(s, jump_edge, collision) == s,
{
}

} // verus!
