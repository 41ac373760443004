//! The state machine's transition function over all states and signals.

use crab_game::state::{next_state, GameState};

#[test]
fn menu_moves_only_on_jump() {
    assert_eq!(next_state(GameState::Menu, true, false), GameState::Play);
    assert_eq!(next_state(GameState::Menu, true, true), GameState::Play);
    assert_eq!(next_state(GameState::Menu, false, false), GameState::Menu);
    assert_eq!(next_state(GameState::Menu, false, true), GameState::Menu);
}

#[test]
fn play_moves_only_on_collision() {
    assert_eq!(next_state(GameState::Play, false, true), GameState::Over);
    assert_eq!(next_state(GameState::Play, true, true), GameState::Over);
    assert_eq!(next_state(GameState::Play, false, false), GameState::Play);
    assert_eq!(next_state(GameState::Play, true, false), GameState::Play);
}

#[test]
fn over_moves_only_on_jump() {
    assert_eq!(next_state(GameState::Over, true, false), GameState::Play);
    assert_eq!(next_state(GameState::Over, true, true), GameState::Play);
    assert_eq!(next_state(GameState::Over, false, false), GameState::Over);
    assert_eq!(next_state(GameState::Over, false, true), GameState::Over);
}
