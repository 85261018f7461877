//! The process-wide game state machine: StartScreen -> InGame -> (Win | Dead)
//! -> StartScreen. Exactly one state is active at any time.

use vstd::prelude::*;

verus! {

/// The four screens of the game. The machine starts on the start screen,
/// play happens in `InGame`, and reaching the goal or dying ends the session.
#[derive(Clone, Copy, Debug, PartialEq, Eq, Hash, Structural)]
pub enum GameState {
    StartScreen,
    InGame,
    Win,
    Dead,
}

impl Default for GameState {
    /// The machine starts on the start screen.
    fn default() -> (s: GameState)
        ensures
            s is StartScreen,
    {
        GameState::StartScreen
    }
}

/// How many of the four states `s` counts as: the active state contributes
/// one, every other state contributes nothing.
pub open spec fn active_state_count(s: GameState) -> int {
    (if s is StartScreen { 1int } else { 0int })
        + (if s is InGame { 1int } else { 0int })
        + (if s is Win { 1int } else { 0int })
        + (if s is Dead { 1int } else { 0int })
}

/// Exactly one of StartScreen, InGame, Win and Dead is active.
pub proof fn lemma_exactly_one_state_active(s: GameState)
    ensures
        active_state_count(s) == 1,
{
}

impl GameState {
    /// Pressing the start (or restart) button leaves any ended screen for the
    /// game itself.
    pub fn start_pressed(&mut self)
        ensures
            *final(self) is InGame,
    {
        *self = GameState::InGame;
    }

    /// Leaving the dead screen for the start screen.
    pub fn esc_pressed(&mut self)
        ensures
            *final(self) is StartScreen,
    {
        *self = GameState::StartScreen;
    }
}

/// The win check: reaching the goal x-coordinate ends the game won. Runs
/// after the tick's movement.
pub fn check_win(player_x: i64, game_state: &mut GameState)
    requires
        *old(game_state) is InGame,
    ensures
        player_x >= crate::WIN_X ==> *final(game_state) is Win,
        player_x < crate::WIN_X ==> *final(game_state) == *old(game_state),
{
    if player_x >= crate::WIN_X {
        *game_state = GameState::Win;
    }
}

/// The death check: running out of hit points ends the game dead, within the
/// same tick. Runs after the damage pass.
pub fn kills_player(health: &crate::health::Health, game_state: &mut GameState)
    requires
        *old(game_state) is InGame,
    ensures
        health.remaining <= 0 ==> *final(game_state) is Dead,
        health.remaining > 0 ==> *final(game_state) == *old(game_state),
{
    if health.remaining <= 0 {
        *game_state = GameState::Dead;
    }
}

} // verus!
