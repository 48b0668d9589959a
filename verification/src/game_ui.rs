use vstd::prelude::*;

use crate::enemy::{spec_default_spawner, EnemySpawner};
use crate::game_state::{append_decimal, spec_decimal, GameScore, GameState};

verus! {

/// The score line of the heads-up display: `Score: ` and the current score.
pub fn score_label(current: u32) -> (label: String)
    ensures
        label@ == "Score: "@ + spec_decimal(current as nat),
{
    let mut label = String::from_str("Score: ");
    append_decimal(&mut label, current);
    label
}

/// The best-score line of the heads-up display: `Best: ` and the best score.
pub fn best_label(high_score: u32) -> (label: String)
    ensures
        label@ == "Best: "@ + spec_decimal(high_score as nat),
{
    let mut label = String::from_str("Best: ");
    append_decimal(&mut label, high_score);
    label
}

/// Whether the heads-up display is hidden: once the game is over, only the
/// game-over text stays visible.
pub fn hud_hidden(state: GameState) -> (hidden: bool)
    ensures
        hidden == (state == GameState::GameOver),
{
    match state {
        GameState::GameOver => true,
        GameState::Playing => false,
    }
}

/// Restarting: the score starts over (the best score stays), the spawner is
/// that of a new game, and the game is played again.
pub fn restart_game(score: &mut GameScore, spawner: &mut EnemySpawner) -> (state: GameState)
    ensures
        final(score).current == 0,
        final(score).high_score == old(score).high_score,
        *final(spawner) == spec_default_spawner(),
        state == GameState::Playing,
{
    score.reset_current();
    *spawner = EnemySpawner::default();
    GameState::Playing
}

} // verus!
