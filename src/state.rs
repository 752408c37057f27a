//! Phases of the game, the chosen level, and the score and lives counters.
use vstd::prelude::*;
use crate::config::STARTING_LIVES;

verus! {

/// Top-level phase of the game.
#[derive(Clone, Copy, Debug, PartialEq, Eq, Structural, Hash)]
pub enum GameState {
    Menu,
    LevelSelect,
    Playing,
    GameOver,
    Victory,
}

/// Sub-phase that only means something while the game is `Playing`.
#[derive(Clone, Copy, Debug, PartialEq, Eq, Structural, Hash)]
pub enum PlayingState {
    BallAttached,
    BallLaunched,
}

/// The level picked on the level-select screen.
#[derive(Clone, Copy, Debug, PartialEq, Eq, Structural, Hash)]
pub enum Level {
    Level1,
    Level2,
}

/// Bricks destroyed during the current run.
#[derive(Clone, Copy, Debug, PartialEq, Eq, Structural)]
pub struct Score(pub u64);

/// Balls left in the current run.
#[derive(Clone, Copy, Debug, PartialEq, Eq, Structural)]
pub struct Lives(pub u64);

impl Default for GameState {
    fn default() -> (r: GameState)
        ensures
            r == GameState::Menu,
    {
        GameState::Menu
    }
}

impl Default for PlayingState {
    fn default() -> (r: PlayingState)
        ensures
            r == PlayingState::BallAttached,
    {
        PlayingState::BallAttached
    }
}

impl Default for Level {
    fn default() -> (r: Level)
        ensures
            r == Level::Level1,
    {
        Level::Level1
    }
}

impl Default for Score {
    fn default() -> (r: Score)
        ensures
            r.0 == 0,
    {
        Score(0)
    }
}

impl Default for Lives {
    fn default() -> (r: Lives)
        ensures
            r.0 == STARTING_LIVES,
    {
        Lives(STARTING_LIVES)
    }
}

/// One life taken away, never going below zero.
pub open spec fn lose_life_spec(lives: nat) -> nat {
    if lives == 0 {
        0
    } else {
        (lives - 1) as nat
    }
}

/// Lives left after `n` losses starting from `lives`.
pub open spec fn lives_after_losses(lives: nat, n: nat) -> nat
    decreases n,
{
    if n == 0 {
        lives
    } else {
        lose_life_spec(lives_after_losses(lives, (n - 1) as nat))
    }
}

impl Lives {
    /// Takes one life away, stopping at zero.
    pub fn lose_life(&mut self)
        ensures
            final(self).0 == lose_life_spec(old(self).0 as nat),
    {
        self.0 = self.0.saturating_sub(1);
    }
}

/// Lives never go negative: `n` losses from a full set of lives leave
/// `max(0, STARTING_LIVES - n)`.
pub proof fn lemma_lives_after_losses(n: nat)
    ensures
        lives_after_losses(STARTING_LIVES as nat, n) == if n >= STARTING_LIVES {
            0
        } else {
            STARTING_LIVES - n
        },
    decreases n,
{
    if n > 0 {
        lemma_lives_after_losses((n - 1) as nat);
    }
}

/// Resets the counters and the sub-phase for a fresh run, as entering the menu does.
pub fn reset_game_state(score: &mut Score, lives: &mut Lives, playing: &mut PlayingState)
    ensures
        final(score).0 == 0,
        final(lives).0 == STARTING_LIVES,
        *final(playing) == PlayingState::BallAttached,
{
    score.0 = 0;
    lives.0 = STARTING_LIVES;
    *playing = PlayingState::BallAttached;
}

} // verus!
