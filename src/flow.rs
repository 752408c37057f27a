//! The two-level game-flow state machine: the top-level phase, the sub-phase of
//! play, and the requests that change them, which take effect only when
//! `apply_transitions` runs at the end of a tick.
use vstd::prelude::*;
use crate::config::STARTING_LIVES;
use crate::physics::TickOutcome;
use crate::state::{reset_game_state, GameState, Level, Lives, PlayingState, Score};

verus! {

/// Phases, the chosen level, the counters, and the transitions requested this tick.
#[derive(Clone, Copy, Debug, PartialEq, Eq, Structural)]
pub struct GameFlow {
    pub state: GameState,
    pub playing: PlayingState,
    pub level: Level,
    pub score: Score,
    pub lives: Lives,
    /// The phase requested for the next tick boundary, if any; the last request wins.
    pub next_state: Option<GameState>,
    /// The sub-phase requested for the next tick boundary, if any; the last request wins.
    pub next_playing: Option<PlayingState>,
}

/// What the entity store must do after a tick boundary.
#[derive(Clone, Copy, Debug, PartialEq, Eq, Structural)]
pub struct TransitionEffects {
    /// The phase that was left, if the phase changed.
    pub exited: Option<GameState>,
    /// The phase that was entered, if the phase changed.
    pub entered: Option<GameState>,
    /// Play was left: every gameplay entity goes.
    pub despawn_gameplay: bool,
    /// Play was entered: the field is laid out for the chosen level.
    pub spawn_gameplay: bool,
    /// Play goes on with the ball attached again: a new ball is put on the paddle.
    pub respawn_ball: bool,
}

/// The phase after the boundary.
pub open spec fn phase_after(f: GameFlow) -> GameState {
    match f.next_state {
        Some(s) => s,
        None => f.state,
    }
}

/// The phase changes at the boundary.
pub open spec fn phase_changes(f: GameFlow) -> bool {
    phase_after(f) != f.state
}

/// The sub-phase after the boundary: entering the menu or play resets it to
/// attached; otherwise a request sets it.
pub open spec fn playing_after(f: GameFlow) -> PlayingState {
    if phase_changes(f) && (phase_after(f) == GameState::Menu || phase_after(f)
        == GameState::Playing) {
        PlayingState::BallAttached
    } else {
        match f.next_playing {
            Some(p) => p,
            None => f.playing,
        }
    }
}

impl GameFlow {
    /// The state at start-up: the menu, a fresh run, nothing requested.
    pub fn new() -> (r: GameFlow)
        ensures
            r.state == GameState::Menu,
            r.playing == PlayingState::BallAttached,
            r.level == Level::Level1,
            r.score.0 == 0,
            r.lives.0 == STARTING_LIVES,
            r.next_state == None::<GameState>,
            r.next_playing == None::<PlayingState>,
    {
        GameFlow {
            state: GameState::Menu,
            playing: PlayingState::BallAttached,
            level: Level::Level1,
            score: Score(0),
            lives: Lives(STARTING_LIVES),
            next_state: None,
            next_playing: None,
        }
    }

    /// Asks for phase `s` at the next boundary.
    pub fn request_state(&mut self, s: GameState)
        ensures
            *final(self) == (GameFlow { next_state: Some(s), ..*old(self) }),
    {
        self.next_state = Some(s);
    }

    /// Asks for sub-phase `p` at the next boundary.
    pub fn request_playing(&mut self, p: PlayingState)
        ensures
            *final(self) == (GameFlow { next_playing: Some(p), ..*old(self) }),
    {
        self.next_playing = Some(p);
    }

    /// A press of the menu's start button leads to level select.
    pub fn handle_menu_input(&mut self, pressed: bool)
        requires
            old(self).state == GameState::Menu,
        ensures
            pressed ==> *final(self) == (GameFlow { next_state: Some(GameState::LevelSelect), ..*old(self) }),
            !pressed ==> *final(self) == *old(self),
    {
        if pressed {
            self.request_state(GameState::LevelSelect);
        }
    }

    /// Picking a level records it and starts play.
    pub fn handle_level_select_input(&mut self, choice: Option<Level>)
        requires
            old(self).state == GameState::LevelSelect,
        ensures
            choice is Some ==> *final(self) == (GameFlow {
                level: choice->Some_0,
                next_state: Some(GameState::Playing),
                ..*old(self)
            }),
            choice is None ==> *final(self) == *old(self),
    {
        match choice {
            Some(level) => {
                self.level = level;
                self.request_state(GameState::Playing);
            },
            None => {},
        }
    }

    /// On the game-over screen, the back button returns to the menu.
    pub fn handle_game_over_input(&mut self, pressed: bool)
        requires
            old(self).state == GameState::GameOver,
        ensures
            pressed ==> *final(self) == (GameFlow { next_state: Some(GameState::Menu), ..*old(self) }),
            !pressed ==> *final(self) == *old(self),
    {
        if pressed {
            self.request_state(GameState::Menu);
        }
    }

    /// On the victory screen, the back button returns to the menu.
    pub fn handle_victory_input(&mut self, pressed: bool)
        requires
            old(self).state == GameState::Victory,
        ensures
            pressed ==> *final(self) == (GameFlow { next_state: Some(GameState::Menu), ..*old(self) }),
            !pressed ==> *final(self) == *old(self),
    {
        if pressed {
            self.request_state(GameState::Menu);
        }
    }

    /// Turns the end of a tick of collision response into requests: the last
    /// life lost ends the game, the last brick wins it, and a lost ball with
    /// lives to spare goes back to the attached sub-phase.
    pub fn handle_tick_outcome(&mut self, outcome: TickOutcome)
        ensures
            outcome == TickOutcome::GameOver ==> *final(self) == (GameFlow {
                next_state: Some(GameState::GameOver),
                ..*old(self)
            }),
            outcome == TickOutcome::Victory ==> *final(self) == (GameFlow {
                next_state: Some(GameState::Victory),
                ..*old(self)
            }),
            outcome == TickOutcome::BallLost ==> *final(self) == (GameFlow {
                next_playing: Some(PlayingState::BallAttached),
                ..*old(self)
            }),
            outcome == TickOutcome::Continue ==> *final(self) == *old(self),
    {
        match outcome {
            TickOutcome::GameOver => self.request_state(GameState::GameOver),
            TickOutcome::Victory => self.request_state(GameState::Victory),
            TickOutcome::BallLost => self.request_playing(PlayingState::BallAttached),
            TickOutcome::Continue => {},
        }
    }

    /// Applies the requests at a tick boundary. A changed phase runs the exit
    /// hook of the old one (leaving play removes the gameplay entities) and the
    /// enter hook of the new one (the menu resets score, lives and sub-phase; play
    /// lays out the field with the ball attached). The sub-phase then follows
    /// its request; going back to attached while play goes on puts a new ball on
    /// the paddle. Both requests are consumed.
    pub fn apply_transitions(&mut self) -> (r: TransitionEffects)
        ensures
            final(self).state == phase_after(*old(self)),
            final(self).playing == playing_after(*old(self)),
            final(self).level == old(self).level,
            phase_changes(*old(self)) && phase_after(*old(self)) == GameState::Menu ==> final(self).score.0 == 0
                && final(self).lives.0 == STARTING_LIVES,
            !(phase_changes(*old(self)) && phase_after(*old(self)) == GameState::Menu) ==> final(self).score
                == old(self).score && final(self).lives == old(self).lives,
            final(self).next_state == None::<GameState>,
            final(self).next_playing == None::<PlayingState>,
            r.exited == (if phase_changes(*old(self)) {
                Some(old(self).state)
            } else {
                None
            }),
            r.entered == (if phase_changes(*old(self)) {
                Some(phase_after(*old(self)))
            } else {
                None
            }),
            r.despawn_gameplay == (phase_changes(*old(self)) && old(self).state == GameState::Playing),
            r.spawn_gameplay == (phase_changes(*old(self)) && phase_after(*old(self))
                == GameState::Playing),
            r.respawn_ball == (!phase_changes(*old(self)) && old(self).state == GameState::Playing
                && old(self).playing == PlayingState::BallLaunched && old(self).next_playing
                == Some(PlayingState::BallAttached)),
    {
        let old_state = self.state;
        let target = match self.next_state {
            Some(s) => s,
            None => self.state,
        };
        let changed = target != old_state;
        let mut effects = TransitionEffects {
            exited: None,
            entered: None,
            despawn_gameplay: false,
            spawn_gameplay: false,
            respawn_ball: false,
        };
        let mut reset_sub_phase = false;
        if changed {
            effects.exited = Some(old_state);
            effects.entered = Some(target);
            effects.despawn_gameplay = old_state == GameState::Playing;
            effects.spawn_gameplay = target == GameState::Playing;
            self.state = target;
            if target == GameState::Menu {
                reset_game_state(&mut self.score, &mut self.lives, &mut self.playing);
                reset_sub_phase = true;
            } else if target == GameState::Playing {
                reset_sub_phase = true;
            }
        }
        if reset_sub_phase {
            self.playing = PlayingState::BallAttached;
        } else {
            match self.next_playing {
                Some(p) => {
                    effects.respawn_ball = !changed && self.state == GameState::Playing
                        && self.playing == PlayingState::BallLaunched && p
                        == PlayingState::BallAttached;
                    self.playing = p;
                },
                None => {},
            }
        }
        self.next_state = None;
        self.next_playing = None;
        effects
    }
}

} // verus!
