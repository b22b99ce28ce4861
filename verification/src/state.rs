//! The game as a whole: its mode, its board, and its score keeping.
//!
//! The mode changes when the player asks for it. Leaving `Playing` closes
//! the running session: its clock is stopped and its result is offered to
//! the high score, once. Entering `Playing` opens a session: the clock is
//! started and a fresh session is laid out. Both happen where play is asked
//! for while playing. Only in `Playing` does the simulation run; the menu
//! shows in the other modes.

use vstd::prelude::*;

use crate::board::Board;
use crate::scoring::{close_timer, start_timer, HighScore, Score, Timer};
use crate::session::{is_new_game, spawn_new_game, NewGame};
use crate::{Entity, GameState, STARTING_GAME_STATE};

verus! {

impl GameState {
    /// Whether the simulation runs in this mode.
    pub open spec fn simulates(self) -> bool {
        self == GameState::Playing
    }

    /// Whether the simulation runs in this mode: in `Playing` only.
    pub fn runs_simulation(&self) -> (runs: bool)
        ensures
            runs == self.simulates(),
    {
        match self {
            GameState::Playing => true,
            GameState::Menu => false,
            GameState::Paused => false,
        }
    }

    /// Whether the menu shows in this mode: in all but `Playing`.
    pub fn shows_menu(&self) -> (shows: bool)
        ensures
            shows == !self.simulates(),
    {
        match self {
            GameState::Menu => true,
            GameState::Playing => false,
            GameState::Paused => true,
        }
    }
}

/// The game: mode, board, score, session clock and high score. While the
/// game is in `Playing`, the session clock has been started.
pub struct Game {
    state: GameState,
    board: Board,
    score: Score,
    timer: Timer,
    high_score: HighScore,
}

impl Game {
    #[verifier::type_invariant]
    spec fn clock_runs_in_play(self) -> bool {
        self.state == GameState::Playing ==> self.timer.start is Some
    }

    /// The mode the game is in.
    pub closed spec fn spec_state(&self) -> GameState {
        self.state
    }

    /// The board the game is played on.
    pub closed spec fn spec_board(&self) -> Board {
        self.board
    }

    /// The points of the running session.
    pub closed spec fn spec_score(&self) -> Score {
        self.score
    }

    /// The session clock.
    pub closed spec fn spec_timer(&self) -> Timer {
        self.timer
    }

    /// The best closed session so far.
    pub closed spec fn spec_high_score(&self) -> HighScore {
        self.high_score
    }

    /// A game on `board` that waits in the starting mode with no points, a
    /// clock that never ran and an empty high score.
    pub fn new(board: Board) -> (game: Self)
        ensures
            game.state() == STARTING_GAME_STATE,
            game.board() == board,
            game.score() == (Score { score: 0 }),
            game.timer() == (Timer { start: None, runtime: None }),
            game.high_score() == (HighScore { score: 0, time: 0 }),
    {
        Game {
            state: STARTING_GAME_STATE,
            board,
            score: Score::default(),
            timer: Timer::default(),
            high_score: HighScore::default(),
        }
    }

    /// The mode the game is in.
    #[verifier::when_used_as_spec(spec_state)]
    pub fn state(&self) -> (state: GameState)
        ensures
            state == self.spec_state(),
    {
        self.state
    }

    /// The board the game is played on.
    #[verifier::when_used_as_spec(spec_board)]
    pub fn board(&self) -> (board: Board)
        ensures
            board == self.spec_board(),
    {
        self.board
    }

    /// The points of the running session.
    #[verifier::when_used_as_spec(spec_score)]
    pub fn score(&self) -> (score: Score)
        ensures
            score == self.spec_score(),
    {
        self.score
    }

    /// The session clock.
    #[verifier::when_used_as_spec(spec_timer)]
    pub fn timer(&self) -> (timer: Timer)
        ensures
            timer == self.spec_timer(),
    {
        self.timer
    }

    /// The best closed session so far.
    #[verifier::when_used_as_spec(spec_high_score)]
    pub fn high_score(&self) -> (high_score: HighScore)
        ensures
            high_score == self.spec_high_score(),
    {
        self.high_score
    }

    /// Sets the points of the running session.
    pub fn set_score(&mut self, score: Score)
        ensures
            final(self).score() == score,
            final(self).state() == old(self).state(),
            final(self).board() == old(self).board(),
            final(self).timer() == old(self).timer(),
            final(self).high_score() == old(self).high_score(),
    {
        proof {
            use_type_invariant(&*self);
        }
        self.score = score;
    }

    /// Changes the mode to `next`; `session` names the entities of the
    /// session in play, if there is one.
    ///
    /// Leaving `Playing` stops the clock, keeps the session's length, and
    /// offers that length with the score to the high score. Entering
    /// `Playing` starts the clock anew and answers with the fresh session to
    /// lay out. Between the other modes nothing but the mode changes.
    pub fn set_state(&mut self, next: GameState, session: &Vec<Entity>) -> (spawn: Option<NewGame>)
        ensures
            final(self).state() == next,
            final(self).board() == old(self).board(),
            final(self).score() == old(self).score(),
            old(self).state() == GameState::Playing ==> exists|elapsed: u128|
                {
                    &&& final(self).high_score() == #[trigger] old(self).high_score().offered(
                        old(self).score(),
                        elapsed,
                    )
                    &&& next != GameState::Playing ==> final(self).timer() == (Timer {
                        start: old(self).timer().start,
                        runtime: Some(elapsed),
                    })
                },
            old(self).state() != GameState::Playing ==> {
                &&& final(self).high_score() == old(self).high_score()
                &&& next != GameState::Playing ==> final(self).timer() == old(self).timer()
            },
            next == GameState::Playing ==> {
                &&& final(self).timer().start is Some
                &&& final(self).timer().runtime is None
            },
            next == GameState::Playing <==> spawn is Some,
            spawn matches Some(game) ==> is_new_game(game, old(self).board(), session@),
    {
        proof {
            use_type_invariant(&*self);
        }
        let ghost before = *self;
        let mut timer = self.timer;
        let mut high_score = self.high_score;
        if self.state.runs_simulation() {
            close_timer(&mut timer, &self.score, &mut high_score);
        }
        let ghost closed = timer;
        let spawn = if next.runs_simulation() {
            start_timer(&mut timer);
            Some(spawn_new_game(&self.board, session))
        } else {
            None
        };
        *self = Game { state: next, board: self.board, score: self.score, timer, high_score };
        proof {
            if before.state == GameState::Playing {
                let elapsed = closed.runtime.unwrap();
                assert(self.high_score() == before.high_score().offered(
                    before.score(),
                    elapsed,
                ));
                assert(next != GameState::Playing ==> self.timer() == (Timer {
                    start: before.timer().start,
                    runtime: Some(elapsed),
                }));
            }
        }
        spawn
    }
}

} // verus!
