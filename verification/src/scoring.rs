//! Score, session clock and best result.
//!
//! A session is timed from the moment it starts to the moment it is closed.
//! When it is closed, its score and its length are offered to the high
//! score, which takes them if the score is higher, or equal and reached in
//! less time. Lengths of time are counted in nanoseconds.

use std::time::{Duration, Instant};
use vstd::prelude::*;

verus! {

/// `std::time::Instant`, a reading of the monotonic clock. Nothing is known
/// of what a reading holds.
#[verifier::external_type_specification]
#[verifier::external_body]
pub struct ExInstant(std::time::Instant);

/// `Instant::now` reads the clock. What it returns depends on when it is
/// called, so nothing is said of it.
pub assume_specification[ Instant::now ]() -> (now: Instant);

/// `Instant::elapsed` gives the time that went by since the reading was
/// taken, and no time where the clock has not moved on. It depends on when
/// it is called, so nothing is said of it.
pub assume_specification[ Instant::elapsed ](start: &Instant) -> (elapsed: Duration);

/// `Duration::as_nanos` gives the whole length in nanoseconds. Nothing is
/// known of what a `Duration` holds, so nothing is said of the number.
pub assume_specification[ Duration::as_nanos ](duration: &Duration) -> (nanos: u128);

/// The points of the running session.
#[derive(Debug, Clone, Copy, PartialEq, Eq, Structural)]
pub struct Score {
    pub score: u32,
}

/// The best closed session so far: its score and how long it took, in
/// nanoseconds.
#[derive(Debug, Clone, Copy, PartialEq, Eq, Structural)]
pub struct HighScore {
    pub score: u32,
    pub time: u128,
}

/// The session clock: when the session started, and once it is closed, how
/// long it ran, in nanoseconds.
#[derive(Debug, Clone, Copy, PartialEq, Eq)]
pub struct Timer {
    pub start: Option<Instant>,
    pub runtime: Option<u128>,
}

impl Default for Score {
    fn default() -> (score: Self)
        ensures
            score == (Score { score: 0 }),
    {
        Score { score: 0 }
    }
}

impl Default for HighScore {
    fn default() -> (high_score: Self)
        ensures
            high_score == (HighScore { score: 0, time: 0 }),
    {
        HighScore { score: 0, time: 0 }
    }
}

impl Default for Timer {
    fn default() -> (timer: Self)
        ensures
            timer.start is None,
            timer.runtime is None,
    {
        Timer { start: None, runtime: None }
    }
}

impl HighScore {
    /// A closed session beats the high score with a strictly higher score,
    /// or with the same score in strictly less time.
    pub open spec fn beaten_by(self, score: Score, elapsed: u128) -> bool {
        score.score > self.score || (score.score == self.score && elapsed < self.time)
    }

    /// The high score after a session of `score` points that took `elapsed`
    /// nanoseconds was offered to it.
    pub open spec fn offered(self, score: Score, elapsed: u128) -> HighScore {
        if self.beaten_by(score, elapsed) {
            HighScore { score: score.score, time: elapsed }
        } else {
            self
        }
    }

    /// Offers a closed session of `score` points that took `elapsed`
    /// nanoseconds to the high score.
    pub fn offer(&mut self, score: &Score, elapsed: u128)
        ensures
            *final(self) == old(self).offered(*score, elapsed),
    {
        if score.score > self.score || (score.score == self.score && elapsed < self.time) {
            *self = HighScore { score: score.score, time: elapsed };
        }
    }
}

impl Timer {
    /// A clock that was started at `now` and has not been closed.
    pub fn started_at(now: Instant) -> (timer: Self)
        ensures
            timer == (Timer { start: Some(now), runtime: None }),
    {
        Timer { start: Some(now), runtime: None }
    }

    /// Freezes the clock at `elapsed` nanoseconds; the start is kept.
    pub fn close_with(&mut self, elapsed: u128)
        ensures
            *final(self) == (Timer { start: old(self).start, runtime: Some(elapsed) }),
    {
        self.runtime = Some(elapsed);
    }
}

/// Starts the clock of a new session: the start is read from the system
/// clock, and any earlier result is forgotten.
pub fn start_timer(timer: &mut Timer)
    ensures
        final(timer).start is Some,
        final(timer).runtime is None,
{
    *timer = Timer::started_at(Instant::now());
}

/// Closes the session: the time since the start is read from the system
/// clock and kept as the session's length, and that length is offered with
/// the score to the high score, once.
///
/// The clock must have been started.
pub fn close_timer(timer: &mut Timer, score: &Score, high_score: &mut HighScore)
    requires
        old(timer).start is Some,
    ensures
        final(timer).start == old(timer).start,
        final(timer).runtime is Some,
        *final(high_score) == old(high_score).offered(*score, final(timer).runtime.unwrap()),
{
    let elapsed = timer.start.unwrap().elapsed().as_nanos();
    timer.close_with(elapsed);
    high_score.offer(score, elapsed);
}

} // verus!
