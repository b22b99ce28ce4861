//! The player's hand on the paddle.

use vstd::prelude::*;

verus! {

/// How far the paddle moves in a tick, in units.
pub const PADDLE_SPEED: i32 = 5;

/// Which of the two keys that move the paddle are held down.
#[derive(Debug, Clone, Copy, PartialEq, Eq, Structural)]
pub struct Input {
    pub left: bool,
    pub right: bool,
}

/// The horizontal step that `input` asks of the paddle, in units.
pub open spec fn step_of(input: Input) -> Option<i32> {
    if input.left {
        Some((-PADDLE_SPEED) as i32)
    } else if input.right {
        Some(PADDLE_SPEED)
    } else {
        None
    }
}

/// The horizontal step that the paddle is told to take in this tick, in
/// units: to the left while the left key is held, else to the right while
/// the right key is held. With neither key held the paddle is told nothing.
pub fn movement(input: &Input) -> (step: Option<i32>)
    ensures
        step == step_of(*input),
{
    if input.left {
        Some(-PADDLE_SPEED)
    } else if input.right {
        Some(PADDLE_SPEED)
    } else {
        None
    }
}

} // verus!
