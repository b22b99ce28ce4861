//! Game rules of a breakout-style arcade game.
//!
//! The crate holds the part of the game that decides: where things stand on
//! the board, what a collision does, when a block goes, what a powerup
//! gives, which mode the game is in and who holds the best result. Drawing,
//! input devices and the entities themselves live with the caller, who
//! hands this crate plain values and carries out what it answers.
//!
//! - [`board`]: from the grid to physical coordinates.
//! - [`blocks`], [`levels`]: the tiers of blocks, the removal pass, and the
//!   layout of a level.
//! - [`collisions`]: what the collisions of a tick do to balls and blocks.
//! - [`powerups`]: falling, catching, and the triple ball.
//! - [`input`]: the paddle's step.
//! - [`custom_commands`], [`session`]: what is spawned, and the layout of a
//!   fresh session.
//! - [`scoring`], [`state`]: score, clock, high score, and the modes of the
//!   game.
//! - [`simulation`]: one tick, all reactions in their order.
//! - [`physics`]: what the rules ask of the physics engine.
//! - [`ui`]: the buttons of the menu.
//!
//! Places are counted in half units (see [`board::Point`]); an entity is
//! named by the bits its owner gave it (see [`Entity`]).
//!
//! Three things come from outside and are taken on trust; each says so
//! where it stands: the clock in [`scoring`], the random draw in
//! [`blocks`], and the physics engine's pairs in [`physics`].

use vstd::prelude::*;

pub mod blocks;
pub mod board;
pub mod collisions;
pub mod custom_commands;
pub mod input;
pub mod levels;
pub mod physics;
pub mod powerups;
pub mod scoring;
pub mod session;
pub mod simulation;
pub mod state;
pub mod ui;

verus! {

/// The mode the game is in. Only `Playing` lets the simulation run.
#[derive(Debug, Clone, Copy, PartialEq, Eq, Hash, Structural)]
pub enum GameState {
    Menu,
    Playing,
    Paused,
}

/// The mode a freshly started game is in.
pub const STARTING_GAME_STATE: GameState = GameState::Menu;

/// The name of an entity: the bits by which the owner of the entities tells
/// them apart.
#[derive(Debug, Clone, Copy, PartialEq, Eq, Hash, Structural)]
pub struct Entity(pub u64);

impl Entity {
    /// Whether the entity is one of `entities`.
    pub fn among(self, entities: &Vec<Entity>) -> (found: bool)
        ensures
            found == entities@.contains(self),
    {
        let mut i: usize = 0;
        while i < entities.len()
            invariant
                i <= entities.len(),
                forall|k: int| 0 <= k < i ==> entities@[k] != self,
            decreases entities.len() - i,
        {
            if entities[i] == self {
                return true;
            }
            i += 1;
        }
        false
    }
}

/// How often a block has been hit.
#[derive(Debug, Clone, Copy, PartialEq, Eq, Structural)]
pub struct Damage(pub u8);

/// What a powerup gives to the player who catches it.
#[derive(Debug, Clone, Copy, PartialEq, Eq, Structural)]
pub enum Powerup {
    TripleBall,
    WidePaddle,
    Gunship,
    Sticky,
    Life,
}

/// The request that a caught `TripleBall` powerup raises.
#[derive(Debug, Clone, Copy, PartialEq, Eq, Structural)]
pub struct SpawnThreeBallsEvent;

} // verus!
