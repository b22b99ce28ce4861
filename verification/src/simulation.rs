//! One tick of the simulation.
//!
//! The caller reads what the tick needs into a frame: the keys held, the
//! collisions that the physics engine reported, and the entities in play by
//! role. The tick answers with all that the rules make of it. Every
//! reaction sees the entities as the frame holds them; what is to be
//! spawned or despawned is asked for in commands, which the caller carries
//! out together once the tick is over.

use bevy_rapier2d::plugin::RapierContext;
use vstd::prelude::*;

use crate::blocks::{block_removal, removals, BlockEntity, POWERUP_ODDS};
use crate::collisions::{
    after_strikes,
    ball_collisions,
    ball_hits,
    despawn_area_collisions,
    lost_balls,
    track_damage,
    BallHit,
    CollisionEvent,
};
use crate::custom_commands::Command;
use crate::input::{movement, step_of, Input};
use crate::physics::intersection_pairs;
use crate::powerups::{
    caught,
    caught_triple_balls,
    drifted,
    powerup_collisions,
    powerup_gravity,
    single_paddle,
    split_balls,
    three_balls_events,
    touching_powerups,
    PaddleError,
    PowerupEntity,
};
use crate::{Entity, GameState};

verus! {

/// What the caller has read for a tick.
#[derive(Debug, PartialEq, Eq)]
pub struct Frame {
    pub input: Input,
    /// The collisions of the tick, in the order of the report.
    pub events: Vec<CollisionEvent>,
    pub balls: Vec<Entity>,
    pub paddles: Vec<Entity>,
    pub despawn_areas: Vec<Entity>,
    pub blocks: Vec<BlockEntity>,
    pub powerups: Vec<PowerupEntity>,
}

/// What the rules make of a tick, besides what they change in the frame.
#[derive(Debug, PartialEq, Eq)]
pub struct Reactions {
    /// The horizontal step that the paddle is told to take, in units.
    pub step: Option<i32>,
    /// The balls that were hit, each to be steered where it met a paddle.
    pub hits: Vec<BallHit>,
    /// What is to be despawned and spawned: the lost balls, then the
    /// removed blocks with the powerups they drop, then the caught
    /// powerups, then the balls that the caught triple balls split off.
    pub commands: Vec<Command>,
}

/// How a tick went.
#[derive(Debug, PartialEq, Eq)]
pub enum Tick {
    /// The game is not in play: nothing was looked at.
    Suspended,
    /// There is not exactly one paddle: the tick was given up before
    /// anything changed.
    Aborted(PaddleError),
    Ran(Reactions),
}

/// What a tick that ran asks for, given what the physics engine holds on
/// pairs of colliders and the draws of the removal pass.
pub open spec fn tick_commands(
    frame: Frame,
    pairs: Map<(u64, u64), bool>,
    draws: Seq<i32>,
) -> Seq<Command> {
    let touching = touching_powerups(pairs, frame.powerups@, frame.paddles@[0]);
    lost_balls(frame.events@, frame.despawn_areas@, frame.balls@) + removals(
        after_strikes(frame.blocks@, frame.events@, frame.balls@),
        draws,
    ) + caught(frame.powerups@, touching) + split_balls(
        caught_triple_balls(frame.powerups@, touching),
        frame.balls@,
    )
}

/// Runs one tick in mode `state` on what `frame` holds; `context` is the
/// physics engine, which is asked which powerups touch the paddle.
///
/// Out of play nothing happens, and with no paddle or several the tick is
/// given up; either way the frame stays as it is. Else the blocks take the
/// hits of the tick, the powerups fall, and the reactions are answered. The
/// removal pass looks at the blocks after they took the hits; a powerup is
/// caught where it was before it fell.
pub fn tick(state: GameState, frame: &mut Frame, context: &RapierContext) -> (outcome: Tick)
    ensures
        !state.simulates() ==> outcome == Tick::Suspended && *final(frame) == *old(frame),
        state.simulates() ==> match single_paddle(old(frame).paddles@) {
            Err(error) => outcome == Tick::Aborted(error) && *final(frame) == *old(frame),
            Ok(_) => {
                &&& outcome matches Tick::Ran(reactions)
                &&& reactions.step == step_of(old(frame).input)
                &&& reactions.hits@ == ball_hits(
                    old(frame).events@,
                    old(frame).balls@,
                    old(frame).paddles@,
                )
                &&& exists|draws: Seq<i32>|
                    {
                        &&& draws.len() == old(frame).blocks@.len()
                        &&& forall|i: int|
                            0 <= i < draws.len() ==> 0 <= #[trigger] draws[i] < POWERUP_ODDS
                        &&& reactions.commands@ == tick_commands(
                            *old(frame),
                            intersection_pairs(*context),
                            draws,
                        )
                    }
                &&& final(frame).blocks@ == after_strikes(
                    old(frame).blocks@,
                    old(frame).events@,
                    old(frame).balls@,
                )
                &&& final(frame).powerups@ == old(frame).powerups@.map_values(
                    |powerup: PowerupEntity| drifted(powerup),
                )
                &&& final(frame).input == old(frame).input
                &&& final(frame).events == old(frame).events
                &&& final(frame).balls == old(frame).balls
                &&& final(frame).paddles == old(frame).paddles
                &&& final(frame).despawn_areas == old(frame).despawn_areas
            },
        },
{
    if !state.runs_simulation() {
        return Tick::Suspended;
    }
    let pickups = match powerup_collisions(context, &frame.powerups, &frame.paddles) {
        Ok(pickups) => pickups,
        Err(error) => {
            return Tick::Aborted(error);
        },
    };
    let mut commands = despawn_area_collisions(&frame.events, &frame.despawn_areas, &frame.balls);
    let hits = ball_collisions(&frame.events, &frame.balls, &frame.paddles);
    let step = movement(&frame.input);
    track_damage(&frame.events, &mut frame.blocks, &frame.balls);
    let mut removed = block_removal(&frame.blocks);
    let ghost draws = choose|draws: Seq<i32>|
        {
            &&& draws.len() == frame.blocks@.len()
            &&& forall|i: int| 0 <= i < draws.len() ==> 0 <= #[trigger] draws[i] < POWERUP_ODDS
            &&& removed@ == removals(frame.blocks@, draws)
        };
    powerup_gravity(&mut frame.powerups);
    let mut split = three_balls_events(&pickups.three_balls, &frame.balls);
    let mut caught_now = pickups.commands;
    commands.append(&mut removed);
    commands.append(&mut caught_now);
    commands.append(&mut split);
    proof {
        assert(commands@ == tick_commands(*old(frame), intersection_pairs(*context), draws));
    }
    Tick::Ran(Reactions { step, hits, commands })
}

} // verus!
