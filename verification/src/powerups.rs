//! Powerups: how they fall, how they are caught, and what the triple ball
//! gives.
//!
//! A powerup drifts down by one unit in every tick. It is caught in the
//! tick in which the physics engine finds it touching the paddle, however
//! long it has been touching: it is despawned, and its kind decides what
//! follows. Only the triple ball does anything yet: it asks for two more
//! balls, split off the first ball in play to either side.

use bevy_rapier2d::plugin::RapierContext;
use vstd::prelude::*;

use crate::board::Point;
use crate::custom_commands::{Command, SpawnBall};
use crate::physics::{answer, intersection_pair, intersection_pairs};
use crate::{Entity, Powerup, SpawnThreeBallsEvent};

verus! {

/// How far a powerup falls in a tick, in half units.
pub const POWERUP_DRIFT: i64 = 2;

/// The steering offset of a split-off ball, in units: to the right for the
/// first of a pair, to the left for the second.
pub const SPLIT_OFFSET: i32 = 10;

/// A powerup in play: its name, its centre and its kind.
#[derive(Debug, Clone, Copy, PartialEq, Eq, Structural)]
pub struct PowerupEntity {
    pub entity: Entity,
    pub position: Point,
    pub powerup: Powerup,
}

/// Why no powerup could be caught: there is not exactly one paddle.
#[derive(Debug, Clone, Copy, PartialEq, Eq, Structural)]
pub enum PaddleError {
    NoPaddle,
    ManyPaddles,
}

/// What catching the powerups of a tick asks for.
#[derive(Debug, PartialEq, Eq)]
pub struct Pickups {
    /// The despawn of every caught powerup.
    pub commands: Vec<Command>,
    /// One request for every caught triple ball.
    pub three_balls: Vec<SpawnThreeBallsEvent>,
}

/// `powerup` one tick later: one unit further down, unless it has reached
/// the lower end of the coordinate range, where it stays.
pub open spec fn drifted(powerup: PowerupEntity) -> PowerupEntity {
    PowerupEntity {
        position: Point {
            x: powerup.position.x,
            y: if powerup.position.y - POWERUP_DRIFT >= i64::MIN {
                (powerup.position.y - POWERUP_DRIFT) as i64
            } else {
                i64::MIN
            },
        },
        ..powerup
    }
}

/// Whether a caught powerup of this kind asks for more balls.
pub open spec fn splits_ball(powerup: Powerup) -> bool {
    powerup == Powerup::TripleBall
}

/// The despawn of every powerup that is among `touching`, in the order of
/// the powerups.
pub open spec fn caught(powerups: Seq<PowerupEntity>, touching: Seq<Entity>) -> Seq<Command>
    decreases powerups.len(),
{
    if powerups.len() == 0 {
        Seq::empty()
    } else {
        let before = caught(powerups.drop_last(), touching);
        if touching.contains(powerups.last().entity) {
            before.push(Command::Despawn(powerups.last().entity))
        } else {
            before
        }
    }
}

/// How many triple balls are among the powerups that are among `touching`.
pub open spec fn caught_triple_balls(powerups: Seq<PowerupEntity>, touching: Seq<Entity>) -> nat
    decreases powerups.len(),
{
    if powerups.len() == 0 {
        0
    } else {
        let before = caught_triple_balls(powerups.drop_last(), touching);
        if touching.contains(powerups.last().entity) && splits_ball(powerups.last().powerup) {
            before + 1
        } else {
            before
        }
    }
}

/// The ball with number `index` that is split off `source`: the even ones
/// are steered to the right, the odd ones to the left.
pub open spec fn split_ball(source: Entity, index: int) -> SpawnBall {
    SpawnBall {
        source,
        x_diff: if index % 2 == 1 {
            (-SPLIT_OFFSET) as i32
        } else {
            SPLIT_OFFSET
        },
    }
}

/// Two balls for each of `events` requests, all split off the first of
/// `ball`; none where no ball is in play.
pub open spec fn split_balls(events: nat, ball: Seq<Entity>) -> Seq<Command> {
    if ball.len() == 0 {
        Seq::empty()
    } else {
        Seq::new(2 * events, |k: int| Command::SpawnBall(split_ball(ball[0], k % 2)))
    }
}

/// The one paddle in play, or why it cannot be told.
pub open spec fn single_paddle(paddle: Seq<Entity>) -> Result<Entity, PaddleError> {
    if paddle.len() == 0 {
        Err(PaddleError::NoPaddle)
    } else if paddle.len() > 1 {
        Err(PaddleError::ManyPaddles)
    } else {
        Ok(paddle[0])
    }
}

/// The powerups that touch `paddle`, in the order of the powerups, where
/// `pairs` is what the physics engine holds.
pub open spec fn touching_powerups(
    pairs: Map<(u64, u64), bool>,
    powerups: Seq<PowerupEntity>,
    paddle: Entity,
) -> Seq<Entity>
    decreases powerups.len(),
{
    if powerups.len() == 0 {
        Seq::empty()
    } else {
        let before = touching_powerups(pairs, powerups.drop_last(), paddle);
        if answer(pairs, paddle, powerups.last().entity) == Some(true) {
            before.push(powerups.last().entity)
        } else {
            before
        }
    }
}

/// Lets every powerup fall for one tick.
pub fn powerup_gravity(powerups: &mut Vec<PowerupEntity>)
    ensures
        final(powerups)@ == old(powerups)@.map_values(|powerup: PowerupEntity| drifted(powerup)),
{
    let ghost before = powerups@;
    let mut i: usize = 0;
    while i < powerups.len()
        invariant
            i <= powerups.len(),
            powerups@.len() == before.len(),
            forall|k: int| 0 <= k < i ==> powerups@[k] == drifted(before[k]),
            forall|k: int| i <= k < before.len() ==> powerups@[k] == before[k],
        decreases powerups.len() - i,
    {
        let powerup = powerups[i];
        let y: i64 = if powerup.position.y >= i64::MIN + POWERUP_DRIFT {
            powerup.position.y - POWERUP_DRIFT
        } else {
            i64::MIN
        };
        powerups[i] = PowerupEntity { position: Point { x: powerup.position.x, y }, ..powerup };
        i += 1;
    }
    assert(powerups@ =~= before.map_values(|powerup: PowerupEntity| drifted(powerup)));
}

/// Whether the physics engine's answer on a pair of colliders says that the
/// two touch. The engine answers `None` where it does not hold the pair,
/// `Some(false)` where it holds the pair but the two are apart, and
/// `Some(true)` where they touch.
pub fn touches(pair: Option<bool>) -> (touching: bool)
    ensures
        touching == (pair == Some(true)),
{
    match pair {
        Some(intersecting) => intersecting,
        None => false,
    }
}

/// Asks the physics engine of every powerup whether it touches `paddle`,
/// and names those that do, in the order of the powerups.
pub fn powerup_contacts(
    context: &RapierContext,
    powerups: &Vec<PowerupEntity>,
    paddle: Entity,
) -> (touching: Vec<Entity>)
    ensures
        touching@ == touching_powerups(intersection_pairs(*context), powerups@, paddle),
{
    let mut touching: Vec<Entity> = Vec::new();
    let mut i: usize = 0;
    while i < powerups.len()
        invariant
            i <= powerups.len(),
            touching@ == touching_powerups(
                intersection_pairs(*context),
                powerups@.take(i as int),
                paddle,
            ),
        decreases powerups.len() - i,
    {
        proof {
            assert(powerups@.take(i + 1).drop_last() =~= powerups@.take(i as int));
        }
        if touches(intersection_pair(context, paddle, powerups[i].entity)) {
            touching.push(powerups[i].entity);
        }
        i += 1;
    }
    proof {
        assert(powerups@.take(powerups.len() as int) =~= powerups@);
    }
    touching
}

/// Catches the powerups that are among `touching`: every one of them is
/// despawned, and every triple ball among them raises one request for more
/// balls. The other kinds give nothing yet.
pub fn catch_powerups(powerups: &Vec<PowerupEntity>, touching: &Vec<Entity>) -> (pickups: Pickups)
    ensures
        pickups.commands@ == caught(powerups@, touching@),
        pickups.three_balls@.len() == caught_triple_balls(powerups@, touching@),
{
    let mut commands: Vec<Command> = Vec::new();
    let mut three_balls: Vec<SpawnThreeBallsEvent> = Vec::new();
    let mut i: usize = 0;
    while i < powerups.len()
        invariant
            i <= powerups.len(),
            commands@ == caught(powerups@.take(i as int), touching@),
            three_balls@.len() == caught_triple_balls(powerups@.take(i as int), touching@),
        decreases powerups.len() - i,
    {
        proof {
            assert(powerups@.take(i + 1).drop_last() =~= powerups@.take(i as int));
        }
        let powerup = &powerups[i];
        if powerup.entity.among(touching) {
            commands.push(Command::Despawn(powerup.entity));
            match powerup.powerup {
                Powerup::TripleBall => {
                    three_balls.push(SpawnThreeBallsEvent);
                },
                Powerup::WidePaddle => {},
                Powerup::Gunship => {},
                Powerup::Sticky => {},
                Powerup::Life => {},
            }
        }
        i += 1;
    }
    proof {
        assert(powerups@.take(powerups.len() as int) =~= powerups@);
    }
    Pickups { commands, three_balls }
}

/// Catches the powerups that touch the paddle; `paddle` names the paddles
/// in play, and `context` is the physics engine, which is asked of every
/// powerup whether it touches the one paddle.
///
/// With no paddle or more than one nothing is asked and nothing is caught.
/// With one, every powerup that touches it is caught.
pub fn powerup_collisions(
    context: &RapierContext,
    powerups: &Vec<PowerupEntity>,
    paddle: &Vec<Entity>,
) -> (pickups: Result<Pickups, PaddleError>)
    ensures
        match single_paddle(paddle@) {
            Err(error) => pickups == Err::<Pickups, PaddleError>(error),
            Ok(one) => {
                let touching = touching_powerups(intersection_pairs(*context), powerups@, one);
                &&& pickups matches Ok(caught_now)
                &&& caught_now.commands@ == caught(powerups@, touching)
                &&& caught_now.three_balls@.len() == caught_triple_balls(powerups@, touching)
            },
        },
{
    if paddle.len() == 0 {
        return Err(PaddleError::NoPaddle);
    }
    if paddle.len() > 1 {
        return Err(PaddleError::ManyPaddles);
    }
    let touching = powerup_contacts(context, powerups, paddle[0]);
    Ok(catch_powerups(powerups, &touching))
}

/// Answers the requests for more balls: for each request two balls, split
/// off the first ball in play, the first steered to the right and the
/// second to the left. The ball they are split off stays as it is. With no
/// ball in play nothing is spawned.
pub fn three_balls_events(
    events: &Vec<SpawnThreeBallsEvent>,
    ball: &Vec<Entity>,
) -> (commands: Vec<Command>)
    ensures
        commands@ == split_balls(events@.len(), ball@),
{
    let mut commands: Vec<Command> = Vec::new();
    if ball.len() > 0 {
        let source = ball[0];
        let mut event: usize = 0;
        while event < events.len()
            invariant
                event <= events.len(),
                ball.len() > 0,
                source == ball@[0],
                commands@ == split_balls(event as nat, ball@),
            decreases events.len() - event,
        {
            commands.push(Command::SpawnBall(SpawnBall { source, x_diff: SPLIT_OFFSET }));
            commands.push(Command::SpawnBall(SpawnBall { source, x_diff: -SPLIT_OFFSET }));
            event += 1;
            assert(commands@ =~= split_balls(event as nat, ball@));
        }
    }
    commands
}

/// Catching one triple ball with one ball in play makes three: the ball
/// that was there and two more that start where it is, one steered to the
/// right and one to the left.
pub proof fn triple_ball_makes_three(ball: Seq<Entity>)
    requires
        ball.len() == 1,
    ensures
        ball.len() + split_balls(1, ball).len() == 3,
        split_balls(1, ball)[0] == Command::SpawnBall(
            SpawnBall { source: ball[0], x_diff: SPLIT_OFFSET },
        ),
        split_balls(1, ball)[1] == Command::SpawnBall(
            SpawnBall { source: ball[0], x_diff: (-SPLIT_OFFSET) as i32 },
        ),
{
}

} // verus!
