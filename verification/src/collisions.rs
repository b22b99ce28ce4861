//! What the collisions of a tick do.
//!
//! The physics engine reports which pairs of entities began to touch and
//! which ceased to. From the roles of the two entities alone the rules
//! derive three things: a ball that begins to touch the despawn area is
//! lost; a ball that begins to touch anything is hit, and steered where the
//! other is a paddle; a block that a ball ceases to touch is damaged.
//! Every event of the tick is looked at, in the order of the report.

use vstd::prelude::*;

use crate::blocks::BlockEntity;
use crate::custom_commands::Command;
use crate::{Damage, Entity};

verus! {

/// How strongly the paddle steers: the horizontal part of a steered ball's
/// direction is the ball's offset from the centre of the paddle taken this
/// many times and halved, that is seven and a half times.
pub const PADDLE_STEERING_HALVES: i32 = 15;

/// Two entities began to touch, or ceased to.
#[derive(Debug, Clone, Copy, PartialEq, Eq, Structural)]
pub enum CollisionEvent {
    Started(Entity, Entity),
    Stopped(Entity, Entity),
}

/// A ball began to touch something. Where that is a paddle, the ball is to
/// be steered by it.
#[derive(Debug, Clone, Copy, PartialEq, Eq, Structural)]
pub struct BallHit {
    pub ball: Entity,
    pub paddle: Option<Entity>,
}

/// The one of `a` and `b` that is among `entities`; `a` where both are.
pub open spec fn either(entities: Seq<Entity>, a: Entity, b: Entity) -> Option<Entity> {
    if entities.contains(a) {
        Some(a)
    } else if entities.contains(b) {
        Some(b)
    } else {
        None
    }
}

/// The ball that `event` sends into the despawn area, if it does.
pub open spec fn lost_ball(
    event: CollisionEvent,
    despawn_area: Seq<Entity>,
    ball: Seq<Entity>,
) -> Option<Entity> {
    match event {
        CollisionEvent::Started(a, b) => {
            if ball.contains(a) && despawn_area.contains(b) {
                Some(a)
            } else if ball.contains(b) && despawn_area.contains(a) {
                Some(b)
            } else {
                None
            }
        },
        CollisionEvent::Stopped(_, _) => None,
    }
}

/// One despawn for every event that sends a ball into the despawn area, in
/// the order of the events.
pub open spec fn lost_balls(
    events: Seq<CollisionEvent>,
    despawn_area: Seq<Entity>,
    ball: Seq<Entity>,
) -> Seq<Command>
    decreases events.len(),
{
    if events.len() == 0 {
        Seq::empty()
    } else {
        let before = lost_balls(events.drop_last(), despawn_area, ball);
        match lost_ball(events.last(), despawn_area, ball) {
            Some(entity) => before.push(Command::Despawn(entity)),
            None => before,
        }
    }
}

/// The hit that `event` reports, if a ball is part of it.
pub open spec fn ball_hit(
    event: CollisionEvent,
    balls: Seq<Entity>,
    paddles: Seq<Entity>,
) -> Option<BallHit> {
    match event {
        CollisionEvent::Started(a, b) => match either(balls, a, b) {
            Some(ball) => Some(BallHit { ball, paddle: either(paddles, a, b) }),
            None => None,
        },
        CollisionEvent::Stopped(_, _) => None,
    }
}

/// One hit for every event in which a ball begins to touch something, in
/// the order of the events.
pub open spec fn ball_hits(
    events: Seq<CollisionEvent>,
    balls: Seq<Entity>,
    paddles: Seq<Entity>,
) -> Seq<BallHit>
    decreases events.len(),
{
    if events.len() == 0 {
        Seq::empty()
    } else {
        let before = ball_hits(events.drop_last(), balls, paddles);
        match ball_hit(events.last(), balls, paddles) {
            Some(hit) => before.push(hit),
            None => before,
        }
    }
}

/// Whether one of `blocks` is named `entity`.
pub open spec fn is_block(blocks: Seq<BlockEntity>, entity: Entity) -> bool {
    exists|i: int| 0 <= i < blocks.len() && #[trigger] blocks[i].entity == entity
}

/// The block that `event` damages, if it damages one: the block that a
/// ball ceased to touch.
pub open spec fn struck(
    event: CollisionEvent,
    blocks: Seq<BlockEntity>,
    ball: Seq<Entity>,
) -> Option<Entity> {
    match event {
        CollisionEvent::Started(_, _) => None,
        CollisionEvent::Stopped(a, b) => {
            if ball.contains(a) && is_block(blocks, b) {
                Some(b)
            } else if ball.contains(b) && is_block(blocks, a) {
                Some(a)
            } else {
                None
            }
        },
    }
}

/// How many of `events` damage the block named `entity`.
pub open spec fn strikes(
    events: Seq<CollisionEvent>,
    blocks: Seq<BlockEntity>,
    ball: Seq<Entity>,
    entity: Entity,
) -> nat
    decreases events.len(),
{
    if events.len() == 0 {
        0
    } else {
        let before = strikes(events.drop_last(), blocks, ball, entity);
        if struck(events.last(), blocks, ball) == Some(entity) {
            before + 1
        } else {
            before
        }
    }
}

/// `block` after `hits` more hits: the damage counts up to 255 and stays
/// there.
pub open spec fn damaged(block: BlockEntity, hits: nat) -> BlockEntity {
    BlockEntity {
        damage: Damage(
            if block.damage.0 + hits <= u8::MAX {
                (block.damage.0 + hits) as u8
            } else {
                u8::MAX
            },
        ),
        ..block
    }
}

/// `blocks` after the hits that `events` report: every block has taken the
/// hits that name it, and nothing else has changed.
pub open spec fn after_strikes(
    blocks: Seq<BlockEntity>,
    events: Seq<CollisionEvent>,
    ball: Seq<Entity>,
) -> Seq<BlockEntity> {
    Seq::new(
        blocks.len(),
        |i: int| damaged(blocks[i], strikes(events, blocks, ball, blocks[i].entity)),
    )
}

/// Whether one of `blocks` is named `entity`.
fn names_block(blocks: &Vec<BlockEntity>, entity: Entity) -> (found: bool)
    ensures
        found == is_block(blocks@, entity),
{
    let mut i: usize = 0;
    while i < blocks.len()
        invariant
            i <= blocks.len(),
            forall|k: int| 0 <= k < i ==> blocks@[k].entity != entity,
        decreases blocks.len() - i,
    {
        if blocks[i].entity == entity {
            return true;
        }
        i += 1;
    }
    false
}

/// Loses every ball that began to touch the despawn area in this tick,
/// whatever its velocity: one despawn for each such event.
pub fn despawn_area_collisions(
    events: &Vec<CollisionEvent>,
    despawn_area: &Vec<Entity>,
    ball: &Vec<Entity>,
) -> (commands: Vec<Command>)
    ensures
        commands@ == lost_balls(events@, despawn_area@, ball@),
        forall|i: int|
            0 <= i < events.len() ==> (#[trigger] lost_ball(events@[i], despawn_area@, ball@)
                matches Some(entity) ==> commands@.contains(Command::Despawn(entity))),
{
    let mut commands: Vec<Command> = Vec::new();
    let mut i: usize = 0;
    while i < events.len()
        invariant
            i <= events.len(),
            commands@ == lost_balls(events@.take(i as int), despawn_area@, ball@),
        decreases events.len() - i,
    {
        proof {
            assert(events@.take(i + 1).drop_last() =~= events@.take(i as int));
        }
        match events[i] {
            CollisionEvent::Started(a, b) => {
                if a.among(ball) && b.among(despawn_area) {
                    commands.push(Command::Despawn(a));
                } else if b.among(ball) && a.among(despawn_area) {
                    commands.push(Command::Despawn(b));
                }
            },
            CollisionEvent::Stopped(_, _) => {},
        }
        i += 1;
    }
    proof {
        assert(events@.take(events.len() as int) =~= events@);
        assert forall|i: int| 0 <= i < events.len() implies (#[trigger] lost_ball(
            events@[i],
            despawn_area@,
            ball@,
        ) matches Some(entity) ==> commands@.contains(Command::Despawn(entity))) by {
            if lost_ball(events@[i], despawn_area@, ball@) is Some {
                lost_balls_are_despawned(events@, despawn_area@, ball@, i);
            }
        }
    }
    commands
}

/// Reports every ball that began to touch something in this tick, and the
/// paddle where it was one: one hit for each such event.
pub fn ball_collisions(
    events: &Vec<CollisionEvent>,
    balls: &Vec<Entity>,
    paddles: &Vec<Entity>,
) -> (hits: Vec<BallHit>)
    ensures
        hits@ == ball_hits(events@, balls@, paddles@),
{
    let mut hits: Vec<BallHit> = Vec::new();
    let mut i: usize = 0;
    while i < events.len()
        invariant
            i <= events.len(),
            hits@ == ball_hits(events@.take(i as int), balls@, paddles@),
        decreases events.len() - i,
    {
        proof {
            assert(events@.take(i + 1).drop_last() =~= events@.take(i as int));
        }
        match events[i] {
            CollisionEvent::Started(a, b) => {
                let ball = if a.among(balls) {
                    Some(a)
                } else if b.among(balls) {
                    Some(b)
                } else {
                    None
                };
                let paddle = if a.among(paddles) {
                    Some(a)
                } else if b.among(paddles) {
                    Some(b)
                } else {
                    None
                };
                if let Some(ball) = ball {
                    hits.push(BallHit { ball, paddle });
                }
            },
            CollisionEvent::Stopped(_, _) => {},
        }
        i += 1;
    }
    proof {
        assert(events@.take(events.len() as int) =~= events@);
    }
    hits
}

/// Counts the hits of this tick: every time a ball ceased to touch a block,
/// the damage of that block goes up by one, up to 255. Nothing else of a
/// block changes, and no damage ever goes down.
pub fn track_damage(events: &Vec<CollisionEvent>, blocks: &mut Vec<BlockEntity>, ball: &Vec<Entity>)
    ensures
        final(blocks)@ == after_strikes(old(blocks)@, events@, ball@),
        final(blocks)@.len() == old(blocks)@.len(),
        forall|i: int|
            0 <= i < old(blocks)@.len() ==> #[trigger] final(blocks)@[i].damage.0 >= old(
                blocks,
            )@[i].damage.0,
{
    let ghost before = blocks@;
    let mut i: usize = 0;
    while i < events.len()
        invariant
            i <= events.len(),
            blocks@.len() == before.len(),
            forall|k: int|
                0 <= k < before.len() ==> #[trigger] blocks@[k] == damaged(
                    before[k],
                    strikes(events@.take(i as int), before, ball@, before[k].entity),
                ),
        decreases events.len() - i,
    {
        proof {
            assert(events@.take(i + 1).drop_last() =~= events@.take(i as int));
            same_names_same_blocks(before, blocks@);
        }
        let target = match events[i] {
            CollisionEvent::Started(_, _) => None,
            CollisionEvent::Stopped(a, b) => {
                if a.among(ball) && names_block(blocks, b) {
                    Some(b)
                } else if b.among(ball) && names_block(blocks, a) {
                    Some(a)
                } else {
                    None
                }
            },
        };
        assert(target == struck(events@[i as int], before, ball@));
        if let Some(entity) = target {
            let mut k: usize = 0;
            while k < blocks.len()
                invariant
                    k <= blocks.len(),
                    blocks@.len() == before.len(),
                    forall|j: int|
                        0 <= j < k ==> #[trigger] blocks@[j] == damaged(
                            before[j],
                            strikes(events@.take(i + 1), before, ball@, before[j].entity),
                        ),
                    forall|j: int|
                        k <= j < before.len() ==> #[trigger] blocks@[j] == damaged(
                            before[j],
                            strikes(events@.take(i as int), before, ball@, before[j].entity),
                        ),
                    i < events.len(),
                    events@.take(i + 1).drop_last() == events@.take(i as int),
                    struck(events@[i as int], before, ball@) == Some(entity),
                decreases blocks.len() - k,
            {
                let block = blocks[k];
                if block.entity == entity && block.damage.0 < u8::MAX {
                    blocks[k] = BlockEntity { damage: Damage(block.damage.0 + 1), ..block };
                }
                k += 1;
            }
        }
        i += 1;
    }
    proof {
        assert(events@.take(events.len() as int) =~= events@);
        assert(blocks@ =~= after_strikes(before, events@, ball@));
    }
}

/// A ball that one of the events sends into the despawn area is despawned.
pub proof fn lost_balls_are_despawned(
    events: Seq<CollisionEvent>,
    despawn_area: Seq<Entity>,
    ball: Seq<Entity>,
    i: int,
)
    requires
        0 <= i < events.len(),
        lost_ball(events[i], despawn_area, ball) is Some,
    ensures
        lost_balls(events, despawn_area, ball).contains(
            Command::Despawn(lost_ball(events[i], despawn_area, ball).unwrap()),
        ),
    decreases events.len(),
{
    let before = lost_balls(events.drop_last(), despawn_area, ball);
    let all = lost_balls(events, despawn_area, ball);
    if i == events.len() - 1 {
        assert(all.last() == Command::Despawn(lost_ball(events[i], despawn_area, ball).unwrap()));
    } else {
        lost_balls_are_despawned(events.drop_last(), despawn_area, ball, i);
        let command = Command::Despawn(lost_ball(events[i], despawn_area, ball).unwrap());
        let at = choose|at: int| 0 <= at < before.len() && before[at] == command;
        assert(all[at] == command);
    }
}

/// Nothing but a ball that an event sent into the despawn area is
/// despawned.
pub proof fn despawned_balls_were_lost(
    events: Seq<CollisionEvent>,
    despawn_area: Seq<Entity>,
    ball: Seq<Entity>,
    at: int,
)
    requires
        0 <= at < lost_balls(events, despawn_area, ball).len(),
    ensures
        exists|i: int|
            0 <= i < events.len() && lost_ball(events[i], despawn_area, ball) is Some
                && lost_balls(events, despawn_area, ball)[at] == Command::Despawn(
                #[trigger] lost_ball(events[i], despawn_area, ball).unwrap(),
            ),
    decreases events.len(),
{
    let before = lost_balls(events.drop_last(), despawn_area, ball);
    if at < before.len() {
        despawned_balls_were_lost(events.drop_last(), despawn_area, ball, at);
        let i = choose|i: int|
            0 <= i < events.drop_last().len() && lost_ball(
                events.drop_last()[i],
                despawn_area,
                ball,
            ) is Some && before[at] == Command::Despawn(
                #[trigger] lost_ball(events.drop_last()[i], despawn_area, ball).unwrap(),
            );
        assert(events[i] == events.drop_last()[i]);
    } else {
        let i = events.len() - 1;
        assert(lost_ball(events[i], despawn_area, ball) is Some);
    }
}

/// No hit takes damage away: whatever the events, every block ends as the
/// block it was, with at least the damage it had.
pub proof fn damage_never_goes_down(
    blocks: Seq<BlockEntity>,
    events: Seq<CollisionEvent>,
    ball: Seq<Entity>,
    i: int,
)
    requires
        0 <= i < blocks.len(),
    ensures
        after_strikes(blocks, events, ball)[i].damage.0 >= blocks[i].damage.0,
        after_strikes(blocks, events, ball)[i].entity == blocks[i].entity,
        after_strikes(blocks, events, ball)[i].position == blocks[i].position,
        after_strikes(blocks, events, ball)[i].block == blocks[i].block,
{
}

/// Damage only grows as the events come in: after the first `fewer` of the
/// events a block has no more damage than after all of them.
pub proof fn damage_grows_with_the_events(
    blocks: Seq<BlockEntity>,
    events: Seq<CollisionEvent>,
    ball: Seq<Entity>,
    fewer: int,
    i: int,
)
    requires
        0 <= fewer <= events.len(),
        0 <= i < blocks.len(),
    ensures
        after_strikes(blocks, events.take(fewer), ball)[i].damage.0 <= after_strikes(
            blocks,
            events,
            ball,
        )[i].damage.0,
{
    strikes_grow_with_the_events(events, blocks, ball, blocks[i].entity, fewer);
}

/// The first `fewer` of the events strike a block no more often than all of
/// them.
proof fn strikes_grow_with_the_events(
    events: Seq<CollisionEvent>,
    blocks: Seq<BlockEntity>,
    ball: Seq<Entity>,
    entity: Entity,
    fewer: int,
)
    requires
        0 <= fewer <= events.len(),
    ensures
        strikes(events.take(fewer), blocks, ball, entity) <= strikes(events, blocks, ball, entity),
    decreases events.len(),
{
    if fewer == events.len() {
        assert(events.take(fewer) =~= events);
    } else {
        strikes_grow_with_the_events(events.drop_last(), blocks, ball, entity, fewer);
        assert(events.drop_last().take(fewer) =~= events.take(fewer));
    }
}

/// Tick after tick counts like one long tick: the hits of `later`, counted
/// on the blocks as `earlier` left them, leave the blocks as the hits of
/// both in a row do.
pub proof fn strikes_add_up(
    blocks: Seq<BlockEntity>,
    earlier: Seq<CollisionEvent>,
    later: Seq<CollisionEvent>,
    ball: Seq<Entity>,
)
    ensures
        after_strikes(after_strikes(blocks, earlier, ball), later, ball) == after_strikes(
            blocks,
            earlier + later,
            ball,
        ),
{
    let between = after_strikes(blocks, earlier, ball);
    assert forall|i: int| 0 <= i < blocks.len() implies #[trigger] after_strikes(
        between,
        later,
        ball,
    )[i] == after_strikes(blocks, earlier + later, ball)[i] by {
        strikes_of_both(blocks, between, earlier, later, ball, blocks[i].entity);
    }
    assert(after_strikes(between, later, ball) =~= after_strikes(blocks, earlier + later, ball));
}

/// The strikes of two runs of events in a row are those of the one and
/// those of the other, whatever damage the blocks have when the second run
/// is counted.
proof fn strikes_of_both(
    blocks: Seq<BlockEntity>,
    between: Seq<BlockEntity>,
    earlier: Seq<CollisionEvent>,
    later: Seq<CollisionEvent>,
    ball: Seq<Entity>,
    entity: Entity,
)
    requires
        between.len() == blocks.len(),
        forall|i: int| 0 <= i < blocks.len() ==> (#[trigger] between[i]).entity == blocks[i].entity,
    ensures
        strikes(earlier + later, blocks, ball, entity) == strikes(earlier, blocks, ball, entity)
            + strikes(later, between, ball, entity),
    decreases later.len(),
{
    if later.len() == 0 {
        assert(earlier + later =~= earlier);
    } else {
        strikes_of_both(blocks, between, earlier, later.drop_last(), ball, entity);
        assert((earlier + later).drop_last() =~= earlier + later.drop_last());
        assert((earlier + later).last() == later.last());
        same_names_same_blocks(blocks, between);
    }
}

/// Blocks that bear the same names, one by one, name the same entities.
proof fn same_names_same_blocks(one: Seq<BlockEntity>, other: Seq<BlockEntity>)
    requires
        one.len() == other.len(),
        forall|i: int| 0 <= i < one.len() ==> (#[trigger] other[i]).entity == one[i].entity,
    ensures
        forall|entity: Entity| is_block(one, entity) == is_block(other, entity),
{
    assert forall|entity: Entity| is_block(one, entity) == is_block(other, entity) by {
        if is_block(one, entity) {
            let k = choose|k: int| 0 <= k < one.len() && one[k].entity == entity;
            assert(other[k].entity == entity);
        }
        if is_block(other, entity) {
            let k = choose|k: int| 0 <= k < other.len() && other[k].entity == entity;
            assert(one[k].entity == entity);
        }
    }
}

} // verus!
