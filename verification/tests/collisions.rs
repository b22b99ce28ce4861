use block_breaker::blocks::{Block, BlockEntity};
use block_breaker::board::Point;
use block_breaker::collisions::{
    ball_collisions, despawn_area_collisions, track_damage, BallHit, CollisionEvent,
};
use block_breaker::custom_commands::Command;
use block_breaker::{Damage, Entity};

const BALL: Entity = Entity(1);
const OTHER_BALL: Entity = Entity(2);
const PADDLE: Entity = Entity(10);
const AREA: Entity = Entity(20);
const WALL: Entity = Entity(30);

fn block(entity: u64, tier: Block, damage: u8) -> BlockEntity {
    BlockEntity {
        entity: Entity(entity),
        position: Point { x: 7, y: 9 },
        damage: Damage(damage),
        block: tier,
    }
}

#[test]
fn ball_entering_the_despawn_area_is_despawned() {
    let events = vec![CollisionEvent::Started(BALL, AREA)];
    assert_eq!(
        despawn_area_collisions(&events, &vec![AREA], &vec![BALL, OTHER_BALL]),
        vec![Command::Despawn(BALL)]
    );
}

#[test]
fn ball_is_despawned_whichever_side_of_the_event_it_is_on() {
    let events = vec![CollisionEvent::Started(AREA, OTHER_BALL)];
    assert_eq!(
        despawn_area_collisions(&events, &vec![AREA], &vec![BALL, OTHER_BALL]),
        vec![Command::Despawn(OTHER_BALL)]
    );
}

#[test]
fn leaving_the_despawn_area_despawns_nothing() {
    let events = vec![CollisionEvent::Stopped(BALL, AREA), CollisionEvent::Stopped(AREA, BALL)];
    assert_eq!(despawn_area_collisions(&events, &vec![AREA], &vec![BALL]), vec![]);
}

#[test]
fn only_balls_are_lost_in_the_despawn_area() {
    let events = vec![
        CollisionEvent::Started(PADDLE, AREA),
        CollisionEvent::Started(AREA, WALL),
        CollisionEvent::Started(BALL, WALL),
        CollisionEvent::Started(BALL, OTHER_BALL),
        CollisionEvent::Started(AREA, AREA),
    ];
    assert_eq!(despawn_area_collisions(&events, &vec![AREA], &vec![BALL, OTHER_BALL]), vec![]);
}

#[test]
fn every_event_of_the_tick_is_looked_at_in_order() {
    let events = vec![
        CollisionEvent::Started(OTHER_BALL, AREA),
        CollisionEvent::Started(BALL, PADDLE),
        CollisionEvent::Started(AREA, BALL),
        CollisionEvent::Started(OTHER_BALL, AREA),
    ];
    assert_eq!(
        despawn_area_collisions(&events, &vec![AREA], &vec![BALL, OTHER_BALL]),
        vec![
            Command::Despawn(OTHER_BALL),
            Command::Despawn(BALL),
            Command::Despawn(OTHER_BALL),
        ]
    );
}

#[test]
fn no_events_despawn_nothing() {
    assert_eq!(despawn_area_collisions(&vec![], &vec![AREA], &vec![BALL]), vec![]);
    assert_eq!(despawn_area_collisions(&vec![CollisionEvent::Started(BALL, AREA)], &vec![], &vec![BALL]), vec![]);
    assert_eq!(despawn_area_collisions(&vec![CollisionEvent::Started(BALL, AREA)], &vec![AREA], &vec![]), vec![]);
}

#[test]
fn ball_on_the_paddle_is_steered() {
    let events = vec![CollisionEvent::Started(BALL, PADDLE)];
    assert_eq!(
        ball_collisions(&events, &vec![BALL], &vec![PADDLE]),
        vec![BallHit { ball: BALL, paddle: Some(PADDLE) }]
    );
    let events = vec![CollisionEvent::Started(PADDLE, BALL)];
    assert_eq!(
        ball_collisions(&events, &vec![BALL], &vec![PADDLE]),
        vec![BallHit { ball: BALL, paddle: Some(PADDLE) }]
    );
}

#[test]
fn ball_on_anything_else_is_hit_but_not_steered() {
    let events = vec![
        CollisionEvent::Started(BALL, WALL),
        CollisionEvent::Started(Entity(40), OTHER_BALL),
    ];
    assert_eq!(
        ball_collisions(&events, &vec![BALL, OTHER_BALL], &vec![PADDLE]),
        vec![
            BallHit { ball: BALL, paddle: None },
            BallHit { ball: OTHER_BALL, paddle: None },
        ]
    );
}

#[test]
fn of_two_balls_that_meet_the_first_is_hit() {
    let events = vec![CollisionEvent::Started(OTHER_BALL, BALL)];
    assert_eq!(
        ball_collisions(&events, &vec![BALL, OTHER_BALL], &vec![PADDLE]),
        vec![BallHit { ball: OTHER_BALL, paddle: None }]
    );
}

#[test]
fn events_without_a_ball_and_ended_contacts_hit_nothing() {
    let events = vec![
        CollisionEvent::Started(PADDLE, WALL),
        CollisionEvent::Stopped(BALL, PADDLE),
        CollisionEvent::Stopped(BALL, WALL),
    ];
    assert_eq!(ball_collisions(&events, &vec![BALL], &vec![PADDLE]), vec![]);
}

#[test]
fn every_hit_of_the_tick_is_reported() {
    let events = vec![
        CollisionEvent::Started(BALL, PADDLE),
        CollisionEvent::Started(BALL, WALL),
        CollisionEvent::Started(PADDLE, OTHER_BALL),
        CollisionEvent::Started(BALL, PADDLE),
    ];
    assert_eq!(
        ball_collisions(&events, &vec![BALL, OTHER_BALL], &vec![PADDLE]),
        vec![
            BallHit { ball: BALL, paddle: Some(PADDLE) },
            BallHit { ball: BALL, paddle: None },
            BallHit { ball: OTHER_BALL, paddle: Some(PADDLE) },
            BallHit { ball: BALL, paddle: Some(PADDLE) },
        ]
    );
}

#[test]
fn block_is_damaged_when_the_ball_leaves_it() {
    let mut blocks = vec![block(100, Block::Red, 0), block(101, Block::Silver, 3)];
    let events = vec![CollisionEvent::Stopped(BALL, Entity(101))];
    track_damage(&events, &mut blocks, &vec![BALL]);
    assert_eq!(blocks, vec![block(100, Block::Red, 0), block(101, Block::Silver, 4)]);
    let events = vec![CollisionEvent::Stopped(Entity(100), BALL)];
    track_damage(&events, &mut blocks, &vec![BALL]);
    assert_eq!(blocks, vec![block(100, Block::Red, 1), block(101, Block::Silver, 4)]);
}

#[test]
fn block_is_not_damaged_when_the_ball_arrives() {
    let mut blocks = vec![block(100, Block::Red, 0)];
    let events = vec![
        CollisionEvent::Started(BALL, Entity(100)),
        CollisionEvent::Started(Entity(100), BALL),
    ];
    track_damage(&events, &mut blocks, &vec![BALL]);
    assert_eq!(blocks, vec![block(100, Block::Red, 0)]);
}

#[test]
fn only_a_ball_damages_a_block() {
    let mut blocks = vec![block(100, Block::Red, 0), block(101, Block::Red, 0)];
    let events = vec![
        CollisionEvent::Stopped(PADDLE, Entity(100)),
        CollisionEvent::Stopped(Entity(100), Entity(101)),
        CollisionEvent::Stopped(BALL, PADDLE),
        CollisionEvent::Stopped(BALL, OTHER_BALL),
    ];
    track_damage(&events, &mut blocks, &vec![BALL, OTHER_BALL]);
    assert_eq!(blocks, vec![block(100, Block::Red, 0), block(101, Block::Red, 0)]);
}

#[test]
fn every_hit_of_the_tick_counts() {
    let mut blocks = vec![
        block(100, Block::Gold, 7),
        block(101, Block::Silver, 0),
        block(102, Block::Blue, 0),
    ];
    let events = vec![
        CollisionEvent::Stopped(BALL, Entity(101)),
        CollisionEvent::Stopped(Entity(100), OTHER_BALL),
        CollisionEvent::Stopped(OTHER_BALL, Entity(101)),
        CollisionEvent::Started(BALL, Entity(102)),
        CollisionEvent::Stopped(BALL, Entity(101)),
    ];
    track_damage(&events, &mut blocks, &vec![BALL, OTHER_BALL]);
    assert_eq!(
        blocks,
        vec![
            block(100, Block::Gold, 8),
            block(101, Block::Silver, 3),
            block(102, Block::Blue, 0),
        ]
    );
}

#[test]
fn damage_never_goes_down() {
    let mut blocks = vec![block(100, Block::Gold, 250), block(101, Block::White, 0)];
    let events = vec![
        CollisionEvent::Stopped(BALL, Entity(100)),
        CollisionEvent::Stopped(BALL, Entity(101)),
    ];
    let mut last = blocks.clone();
    for _ in 0..20 {
        track_damage(&events, &mut blocks, &vec![BALL]);
        for (now, before) in blocks.iter().zip(last.iter()) {
            assert!(now.damage.0 >= before.damage.0);
            assert_eq!(now.entity, before.entity);
            assert_eq!(now.position, before.position);
            assert_eq!(now.block, before.block);
        }
        last = blocks.clone();
    }
    assert_eq!(blocks, vec![block(100, Block::Gold, 255), block(101, Block::White, 20)]);
}

#[test]
fn damage_stays_at_two_hundred_and_fifty_five() {
    let mut blocks = vec![block(100, Block::Gold, 254)];
    let events = vec![
        CollisionEvent::Stopped(BALL, Entity(100)),
        CollisionEvent::Stopped(BALL, Entity(100)),
        CollisionEvent::Stopped(BALL, Entity(100)),
    ];
    track_damage(&events, &mut blocks, &vec![BALL]);
    assert_eq!(blocks, vec![block(100, Block::Gold, 255)]);
}

#[test]
fn an_event_damages_one_block_only() {
    // both sides are balls and blocks at once: the second entity is the
    // one that is damaged
    let mut blocks = vec![block(1, Block::Red, 0), block(2, Block::Red, 0)];
    let events = vec![CollisionEvent::Stopped(BALL, OTHER_BALL)];
    track_damage(&events, &mut blocks, &vec![BALL, OTHER_BALL]);
    assert_eq!(blocks, vec![block(1, Block::Red, 0), block(2, Block::Red, 1)]);
}

#[test]
fn entity_is_found_among_entities() {
    assert!(BALL.among(&vec![OTHER_BALL, BALL]));
    assert!(!BALL.among(&vec![OTHER_BALL, PADDLE]));
    assert!(!BALL.among(&vec![]));
}

#[test]
fn paddle_steers_seven_and_a_half_times_the_offset() {
    assert_eq!(block_breaker::collisions::PADDLE_STEERING_HALVES, 15);
}

#[test]
fn tick_after_tick_counts_like_one_long_tick() {
    let earlier = vec![
        CollisionEvent::Stopped(BALL, Entity(100)),
        CollisionEvent::Stopped(Entity(101), OTHER_BALL),
        CollisionEvent::Started(BALL, Entity(100)),
    ];
    let later = vec![
        CollisionEvent::Stopped(BALL, Entity(100)),
        CollisionEvent::Stopped(BALL, Entity(102)),
        CollisionEvent::Stopped(BALL, PADDLE),
    ];
    let start = vec![
        block(100, Block::Silver, 253),
        block(101, Block::Red, 0),
        block(102, Block::Gold, 7),
    ];
    let balls = vec![BALL, OTHER_BALL];
    let mut in_two = start.clone();
    track_damage(&earlier, &mut in_two, &balls);
    track_damage(&later, &mut in_two, &balls);
    let mut in_one = start.clone();
    let both: Vec<CollisionEvent> = earlier.iter().chain(later.iter()).copied().collect();
    track_damage(&both, &mut in_one, &balls);
    assert_eq!(in_two, in_one);
    assert_eq!(
        in_one,
        vec![block(100, Block::Silver, 255), block(101, Block::Red, 1), block(102, Block::Gold, 8)]
    );
}

#[test]
fn damage_grows_as_the_events_come_in() {
    let events = vec![
        CollisionEvent::Stopped(BALL, Entity(100)),
        CollisionEvent::Started(BALL, Entity(100)),
        CollisionEvent::Stopped(Entity(100), BALL),
        CollisionEvent::Stopped(BALL, Entity(101)),
        CollisionEvent::Stopped(BALL, Entity(100)),
    ];
    let mut last = 0;
    for fewer in 0..=events.len() {
        let mut blocks = vec![block(100, Block::Silver, 0)];
        track_damage(&events[..fewer].to_vec(), &mut blocks, &vec![BALL]);
        assert!(blocks[0].damage.0 >= last);
        last = blocks[0].damage.0;
    }
    assert_eq!(last, 3);
}
