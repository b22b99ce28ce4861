use bevy::prelude::{
    App, AssetPlugin, ImagePlugin, Transform, TransformBundle, TransformPlugin, WindowPlugin,
};
use bevy::render::settings::WgpuSettings;
use bevy::render::RenderPlugin;
use bevy::scene::ScenePlugin;
use bevy::time::TimePlugin;
use bevy_rapier2d::prelude::{
    Collider, GravityScale, NoUserData, RapierContext, RapierPhysicsPlugin, RigidBody, Sensor,
};
use block_breaker::blocks::{Block, BlockEntity};
use block_breaker::board::Point;
use block_breaker::collisions::{BallHit, CollisionEvent};
use block_breaker::custom_commands::{Command, SpawnBall, SpawnPowerup};
use block_breaker::input::Input;
use block_breaker::powerups::{PaddleError, PowerupEntity};
use block_breaker::simulation::{tick, Frame, Reactions, Tick};
use block_breaker::{Damage, Entity, GameState, Powerup};

const BALL: Entity = Entity(1 << 40);
const AREA: Entity = Entity(3 << 40);

/// A physics world without a window: a body shaped like the paddle in the
/// middle, a sensor shaped like a powerup on it, and another far from it.
/// Answers with the world and the names of the three.
fn physics() -> (App, Entity, Entity, Entity) {
    let mut app = App::new();
    app.add_plugin(WindowPlugin::default())
        .add_plugin(AssetPlugin::default())
        .add_plugin(ScenePlugin::default())
        .add_plugin(RenderPlugin {
            wgpu_settings: WgpuSettings { backends: None, ..Default::default() },
        })
        .add_plugin(ImagePlugin::default())
        .add_plugin(TransformPlugin)
        .add_plugin(TimePlugin)
        .add_plugin(RapierPhysicsPlugin::<NoUserData>::default());
    let paddle = app
        .world
        .spawn((
            TransformBundle::from(Transform::from_xyz(446.0, 144.0, 0.0)),
            RigidBody::Dynamic,
            GravityScale(0.0),
            Collider::cuboid(100.0, 10.0),
        ))
        .id();
    let near = app
        .world
        .spawn((
            TransformBundle::from(Transform::from_xyz(446.0, 150.0, 0.0)),
            Sensor,
            Collider::capsule_y(20.0, 10.0),
        ))
        .id();
    let far = app
        .world
        .spawn((
            TransformBundle::from(Transform::from_xyz(5.0, 450.0, 0.0)),
            Sensor,
            Collider::capsule_y(20.0, 10.0),
        ))
        .id();
    for _ in 0..3 {
        app.update();
    }
    (app, Entity(paddle.to_bits()), Entity(near.to_bits()), Entity(far.to_bits()))
}

fn frame(paddle: Entity, near: Entity, far: Entity) -> Frame {
    Frame {
        input: Input { left: false, right: true },
        events: vec![
            CollisionEvent::Started(BALL, paddle),
            CollisionEvent::Stopped(BALL, Entity(100)),
            CollisionEvent::Stopped(Entity(101), BALL),
            CollisionEvent::Started(AREA, BALL),
        ],
        balls: vec![BALL],
        paddles: vec![paddle],
        despawn_areas: vec![AREA],
        blocks: vec![
            BlockEntity { entity: Entity(100), position: Point { x: 82, y: 2010 }, damage: Damage(4), block: Block::Silver },
            BlockEntity { entity: Entity(101), position: Point { x: 244, y: 2010 }, damage: Damage(9), block: Block::Gold },
            BlockEntity { entity: Entity(102), position: Point { x: 406, y: 2010 }, damage: Damage(0), block: Block::Red },
        ],
        powerups: vec![
            PowerupEntity { entity: near, position: Point { x: 892, y: 300 }, powerup: Powerup::TripleBall },
            PowerupEntity { entity: far, position: Point { x: 10, y: 900 }, powerup: Powerup::Life },
        ],
    }
}

#[test]
fn out_of_play_a_tick_changes_nothing() {
    let (app, paddle, near, far) = physics();
    let context = app.world.resource::<RapierContext>();
    for state in [GameState::Menu, GameState::Paused] {
        let mut now = frame(paddle, near, far);
        assert_eq!(tick(state, &mut now, context), Tick::Suspended);
        assert_eq!(now, frame(paddle, near, far));
    }
}

#[test]
fn a_tick_without_its_one_paddle_is_given_up() {
    let (app, paddle, near, far) = physics();
    let context = app.world.resource::<RapierContext>();
    let mut now = Frame { paddles: vec![], ..frame(paddle, near, far) };
    assert_eq!(tick(GameState::Playing, &mut now, context), Tick::Aborted(PaddleError::NoPaddle));
    assert_eq!(now, Frame { paddles: vec![], ..frame(paddle, near, far) });
    let mut now = Frame { paddles: vec![paddle, paddle], ..frame(paddle, near, far) };
    assert_eq!(
        tick(GameState::Playing, &mut now, context),
        Tick::Aborted(PaddleError::ManyPaddles)
    );
    assert_eq!(now, Frame { paddles: vec![paddle, paddle], ..frame(paddle, near, far) });
}

#[test]
fn a_tick_in_play_runs_every_reaction() {
    let (app, paddle, near, far) = physics();
    let context = app.world.resource::<RapierContext>();
    let mut now = frame(paddle, near, far);
    let outcome = tick(GameState::Playing, &mut now, context);
    let reactions = match outcome {
        Tick::Ran(reactions) => reactions,
        other => panic!("the tick did not run: {:?}", other),
    };
    assert_eq!(reactions.step, Some(5));
    // the ball met the paddle, and then the despawn area
    assert_eq!(
        reactions.hits,
        vec![
            BallHit { ball: BALL, paddle: Some(paddle) },
            BallHit { ball: BALL, paddle: None },
        ]
    );
    // the blocks took their hits, the powerups fell, the rest is as it was
    let before = frame(paddle, near, far);
    assert_eq!(now.blocks[0], BlockEntity { damage: Damage(5), ..before.blocks[0] });
    assert_eq!(now.blocks[1], BlockEntity { damage: Damage(10), ..before.blocks[1] });
    assert_eq!(now.blocks[2], before.blocks[2]);
    assert_eq!(now.powerups[0], PowerupEntity { position: Point { x: 892, y: 298 }, ..before.powerups[0] });
    assert_eq!(now.powerups[1], PowerupEntity { position: Point { x: 10, y: 898 }, ..before.powerups[1] });
    assert_eq!(now.input, before.input);
    assert_eq!(now.events, before.events);
    assert_eq!(now.balls, before.balls);
    assert_eq!(now.paddles, before.paddles);
    assert_eq!(now.despawn_areas, before.despawn_areas);
    // the silver block reached its threshold in this very tick; it may drop
    // a powerup
    let dropped = Command::SpawnPowerup(SpawnPowerup {
        position: Point { x: 82, y: 2010 },
        powerup: Powerup::TripleBall,
    });
    let mut expected = vec![Command::Despawn(BALL), Command::Despawn(Entity(100))];
    if reactions.commands.contains(&dropped) {
        expected.push(dropped);
    }
    // the powerup on the paddle is caught, the one far from it is not
    expected.push(Command::Despawn(near));
    expected.push(Command::SpawnBall(SpawnBall { source: BALL, x_diff: 10 }));
    expected.push(Command::SpawnBall(SpawnBall { source: BALL, x_diff: -10 }));
    assert_eq!(reactions.commands, expected);
}

#[test]
fn a_quiet_tick_asks_for_nothing() {
    let context = RapierContext::default();
    let mut now = Frame {
        input: Input { left: false, right: false },
        events: vec![],
        balls: vec![BALL],
        paddles: vec![Entity(2)],
        despawn_areas: vec![AREA],
        blocks: vec![],
        powerups: vec![],
    };
    assert_eq!(
        tick(GameState::Playing, &mut now, &context),
        Tick::Ran(Reactions { step: None, hits: vec![], commands: vec![] })
    );
}

#[test]
fn a_powerup_unknown_to_the_engine_falls_on() {
    let context = RapierContext::default();
    let mut now = Frame {
        input: Input { left: false, right: false },
        events: vec![],
        balls: vec![BALL],
        paddles: vec![Entity(2)],
        despawn_areas: vec![AREA],
        blocks: vec![],
        powerups: vec![PowerupEntity { entity: Entity(9), position: Point { x: 0, y: 0 }, powerup: Powerup::TripleBall }],
    };
    for ticks in 1..=5 {
        assert_eq!(
            tick(GameState::Playing, &mut now, &context),
            Tick::Ran(Reactions { step: None, hits: vec![], commands: vec![] })
        );
        assert_eq!(now.powerups[0].position, Point { x: 0, y: -2 * ticks });
    }
}

#[test]
fn a_gold_block_outlasts_any_number_of_ticks() {
    let context = RapierContext::default();
    let mut now = Frame {
        input: Input { left: true, right: true },
        events: vec![CollisionEvent::Stopped(BALL, Entity(101))],
        balls: vec![BALL],
        paddles: vec![Entity(2)],
        despawn_areas: vec![AREA],
        blocks: vec![BlockEntity { entity: Entity(101), position: Point { x: 0, y: 0 }, damage: Damage(0), block: Block::Gold }],
        powerups: vec![],
    };
    for ticks in 1..=300u32 {
        assert_eq!(
            tick(GameState::Playing, &mut now, &context),
            Tick::Ran(Reactions { step: Some(-5), hits: vec![], commands: vec![] })
        );
        assert_eq!(u32::from(now.blocks[0].damage.0), ticks.min(255));
    }
}
