use bevy::prelude::{
    App, AssetPlugin, Entity, ImagePlugin, Transform, TransformBundle, TransformPlugin,
    WindowPlugin,
};
use bevy::render::settings::WgpuSettings;
use bevy::render::RenderPlugin;
use bevy::scene::ScenePlugin;
use bevy::time::TimePlugin;
use bevy_rapier2d::prelude::{
    Collider, GravityScale, NoUserData, RapierContext, RapierPhysicsPlugin, RigidBody, Sensor,
};
use block_breaker::board::Point;
use block_breaker::custom_commands::Command;
use block_breaker::powerups::{
    powerup_collisions, powerup_contacts, PaddleError, Pickups, PowerupEntity,
};
use block_breaker::{Powerup, SpawnThreeBallsEvent};

/// A physics world without a window: a body shaped like the paddle in the
/// middle, and a sensor shaped like a powerup at each of `places`.
fn physics(places: &[(f32, f32)]) -> (App, block_breaker::Entity, Vec<PowerupEntity>) {
    let mut app = App::new();
    app.add_plugin(WindowPlugin::default())
        .add_plugin(AssetPlugin::default())
        .add_plugin(ScenePlugin::default())
        .add_plugin(RenderPlugin {
            wgpu_settings: WgpuSettings { backends: None, ..Default::default() },
        })
        .add_plugin(ImagePlugin::default())
        .add_plugin(TransformPlugin)
        .add_plugin(TimePlugin)
        .add_plugin(RapierPhysicsPlugin::<NoUserData>::default());
    let paddle = app
        .world
        .spawn((
            TransformBundle::from(Transform::from_xyz(0.0, 0.0, 0.0)),
            RigidBody::Dynamic,
            GravityScale(0.0),
            Collider::cuboid(100.0, 10.0),
        ))
        .id();
    let mut powerups = Vec::new();
    for (x, y) in places {
        let powerup = app
            .world
            .spawn((
                TransformBundle::from(Transform::from_xyz(*x, *y, 0.0)),
                Sensor,
                Collider::capsule_y(20.0, 10.0),
            ))
            .id();
        powerups.push(PowerupEntity {
            entity: block_breaker::Entity(powerup.to_bits()),
            position: Point { x: (2.0 * x) as i64, y: (2.0 * y) as i64 },
            powerup: Powerup::TripleBall,
        });
    }
    for _ in 0..3 {
        app.update();
    }
    (app, block_breaker::Entity(paddle.to_bits()), powerups)
}

#[test]
fn powerup_on_the_paddle_touches_it() {
    let (app, paddle, powerups) = physics(&[(0.0, 5.0)]);
    let context = app.world.resource::<RapierContext>();
    assert_eq!(powerup_contacts(context, &powerups, paddle), vec![powerups[0].entity]);
}

#[test]
fn powerup_far_from_the_paddle_does_not_touch_it() {
    let (app, paddle, powerups) = physics(&[(0.0, 500.0)]);
    let context = app.world.resource::<RapierContext>();
    assert_eq!(powerup_contacts(context, &powerups, paddle), vec![]);
}

#[test]
fn powerup_next_to_the_paddle_does_not_touch_it() {
    // the boxes round the two shapes overlap at the corner of the paddle,
    // the round end of the capsule stays clear of it
    let (app, paddle, powerups) = physics(&[(108.0, 38.0)]);
    let context = app.world.resource::<RapierContext>();
    assert_eq!(
        context.intersection_pair(
            Entity::from_bits(paddle.0),
            Entity::from_bits(powerups[0].entity.0)
        ),
        Some(false)
    );
    assert_eq!(powerup_contacts(context, &powerups, paddle), vec![]);
}

#[test]
fn touching_powerups_are_named_in_the_order_of_the_powerups() {
    let (app, paddle, powerups) =
        physics(&[(-60.0, 0.0), (0.0, 300.0), (60.0, -10.0), (300.0, 0.0), (0.0, 25.0)]);
    let context = app.world.resource::<RapierContext>();
    assert_eq!(
        powerup_contacts(context, &powerups, paddle),
        vec![powerups[0].entity, powerups[2].entity, powerups[4].entity]
    );
}

#[test]
fn powerup_on_the_paddle_is_caught() {
    let (app, paddle, mut powerups) = physics(&[(0.0, 300.0), (0.0, 5.0), (50.0, 0.0)]);
    powerups[2].powerup = Powerup::Gunship;
    let context = app.world.resource::<RapierContext>();
    assert_eq!(
        powerup_collisions(context, &powerups, &vec![paddle]),
        Ok(Pickups {
            commands: vec![
                Command::Despawn(powerups[1].entity),
                Command::Despawn(powerups[2].entity),
            ],
            three_balls: vec![SpawnThreeBallsEvent],
        })
    );
}

#[test]
fn without_its_one_paddle_the_engine_is_not_asked() {
    let (app, paddle, powerups) = physics(&[(0.0, 5.0)]);
    let context = app.world.resource::<RapierContext>();
    assert_eq!(powerup_collisions(context, &powerups, &vec![]), Err(PaddleError::NoPaddle));
    assert_eq!(
        powerup_collisions(context, &powerups, &vec![paddle, paddle]),
        Err(PaddleError::ManyPaddles)
    );
}

#[test]
fn entities_without_colliders_touch_nothing() {
    let (app, paddle, mut powerups) = physics(&[(0.0, 5.0)]);
    let context = app.world.resource::<RapierContext>();
    powerups[0].entity = block_breaker::Entity(u64::MAX);
    assert_eq!(powerup_contacts(context, &powerups, paddle), vec![]);
    let (_, _, others) = physics(&[(0.0, 5.0)]);
    assert_eq!(powerup_contacts(context, &others, block_breaker::Entity(7 << 32)), vec![]);
}
