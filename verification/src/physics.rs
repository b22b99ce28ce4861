//! What the rules ask of the physics engine.
//!
//! The engine keeps, for every pair of colliders of which at least one is a
//! sensor and which have come close, whether the two touch. The rules look
//! pairs up by the names of the two entities.

use bevy_rapier2d::plugin::RapierContext;
use vstd::prelude::*;

use crate::Entity;

verus! {

/// `bevy_rapier2d::plugin::RapierContext`, the state of the physics engine.
#[verifier::external_type_specification]
#[verifier::external_body]
pub struct ExRapierContext(bevy_rapier2d::plugin::RapierContext);

/// The pairs that the engine holds: for the bits of two entities, whether
/// their colliders touch. A pair that the engine does not hold has no entry.
pub uninterp spec fn intersection_pairs(context: RapierContext) -> Map<(u64, u64), bool>;

/// What the engine answers on the pair of `one` and `other`.
pub open spec fn answer(pairs: Map<(u64, u64), bool>, one: Entity, other: Entity) -> Option<bool> {
    if pairs.contains_key((one.0, other.0)) {
        Some(pairs[(one.0, other.0)])
    } else {
        None
    }
}

/// `RapierContext::intersection_pair` looks up the pair of the colliders of
/// two entities: `None` where an entity has no collider or the engine does
/// not hold the pair, else whether the two touch. The entities are made
/// from their bits by `Entity::from_bits`.
#[verifier::external_body]
pub(crate) fn intersection_pair(
    context: &RapierContext,
    one: Entity,
    other: Entity,
) -> (pair: Option<bool>)
    ensures
        pair == answer(intersection_pairs(*context), one, other),
{
    context.intersection_pair(
        bevy::ecs::entity::Entity::from_bits(one.0),
        bevy::ecs::entity::Entity::from_bits(other.0),
    )
}

} // verus!
