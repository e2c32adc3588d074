//! Outcome events emitted by collision resolution, damage tracking and the
//! spawn director. Each is plain data, consumed at most once per tick by the
//! presentation and spawner collaborators.

use vstd::prelude::*;

use crate::kinds::{Category, EntityType, PowerUpType, Substance};
use crate::world::WorldPoint;

verus! {

/// Request for an explosion effect at `origin`, scaled and voiced by the
/// given size tier and substance.
#[derive(Clone, Copy, Debug, PartialEq, Eq)]
pub struct ExplosionEvent {
    pub origin: WorldPoint,
    pub category: Category,
    pub substance: Substance,
}

/// Score delta earned by a resolved collision outcome; never negative.
#[derive(Clone, Copy, Debug, PartialEq, Eq)]
pub struct ScoreEvent {
    pub score: u16,
}

/// An asteroid of `category` was destroyed at `origin`; the fragment
/// spawner subscribes to this.
#[derive(Clone, Copy, Debug, PartialEq, Eq)]
pub struct AsteroidDestroyedEvent {
    pub category: Category,
    pub origin: WorldPoint,
}

/// Damage dealt to the enemy entity `entity` by a party of kind `by`.
#[derive(Clone, Copy, Debug, PartialEq, Eq)]
pub struct EnemyDamageEvent {
    pub entity: u64,
    pub damage: u16,
    pub by: EntityType,
}

/// Damage dealt to the player's shield.
#[derive(Clone, Copy, Debug, PartialEq, Eq)]
pub struct ShieldDamageEvent {
    pub damage: u16,
}

/// The power-up entity `entity` was collected by the player.
#[derive(Clone, Copy, Debug, PartialEq, Eq)]
pub struct PowerUpCollectedEvent {
    pub entity: u64,
    pub power_up_type: PowerUpType,
}

/// A single outcome emitted during a tick.
#[derive(Clone, Copy, Debug, PartialEq, Eq)]
pub enum Outcome {
    Explosion(ExplosionEvent),
    Score(ScoreEvent),
    AsteroidDestroyed(AsteroidDestroyedEvent),
    EnemyDamage(EnemyDamageEvent),
    ShieldDamage(ShieldDamageEvent),
    PowerUpCollected(PowerUpCollectedEvent),
    /// The player entity was destroyed; drives the game state machine to
    /// its terminal state.
    PlayerDestroyed,
    /// A shield was attached to the player; the embedding moves collision
    /// duty from the player's own collider to the shield.
    ShieldRaised,
    /// The shield's strength reached zero: the shield entity was despawned
    /// and the embedding must restore the player's default collider.
    ShieldDestroyed,
}

} // verus!
