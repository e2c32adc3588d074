//! Collision-group configuration handed to the physics collaborator: which
//! membership and filter masks each entity class carries. Physics reports a
//! contact only when each body's membership overlaps the other's filter, so
//! these masks decide which pairs the resolver ever sees.

use vstd::prelude::*;

verus! {

/// Group bits, one per entity class.
pub const PLAYER_GROUP: u32 = 1;

pub const FRIENDLY_PROJECTILES_GROUP: u32 = 2;

pub const POWER_UP_GROUP: u32 = 4;

pub const ASTEROID_GROUP: u32 = 8;

pub const ENEMY_GROUP: u32 = 16;

pub const ENEMY_PROJECTILES_GROUP: u32 = 32;

/// A membership/filter mask pair, as the physics collaborator consumes it.
#[derive(Clone, Copy, Debug, PartialEq, Eq, Structural)]
pub struct CollisionGroupSpec {
    pub memberships: u32,
    pub filters: u32,
}

/// Whether physics reports contacts between bodies carrying these two
/// mask pairs: each side's membership must pass the other's filter.
pub open spec fn spec_groups_interact(a: CollisionGroupSpec, b: CollisionGroupSpec) -> bool {
    a.memberships & b.filters != 0 && b.memberships & a.filters != 0
}

/// The player collides with power-ups, asteroids, enemies and enemy fire.
pub fn get_player_collision_groups() -> (r: CollisionGroupSpec)
    ensures
        r.memberships == PLAYER_GROUP,
        r.filters == POWER_UP_GROUP | ASTEROID_GROUP | ENEMY_GROUP | ENEMY_PROJECTILES_GROUP,
{
    CollisionGroupSpec {
        memberships: PLAYER_GROUP,
        filters: POWER_UP_GROUP | ASTEROID_GROUP | ENEMY_GROUP | ENEMY_PROJECTILES_GROUP,
    }
}

/// The player's projectiles hit asteroids, enemies and enemy fire.
pub fn player_projectile_collision_groups() -> (r: CollisionGroupSpec)
    ensures
        r.memberships == FRIENDLY_PROJECTILES_GROUP,
        r.filters == ASTEROID_GROUP | ENEMY_GROUP | ENEMY_PROJECTILES_GROUP,
{
    CollisionGroupSpec {
        memberships: FRIENDLY_PROJECTILES_GROUP,
        filters: ASTEROID_GROUP | ENEMY_GROUP | ENEMY_PROJECTILES_GROUP,
    }
}

/// Power-ups are visible to the player alone.
pub fn power_up_collision_groups() -> (r: CollisionGroupSpec)
    ensures
        r.memberships == POWER_UP_GROUP,
        r.filters == PLAYER_GROUP,
{
    CollisionGroupSpec { memberships: POWER_UP_GROUP, filters: PLAYER_GROUP }
}

/// Enemies collide with the player, friendly fire, asteroids and each
/// other.
pub fn default_enemy_collision_groups() -> (r: CollisionGroupSpec)
    ensures
        r.memberships == ENEMY_GROUP,
        r.filters == PLAYER_GROUP | FRIENDLY_PROJECTILES_GROUP | ASTEROID_GROUP | ENEMY_GROUP,
{
    CollisionGroupSpec {
        memberships: ENEMY_GROUP,
        filters: PLAYER_GROUP | FRIENDLY_PROJECTILES_GROUP | ASTEROID_GROUP | ENEMY_GROUP,
    }
}

/// Enemy projectiles hit the player, friendly fire and asteroids.
pub fn enemy_projectile_collision_groups() -> (r: CollisionGroupSpec)
    ensures
        r.memberships == ENEMY_PROJECTILES_GROUP,
        r.filters == PLAYER_GROUP | FRIENDLY_PROJECTILES_GROUP | ASTEROID_GROUP,
{
    CollisionGroupSpec {
        memberships: ENEMY_PROJECTILES_GROUP,
        filters: PLAYER_GROUP | FRIENDLY_PROJECTILES_GROUP | ASTEROID_GROUP,
    }
}

/// Asteroids collide with everything except power-ups.
pub fn asteroid_collision_groups() -> (r: CollisionGroupSpec)
    ensures
        r.memberships == ASTEROID_GROUP,
        r.filters == PLAYER_GROUP | FRIENDLY_PROJECTILES_GROUP | ASTEROID_GROUP | ENEMY_GROUP
            | ENEMY_PROJECTILES_GROUP,
{
    CollisionGroupSpec {
        memberships: ASTEROID_GROUP,
        filters: PLAYER_GROUP | FRIENDLY_PROJECTILES_GROUP | ASTEROID_GROUP | ENEMY_GROUP
            | ENEMY_PROJECTILES_GROUP,
    }
}

/// Power-ups physically meet the player and nothing else: the masks keep
/// asteroid debris off them before the resolver's no-op rule is even
/// reached.
pub proof fn lemma_power_ups_touch_only_the_player()
    ensures
        spec_groups_interact(
            CollisionGroupSpec { memberships: POWER_UP_GROUP, filters: PLAYER_GROUP },
            CollisionGroupSpec {
                memberships: PLAYER_GROUP,
                filters: POWER_UP_GROUP | ASTEROID_GROUP | ENEMY_GROUP | ENEMY_PROJECTILES_GROUP,
            },
        ),
        !spec_groups_interact(
            CollisionGroupSpec { memberships: POWER_UP_GROUP, filters: PLAYER_GROUP },
            CollisionGroupSpec {
                memberships: ASTEROID_GROUP,
                filters: PLAYER_GROUP | FRIENDLY_PROJECTILES_GROUP | ASTEROID_GROUP | ENEMY_GROUP
                    | ENEMY_PROJECTILES_GROUP,
            },
        ),
        !spec_groups_interact(
            CollisionGroupSpec { memberships: POWER_UP_GROUP, filters: PLAYER_GROUP },
            CollisionGroupSpec {
                memberships: ENEMY_GROUP,
                filters: PLAYER_GROUP | FRIENDLY_PROJECTILES_GROUP | ASTEROID_GROUP | ENEMY_GROUP,
            },
        ),
{
    assert(4u32 & (4u32 | 8u32 | 16u32 | 32u32) != 0) by (bit_vector);
    assert(1u32 & 1u32 != 0) by (bit_vector);
    assert(4u32 & (1u32 | 2u32 | 8u32 | 16u32 | 32u32) == 0) by (bit_vector);
    assert(4u32 & (1u32 | 2u32 | 8u32 | 16u32) == 0) by (bit_vector);
}

} // verus!
