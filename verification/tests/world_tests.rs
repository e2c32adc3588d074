use asteroid_core::groups::{
    asteroid_collision_groups, default_enemy_collision_groups, enemy_projectile_collision_groups,
    get_player_collision_groups, player_projectile_collision_groups, power_up_collision_groups,
};
use asteroid_core::weapon::WeaponSystem;
use asteroid_core::world::{dist2, wrap_position, WorldPoint};

/// A body past the wraparound margin reappears at the opposite edge; one
/// inside the margin is untouched.
#[test]
fn wraparound_jumps_to_the_opposite_edge() {
    let right = wrap_position(WorldPoint { x: 526, y: 0 });
    assert_eq!(right, WorldPoint { x: -525, y: 0 });
    let left = wrap_position(WorldPoint { x: -526, y: 100 });
    assert_eq!(left, WorldPoint { x: 525, y: 100 });
    let above = wrap_position(WorldPoint { x: 10, y: 999 });
    assert_eq!(above, WorldPoint { x: 10, y: -525 });
    let inside = wrap_position(WorldPoint { x: 525, y: -525 });
    assert_eq!(inside, WorldPoint { x: 525, y: -525 });
}

#[test]
fn squared_distance_is_exact() {
    let a = WorldPoint { x: 3, y: 4 };
    let b = WorldPoint { x: 0, y: 0 };
    assert_eq!(dist2(a, b), 25);
    assert_eq!(dist2(b, a), 25);
    assert_eq!(dist2(a, a), 0);
}

fn interacts(a: &asteroid_core::groups::CollisionGroupSpec, b: &asteroid_core::groups::CollisionGroupSpec) -> bool {
    a.memberships & b.filters != 0 && b.memberships & a.filters != 0
}

/// The group masks let power-ups meet the player and nothing else, and
/// keep friendly fire off the player.
#[test]
fn collision_groups_gate_the_right_pairs() {
    let player = get_player_collision_groups();
    let friendly = player_projectile_collision_groups();
    let power_up = power_up_collision_groups();
    let enemy = default_enemy_collision_groups();
    let enemy_fire = enemy_projectile_collision_groups();
    let asteroid = asteroid_collision_groups();

    assert!(interacts(&power_up, &player));
    assert!(!interacts(&power_up, &asteroid));
    assert!(!interacts(&power_up, &enemy));
    assert!(!interacts(&power_up, &friendly));

    assert!(interacts(&player, &asteroid));
    assert!(interacts(&player, &enemy));
    assert!(interacts(&player, &enemy_fire));
    assert!(!interacts(&player, &friendly));

    assert!(interacts(&friendly, &asteroid));
    assert!(interacts(&friendly, &enemy));
    assert!(interacts(&asteroid, &asteroid));
    assert!(interacts(&enemy, &enemy));
}

/// The player's weapons fire the whole loadout when the trigger is held
/// and the cooldown has elapsed, and rearm afterwards.
#[test]
fn player_shooting_follows_the_cooldown() {
    let mut w = WeaponSystem::new(200, 5);
    w.upgrade();
    w.upgrade();
    assert_eq!(w.level, 3);

    let (fired, cooldown) = w.shooting_tick(true, 0, 16);
    assert_eq!(fired.len(), 3, "every primary weapon fires");
    assert_eq!(cooldown, 200 - 16);

    let (fired, cooldown) = w.shooting_tick(true, cooldown, 16);
    assert!(fired.is_empty(), "still rearming");
    assert_eq!(cooldown, 200 - 32);

    let (fired, cooldown) = w.shooting_tick(false, 0, 16);
    assert!(fired.is_empty(), "no trigger, no shots");
    assert_eq!(cooldown, 0);
}
