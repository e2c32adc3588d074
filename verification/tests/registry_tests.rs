use asteroid_core::kinds::{Category, ImpactInfo, PowerUpType, Substance};
use asteroid_core::registry::{
    AsteroidData, EnemyData, EntityKind, PowerUpData, ProjectileData, Registry,
};
use asteroid_core::world::WorldPoint;

fn origin() -> WorldPoint {
    WorldPoint { x: 0, y: 0 }
}

fn rock_impact(c: Category) -> ImpactInfo {
    ImpactInfo {
        impact_category: c,
        death_category: c,
        substance: Substance::Rock,
    }
}

#[test]
fn spawn_then_lookup_returns_the_record() {
    let mut reg = Registry::new();
    let h = reg.spawn(
        EntityKind::Asteroid(AsteroidData {
            category: Category::L,
            score: 5,
        }),
        Some(rock_impact(Category::L)),
        WorldPoint { x: 10, y: -20 },
    );
    let rec = reg.lookup(h).expect("spawned entity must be live");
    assert_eq!(rec.handle, h);
    assert_eq!(
        rec.kind,
        EntityKind::Asteroid(AsteroidData {
            category: Category::L,
            score: 5,
        })
    );
    assert_eq!(rec.pos, WorldPoint { x: 10, y: -20 });
    assert_eq!(reg.len(), 1);
}

#[test]
fn despawn_removes_only_the_target() {
    let mut reg = Registry::new();
    let a = reg.spawn(
        EntityKind::Asteroid(AsteroidData {
            category: Category::M,
            score: 6,
        }),
        Some(rock_impact(Category::M)),
        origin(),
    );
    let b = reg.spawn(EntityKind::Player, None, origin());
    reg.despawn(a);
    assert!(reg.lookup(a).is_none());
    assert!(reg.lookup(b).is_some());
    assert_eq!(reg.len(), 1);
}

#[test]
fn despawn_of_unknown_handle_is_a_noop() {
    let mut reg = Registry::new();
    let a = reg.spawn(EntityKind::Player, None, origin());
    reg.despawn(9999);
    assert!(reg.contains(a));
    assert_eq!(reg.len(), 1);
}

#[test]
fn handles_are_never_reused() {
    let mut reg = Registry::new();
    let a = reg.spawn(EntityKind::Player, None, origin());
    reg.despawn(a);
    let b = reg.spawn(
        EntityKind::PowerUp(PowerUpData {
            power_up_type: PowerUpType::Shield,
        }),
        None,
        origin(),
    );
    assert_ne!(a, b);
    assert!(b > a);
}

#[test]
fn update_position_keeps_payload() {
    let mut reg = Registry::new();
    let h = reg.spawn(
        EntityKind::Enemy(EnemyData {
            health_points: 15,
            movement_speed: 50,
            score_points: 75,
            contact_damage: 5,
        }),
        None,
        origin(),
    );
    reg.update_position(h, WorldPoint { x: 3, y: 4 });
    let rec = reg.lookup(h).unwrap();
    assert_eq!(rec.pos, WorldPoint { x: 3, y: 4 });
    assert_eq!(
        rec.kind,
        EntityKind::Enemy(EnemyData {
            health_points: 15,
            movement_speed: 50,
            score_points: 75,
            contact_damage: 5,
        })
    );
}

#[test]
fn clear_wave_scoped_keeps_player_projectiles_and_power_ups() {
    let mut reg = Registry::new();
    let asteroid = reg.spawn(
        EntityKind::Asteroid(AsteroidData {
            category: Category::S,
            score: 7,
        }),
        None,
        origin(),
    );
    let enemy = reg.spawn(
        EntityKind::Enemy(EnemyData {
            health_points: 90,
            movement_speed: 35,
            score_points: 150,
            contact_damage: 5,
        }),
        None,
        origin(),
    );
    let player = reg.spawn(EntityKind::Player, None, origin());
    let projectile = reg.spawn(
        EntityKind::Projectile(ProjectileData {
            damage: 5,
            life_ms: 0,
            max_life_ms: 3500,
        }),
        None,
        origin(),
    );
    let power_up = reg.spawn(
        EntityKind::PowerUp(PowerUpData {
            power_up_type: PowerUpType::Weapon,
        }),
        None,
        origin(),
    );
    reg.clear_wave_scoped();
    assert!(!reg.contains(asteroid));
    assert!(!reg.contains(enemy));
    assert!(reg.contains(player));
    assert!(reg.contains(projectile));
    assert!(reg.contains(power_up));
}

#[test]
fn projectile_expires_the_instant_life_exceeds_max() {
    let mut reg = Registry::new();
    let p = reg.spawn(
        EntityKind::Projectile(ProjectileData {
            damage: 5,
            life_ms: 0,
            max_life_ms: 100,
        }),
        None,
        origin(),
    );
    reg.tick_projectiles(100);
    // life == max: still alive.
    let rec = reg.lookup(p).expect("projectile at its limit is still live");
    assert_eq!(
        rec.kind,
        EntityKind::Projectile(ProjectileData {
            damage: 5,
            life_ms: 100,
            max_life_ms: 100,
        })
    );
    reg.tick_projectiles(1);
    assert!(!reg.contains(p));
}

#[test]
fn projectile_tick_leaves_other_entities_alone() {
    let mut reg = Registry::new();
    let player = reg.spawn(EntityKind::Player, None, origin());
    let p = reg.spawn(
        EntityKind::Projectile(ProjectileData {
            damage: 5,
            life_ms: 3000,
            max_life_ms: 3500,
        }),
        None,
        origin(),
    );
    reg.tick_projectiles(1000);
    assert!(reg.contains(player));
    assert!(!reg.contains(p));
}

#[test]
fn find_player_and_shield_report_absence() {
    let mut reg = Registry::new();
    assert!(reg.find_player().is_none());
    assert!(reg.find_shield().is_none());
    let h = reg.spawn(EntityKind::Player, None, WorldPoint { x: 5, y: 6 });
    let (ph, ppos) = reg.find_player().unwrap();
    assert_eq!(ph, h);
    assert_eq!(ppos, WorldPoint { x: 5, y: 6 });
}

#[test]
fn snapshot_lists_every_live_record() {
    let mut reg = Registry::new();
    let a = reg.spawn(EntityKind::Player, None, origin());
    let b = reg.spawn(
        EntityKind::Asteroid(AsteroidData {
            category: Category::L,
            score: 5,
        }),
        None,
        origin(),
    );
    let snap = reg.snapshot();
    assert_eq!(snap.len(), 2);
    assert!(snap.iter().any(|r| r.handle == a));
    assert!(snap.iter().any(|r| r.handle == b));
}
