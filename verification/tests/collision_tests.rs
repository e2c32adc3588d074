use asteroid_core::events::Outcome;
use asteroid_core::game::{Game, GameState};
use asteroid_core::kinds::{Category, ImpactInfo, PowerUpType, Substance};
use asteroid_core::registry::{
    AsteroidData, EnemyData, EntityKind, PowerUpData, ProjectileData,
};
use asteroid_core::world::WorldPoint;

fn origin() -> WorldPoint {
    WorldPoint { x: 0, y: 0 }
}

fn playing_game() -> Game {
    let mut g = Game::new(0);
    g.start_playing();
    g
}

fn impact(c: Category, s: Substance) -> ImpactInfo {
    ImpactInfo {
        impact_category: c,
        death_category: c,
        substance: s,
    }
}

fn spawn_large_asteroid(g: &mut Game, pos: WorldPoint) -> u64 {
    g.registry.spawn(
        EntityKind::Asteroid(AsteroidData {
            category: Category::L,
            score: 5,
        }),
        Some(impact(Category::L, Substance::Rock)),
        pos,
    )
}

fn spawn_projectile(g: &mut Game, damage: u16) -> u64 {
    g.registry.spawn(
        EntityKind::Projectile(ProjectileData {
            damage,
            life_ms: 0,
            max_life_ms: 3500,
        }),
        None,
        origin(),
    )
}

/// Round-trip scenario: one large asteroid worth 5 points is destroyed by
/// a projectile; its score is banked, exactly one rock explosion of its
/// tier is requested, and its fragments are two or three medium asteroids.
#[test]
fn projectile_destroys_large_asteroid_and_fragments_follow() {
    let mut g = playing_game();
    let a = spawn_large_asteroid(&mut g, origin());
    let p = spawn_projectile(&mut g, 5);
    let events = g.handle_collision_started(a, p);

    assert!(!g.registry.contains(a), "asteroid must despawn");
    assert!(!g.registry.contains(p), "projectile is spent on first collision");
    assert_eq!(g.score, 5);

    let large_rock_explosions = events
        .iter()
        .filter(|e| match e {
            Outcome::Explosion(x) => {
                x.category == Category::L && x.substance == Substance::Rock
            }
            _ => false,
        })
        .count();
    assert_eq!(large_rock_explosions, 1);

    let destroyed: Vec<_> = events
        .iter()
        .filter_map(|e| match e {
            Outcome::AsteroidDestroyed(d) => Some(*d),
            _ => None,
        })
        .collect();
    assert_eq!(destroyed.len(), 1);
    assert_eq!(destroyed[0].category, Category::L);
    assert_eq!(destroyed[0].origin, origin());

    let fragments = g.spawn_fragments(&destroyed[0]);
    assert!(fragments.len() == 2 || fragments.len() == 3);
    let mediums = g
        .registry
        .snapshot()
        .iter()
        .filter(|r| {
            matches!(
                r.kind,
                EntityKind::Asteroid(AsteroidData {
                    category: Category::M,
                    ..
                })
            )
        })
        .count();
    assert_eq!(mediums, fragments.len());
}

/// Destroying the same entity twice in one tick must not double-count
/// score or re-emit its explosion: the second notification resolves to
/// nothing.
#[test]
fn destruction_is_idempotent() {
    let mut g = playing_game();
    let a = spawn_large_asteroid(&mut g, origin());
    let p1 = spawn_projectile(&mut g, 5);
    let p2 = spawn_projectile(&mut g, 5);
    let first = g.handle_collision_started(a, p1);
    assert!(!first.is_empty());
    assert_eq!(g.score, 5);
    let second = g.handle_collision_started(a, p2);
    assert!(second.is_empty(), "a destroyed entity resolves to nothing");
    assert_eq!(g.score, 5, "score must not be double-counted");
    assert!(g.registry.contains(p2), "the dropped pair despawns nothing");
}

/// A notification referencing a handle absent from the registry produces
/// zero outcome events and changes nothing.
#[test]
fn unknown_party_produces_no_outcome() {
    let mut g = playing_game();
    let a = spawn_large_asteroid(&mut g, origin());
    let events = g.handle_collision_started(a, 424242);
    assert!(events.is_empty());
    assert!(g.registry.contains(a));
    assert_eq!(g.score, 0);
    assert_eq!(g.state, GameState::Playing);
}

/// Asteroid-vs-power-up contact is explicitly ignored on both sides, so
/// debris cannot clip power-ups away.
#[test]
fn asteroid_and_power_up_ignore_each_other() {
    let mut g = playing_game();
    let a = spawn_large_asteroid(&mut g, origin());
    let pu = g.registry.spawn(
        EntityKind::PowerUp(PowerUpData {
            power_up_type: PowerUpType::Shield,
        }),
        Some(impact(Category::S, Substance::Magic)),
        origin(),
    );
    let events = g.handle_collision_started(a, pu);
    assert!(events.is_empty());
    assert!(g.registry.contains(a));
    assert!(g.registry.contains(pu));
}

/// The player collecting a power-up is consumption, not destruction: no
/// player-destroyed signal, no player-death explosion, the power-up
/// despawns and its collection is announced.
#[test]
fn player_collects_power_up_without_dying() {
    let mut g = playing_game();
    let player = g.spawn_player(origin()).unwrap();
    let pu = g.registry.spawn(
        EntityKind::PowerUp(PowerUpData {
            power_up_type: PowerUpType::Shield,
        }),
        Some(impact(Category::S, Substance::Magic)),
        origin(),
    );
    let events = g.handle_collision_started(player, pu);

    assert!(!events.iter().any(|e| matches!(e, Outcome::PlayerDestroyed)));
    assert!(g.registry.contains(player), "the player survives");
    assert!(!g.registry.contains(pu), "the power-up is consumed");
    assert_eq!(g.state, GameState::Playing);
    let collected: Vec<_> = events
        .iter()
        .filter_map(|e| match e {
            Outcome::PowerUpCollected(c) => Some(*c),
            _ => None,
        })
        .collect();
    assert_eq!(collected.len(), 1);
    assert_eq!(collected[0].power_up_type, PowerUpType::Shield);
    // Consuming the shield power-up raised a shield around the player.
    assert!(g.registry.find_shield().is_some());
}

/// The player is destroyed by contact with anything that is not a
/// power-up, ending the run.
#[test]
fn player_dies_on_asteroid_contact() {
    let mut g = playing_game();
    let player = g.spawn_player(origin()).unwrap();
    let a = spawn_large_asteroid(&mut g, origin());
    let events = g.handle_collision_started(player, a);
    assert!(events.iter().any(|e| matches!(e, Outcome::PlayerDestroyed)));
    assert!(!g.registry.contains(player));
    assert_eq!(g.state, GameState::Dead);
    // The asteroid's own rule still banked its score.
    assert_eq!(g.score, 5);
}

/// Enemy damage is the other party's damage value; health crosses zero at
/// most once, banking the enemy's score exactly then.
#[test]
fn enemy_takes_projectile_damage_and_dies_once() {
    let mut g = playing_game();
    let e = g.registry.spawn(
        EntityKind::Enemy(EnemyData {
            health_points: 15,
            movement_speed: 50,
            score_points: 75,
            contact_damage: 5,
        }),
        Some(ImpactInfo {
            impact_category: Category::S,
            death_category: Category::M,
            substance: Substance::Metal,
        }),
        origin(),
    );
    let p1 = spawn_projectile(&mut g, 7);
    g.handle_collision_started(e, p1);
    match g.registry.lookup(e).unwrap().kind {
        EntityKind::Enemy(d) => assert_eq!(d.health_points, 8),
        _ => panic!("enemy expected"),
    }
    assert_eq!(g.score, 0);

    let p2 = spawn_projectile(&mut g, 7);
    g.handle_collision_started(e, p2);
    let p3 = spawn_projectile(&mut g, 7);
    let events = g.handle_collision_started(e, p3);
    assert!(!g.registry.contains(e), "health crossed zero: enemy despawns");
    assert_eq!(g.score, 75, "the kill banks the enemy's score exactly once");
    // The death explosion uses the death tier, not the impact tier.
    assert!(events.iter().any(|ev| matches!(
        ev,
        Outcome::Explosion(x) if x.category == Category::M && x.substance == Substance::Metal
    )));
}

/// Shields block enemy contact from registering as enemy damage, while
/// the shield itself takes the enemy's contact damage.
#[test]
fn shield_blocks_enemy_contact() {
    let mut g = playing_game();
    let player = g.spawn_player(origin()).unwrap();
    // Collect a shield power-up to raise the shield.
    let pu = g.registry.spawn(
        EntityKind::PowerUp(PowerUpData {
            power_up_type: PowerUpType::Shield,
        }),
        Some(impact(Category::S, Substance::Magic)),
        origin(),
    );
    g.handle_collision_started(player, pu);
    let (shield, data) = g.registry.find_shield().unwrap();
    assert_eq!(data.strength, 15);

    let e = g.registry.spawn(
        EntityKind::Enemy(EnemyData {
            health_points: 90,
            movement_speed: 35,
            score_points: 150,
            contact_damage: 5,
        }),
        None,
        origin(),
    );
    let events = g.handle_collision_started(shield, e);
    assert!(
        !events.iter().any(|ev| matches!(ev, Outcome::EnemyDamage(_))),
        "enemy contact with a shield deals the enemy no damage"
    );
    let (_, after) = g.registry.find_shield().unwrap();
    assert_eq!(after.strength, 10, "the shield absorbed the contact damage");
    assert_eq!(after.max_strength, 15);
}
