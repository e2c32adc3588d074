use asteroid_core::events::{Outcome, ScoreEvent};
use asteroid_core::game::{AsteroidCount, Game, GameState};
use asteroid_core::kinds::Category;
use asteroid_core::registry::{AsteroidData, EnemyData, EntityKind, ProjectileData};
use asteroid_core::waves::compute_wave_description;
use asteroid_core::world::WorldPoint;

fn origin() -> WorldPoint {
    WorldPoint { x: 0, y: 0 }
}

/// Wave 3: 6 asteroids, round(1.35) = 1 small enemy, a large enemy
/// (3 mod 3 == 0), no boss (3 mod 4 != 0).
#[test]
fn wave_three_composition() {
    let d = compute_wave_description(3, 0);
    assert_eq!(d.asteroid_count, 6);
    assert_eq!(d.small_enemy_count, 1);
    assert_eq!(d.large_enemy_count, 1);
    assert!(!d.boss_present);
    assert!(d.shield_power_up_present);
    assert!(!d.weapon_power_up_present);
}

/// Wave 4: no large enemy (4 mod 3 != 0), boss present (4 mod 4 == 0).
#[test]
fn wave_four_composition() {
    let d = compute_wave_description(4, 0);
    assert_eq!(d.large_enemy_count, 0);
    assert!(d.boss_present);
    assert_eq!(d.asteroid_count, 8);
    assert!(!d.shield_power_up_present);
}

/// The small-enemy count rounds 0.45 per wave to the nearest integer,
/// halves up.
#[test]
fn small_enemy_count_rounds_to_nearest() {
    assert_eq!(compute_wave_description(1, 0).small_enemy_count, 0); // 0.45
    assert_eq!(compute_wave_description(2, 0).small_enemy_count, 1); // 0.90
    assert_eq!(compute_wave_description(3, 0).small_enemy_count, 1); // 1.35
    assert_eq!(compute_wave_description(7, 0).small_enemy_count, 3); // 3.15
    assert_eq!(compute_wave_description(10, 0).small_enemy_count, 5); // 4.50, half up
}

/// The weapon power-up cadence is a tunable period.
#[test]
fn weapon_power_up_follows_the_period() {
    assert!(!compute_wave_description(4, 0).weapon_power_up_present);
    assert!(compute_wave_description(4, 2).weapon_power_up_present);
    assert!(!compute_wave_description(5, 2).weapon_power_up_present);
    assert!(compute_wave_description(6, 3).weapon_power_up_present);
}

/// While playing with no wave-scoped entity left, the wave counter
/// advances by exactly one and the composition is materialized; the
/// freshly spawned asteroids then debounce the next tick.
#[test]
fn wave_advances_once_and_debounces() {
    let mut g = Game::new(0);
    g.start_playing();
    let d = g.start_next_wave().expect("first wave must start");
    assert_eq!(g.wave, 1);
    assert_eq!(d.wave, 1);
    assert_eq!(d.asteroid_count, 2);

    let snap = g.registry.snapshot();
    let asteroids = snap
        .iter()
        .filter(|r| matches!(r.kind, EntityKind::Asteroid(_)))
        .count();
    assert_eq!(asteroids, 2);
    // Wave 1: (1+1) % 2 == 0, so a shield power-up spawned too.
    let power_ups = snap
        .iter()
        .filter(|r| matches!(r.kind, EntityKind::PowerUp(_)))
        .count();
    assert_eq!(power_ups, 1);

    assert!(
        g.start_next_wave().is_none(),
        "the same emptying must not advance the wave twice"
    );
    assert_eq!(g.wave, 1);
}

/// The director only runs while playing.
#[test]
fn wave_does_not_advance_outside_playing() {
    let mut g = Game::new(0);
    assert!(g.start_next_wave().is_none());
    assert_eq!(g.wave, 0);
    g.start_playing();
    g.toggle_pause();
    assert_eq!(g.state, GameState::Paused);
    assert!(g.start_next_wave().is_none());
    assert_eq!(g.wave, 0);
}

/// Entering the starting state resets the wave counter to exactly zero
/// and the score with it; the player survives the reset.
#[test]
fn reset_run_zeroes_counters_and_clears_the_field() {
    let mut g = Game::new(0);
    g.start_playing();
    let player = g.spawn_player(origin()).unwrap();
    g.start_next_wave().unwrap();
    g.score = 123;
    g.reset_run();
    assert_eq!(g.state, GameState::Starting);
    assert_eq!(g.wave, 0);
    assert_eq!(g.score, 0);
    assert!(g.registry.contains(player), "the player is not despawned by a reset");
    let leftovers = g
        .registry
        .snapshot()
        .iter()
        .filter(|r| {
            matches!(
                r.kind,
                EntityKind::Asteroid(_) | EntityKind::Enemy(_) | EntityKind::PowerUp(_)
            )
        })
        .count();
    assert_eq!(leftovers, 0);
}

/// Wave composition is materialized with the documented class constants.
#[test]
fn wave_three_materializes_ufos_with_their_constants() {
    let mut g = Game::new(0);
    g.start_playing();
    g.wave = 2;
    g.start_next_wave().unwrap();
    assert_eq!(g.wave, 3);
    let snap = g.registry.snapshot();
    let small = snap
        .iter()
        .filter(|r| {
            r.kind
                == EntityKind::Enemy(EnemyData {
                    health_points: 15,
                    movement_speed: 50,
                    score_points: 75,
                    contact_damage: 5,
                })
        })
        .count();
    let large = snap
        .iter()
        .filter(|r| {
            r.kind
                == EntityKind::Enemy(EnemyData {
                    health_points: 90,
                    movement_speed: 35,
                    score_points: 150,
                    contact_damage: 5,
                })
        })
        .count();
    let asteroids = snap
        .iter()
        .filter(|r| {
            r.kind
                == EntityKind::Asteroid(AsteroidData {
                    category: Category::L,
                    score: 5,
                })
        })
        .count();
    assert_eq!(asteroids, 6);
    assert_eq!(small, 1);
    assert_eq!(large, 1);
}

/// A whole tick's notifications are processed in delivery order, each
/// pair exactly once.
#[test]
fn batch_of_collisions_processes_each_pair_once() {
    let mut g = Game::new(0);
    g.start_playing();
    let mut pairs: Vec<(u64, u64)> = Vec::new();
    for _ in 0..3 {
        let a = g.registry.spawn(
            EntityKind::Asteroid(AsteroidData {
                category: Category::S,
                score: 7,
            }),
            None,
            origin(),
        );
        let p = g.registry.spawn(
            EntityKind::Projectile(ProjectileData {
                damage: 5,
                life_ms: 0,
                max_life_ms: 3500,
            }),
            None,
            origin(),
        );
        pairs.push((a, p));
    }
    // Repeat the first pair: the second notification finds both sides
    // gone and resolves to nothing.
    pairs.push(pairs[0]);
    let events = g.handle_collisions(&pairs);
    assert_eq!(g.score, 21, "three asteroids at 7 points each, none twice");
    let destroyed = events
        .iter()
        .filter(|e| matches!(e, Outcome::AsteroidDestroyed(_)))
        .count();
    assert_eq!(destroyed, 3);
}

/// The presentation counter tracks spawn and destruction notices and
/// floors at zero.
#[test]
fn asteroid_counter_floors_at_zero() {
    let mut c = AsteroidCount::new();
    c.record_destroyed();
    assert_eq!(c.value, 0, "destruction notices never drive it negative");
    for _ in 0..6 {
        c.record_spawned();
    }
    assert_eq!(c.value, 6);
    assert!(!c.indicators_visible(), "too many asteroids for indicators");
    c.record_destroyed();
    assert_eq!(c.value, 5);
    assert!(c.indicators_visible());
    c.reset();
    assert_eq!(c.value, 0);
}

/// Score only increases across any settled event sequence, and saturates
/// instead of wrapping.
#[test]
fn score_never_decreases_and_saturates() {
    let mut g = Game::new(0);
    g.start_playing();
    let mut last = g.score;
    let batches = vec![
        vec![Outcome::Score(ScoreEvent { score: 5 })],
        vec![
            Outcome::Score(ScoreEvent { score: 0 }),
            Outcome::Score(ScoreEvent { score: 75 }),
        ],
        vec![Outcome::PlayerDestroyed],
    ];
    for batch in batches {
        g.settle_outcomes(&batch);
        assert!(g.score >= last);
        last = g.score;
    }
    assert_eq!(g.score, 80);

    g.score = u64::MAX - 3;
    g.settle_outcomes(&vec![Outcome::Score(ScoreEvent { score: 10 })]);
    assert_eq!(g.score, u64::MAX);
}
