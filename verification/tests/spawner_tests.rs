use asteroid_core::events::AsteroidDestroyedEvent;
use asteroid_core::game::Game;
use asteroid_core::kinds::Category;
use asteroid_core::registry::{AsteroidData, EntityKind};
use asteroid_core::rng::{random_in_range, random_point_away_from_player, scale_to_range};
use asteroid_core::spawn::{asteroid_attributes, asteroid_attributes_from_draws};
use asteroid_core::world::WorldPoint;

fn origin() -> WorldPoint {
    WorldPoint { x: 0, y: 0 }
}

/// The raw-draw scaling is deterministic and lands in the half-open range.
#[test]
fn scale_to_range_golden_values() {
    assert_eq!(scale_to_range(0, -50, 50), -50);
    assert_eq!(scale_to_range(99, -50, 50), 49);
    assert_eq!(scale_to_range(100, -50, 50), -50);
    assert_eq!(scale_to_range(250, 12, 19), 12 + (250 % 7));
    assert_eq!(scale_to_range(u64::MAX, 0, 7), (u64::MAX % 7) as i64);
}

/// Fresh draws stay inside the requested half-open range.
#[test]
fn random_in_range_respects_bounds() {
    for _ in 0..200 {
        let v = random_in_range(-50, 50);
        assert!((-50..50).contains(&v));
        let w = random_in_range(5, 9);
        assert!((5..9).contains(&w));
    }
}

/// A point accepted by the rejection sampler really is far enough from
/// the player.
#[test]
fn accepted_spawn_points_keep_their_distance() {
    let player = WorldPoint { x: 10, y: -10 };
    for _ in 0..50 {
        let (p, far_enough) = random_point_away_from_player(player, 100);
        let dx = p.x - player.x;
        let dy = p.y - player.y;
        if far_enough {
            assert!(dx * dx + dy * dy >= 100 * 100);
        }
        assert!(p.x.abs() <= 1_000_000 && p.y.abs() <= 1_000_000);
    }
}

/// Asteroid attributes stay within their category's construction ranges,
/// with one radius per polygon side.
#[test]
fn asteroid_attributes_respect_category_ranges() {
    for _ in 0..20 {
        let a = asteroid_attributes(Category::L);
        assert_eq!(a.category, Category::L);
        assert_eq!(a.score, 5);
        assert!((12..19).contains(&a.sides));
        assert_eq!(a.radii.len(), a.sides as usize);
        assert!(a.radii.iter().all(|r| (20..40).contains(r)));
        assert_eq!(a.collider_radius, 20);
        assert_eq!(a.additional_mass_tenths, 300);
        assert!((-50..50).contains(&a.linvel_x));
        assert!((-50..50).contains(&a.linvel_y));
        assert!((-25..25).contains(&a.angvel_tenths));

        let m = asteroid_attributes(Category::M);
        assert_eq!(m.score, 6);
        assert!((7..14).contains(&m.sides));
        assert!(m.radii.iter().all(|r| (10..20).contains(r)));
        assert_eq!(m.collider_radius, 10);
        assert_eq!(m.additional_mass_tenths, 175);

        let s = asteroid_attributes(Category::S);
        assert_eq!(s.score, 7);
        assert!((5..9).contains(&s.sides));
        assert!(s.radii.iter().all(|r| (5..10).contains(r)));
        assert_eq!(s.collider_radius, 5);
        assert_eq!(s.additional_mass_tenths, 80);
    }
}

/// Building attributes from a recorded draw sequence is deterministic:
/// equal sequences give equal shapes, and the draws are consumed in the
/// documented order (side count, radii in index order, velocities).
#[test]
fn attributes_from_draws_are_reproducible() {
    // Small category: sides in [5, 9). Draw 6 -> 5 + 6 % 4 = 7 sides,
    // so 7 radii and 3 velocity draws follow.
    let mut draws: Vec<u64> = vec![6];
    for k in 0..7u64 {
        draws.push(k);
    }
    draws.push(30); // linvel x: -50 + 30 % 100 = -20
    draws.push(170); // linvel y: -50 + 170 % 100 = 20
    draws.push(51); // angvel: -25 + 51 % 50 = -24

    let a = asteroid_attributes_from_draws(Category::S, &draws).unwrap();
    let b = asteroid_attributes_from_draws(Category::S, &draws).unwrap();
    assert_eq!(a, b, "equal draw sequences give equal shapes");
    assert_eq!(a.sides, 7);
    assert_eq!(a.radii, vec![5, 6, 7, 8, 9, 5, 6]); // 5 + k % 5
    assert_eq!(a.linvel_x, -20);
    assert_eq!(a.linvel_y, 20);
    assert_eq!(a.angvel_tenths, -24);

    // A sequence too short for the drawn side count is rejected.
    let short: Vec<u64> = vec![6, 1, 2];
    assert!(asteroid_attributes_from_draws(Category::S, &short).is_none());
    assert!(asteroid_attributes_from_draws(Category::S, &Vec::new()).is_none());
}

/// An extra-large request is built as a large asteroid.
#[test]
fn extra_large_spawns_as_large() {
    let a = asteroid_attributes(Category::XL);
    assert_eq!(a.category, Category::L);
    assert_eq!(a.score, 5);
}

/// Fragmentation strictly steps down the tier chain and never spawns from
/// the smallest tier; each destruction yields two or three fragments.
#[test]
fn fragments_step_down_one_tier() {
    assert_eq!(Category::XL.smaller(), Some(Category::L));
    assert_eq!(Category::L.smaller(), Some(Category::M));
    assert_eq!(Category::M.smaller(), Some(Category::S));
    assert_eq!(Category::S.smaller(), None);

    let mut g = Game::new(0);
    g.start_playing();
    for _ in 0..10 {
        let before = g.registry.snapshot().len();
        let hs = g.spawn_fragments(&AsteroidDestroyedEvent {
            category: Category::M,
            origin: origin(),
        });
        assert!(hs.len() == 2 || hs.len() == 3);
        assert_eq!(g.registry.snapshot().len(), before + hs.len());
        for h in &hs {
            let rec = g.registry.lookup(*h).unwrap();
            assert_eq!(
                rec.kind,
                EntityKind::Asteroid(AsteroidData {
                    category: Category::S,
                    score: 7,
                })
            );
        }
    }
}

/// A small asteroid leaves no fragments.
#[test]
fn smallest_asteroid_leaves_no_fragments() {
    let mut g = Game::new(0);
    g.start_playing();
    let hs = g.spawn_fragments(&AsteroidDestroyedEvent {
        category: Category::S,
        origin: origin(),
    });
    assert!(hs.is_empty());
    assert_eq!(g.registry.snapshot().len(), 0);
}

/// Fragments appear near the destruction origin.
#[test]
fn fragments_spawn_near_the_origin() {
    let mut g = Game::new(0);
    g.start_playing();
    let o = WorldPoint { x: 200, y: -300 };
    let hs = g.spawn_fragments(&AsteroidDestroyedEvent {
        category: Category::L,
        origin: o,
    });
    for h in &hs {
        let rec = g.registry.lookup(*h).unwrap();
        assert!(rec.pos.x >= o.x && rec.pos.x < o.x + 35);
        assert!(rec.pos.y >= o.y && rec.pos.y < o.y + 35);
    }
}
