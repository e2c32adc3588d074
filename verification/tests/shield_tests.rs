use asteroid_core::events::{Outcome, PowerUpCollectedEvent, ShieldDamageEvent};
use asteroid_core::game::{shield_opacity_permille, Game};
use asteroid_core::kinds::{Category, PowerUpType, Substance};
use asteroid_core::world::WorldPoint;

fn origin() -> WorldPoint {
    WorldPoint { x: 0, y: 0 }
}

fn game_with_shield() -> Game {
    let mut g = Game::new(0);
    g.start_playing();
    g.spawn_player(origin()).unwrap();
    g.settle_outcomes(&vec![Outcome::PowerUpCollected(PowerUpCollectedEvent {
        entity: 999,
        power_up_type: PowerUpType::Shield,
    })]);
    g
}

/// A shield at 15/15 taking 20 damage is destroyed: the entity despawns,
/// exactly one destroyed-tier explosion plays, and the embedding is told
/// to restore the player's collider.
#[test]
fn overkill_damage_destroys_the_shield() {
    let mut g = game_with_shield();
    let (_, data) = g.registry.find_shield().unwrap();
    assert_eq!(data.strength, 15);
    assert_eq!(data.max_strength, 15);

    let events = g.settle_outcomes(&vec![Outcome::ShieldDamage(ShieldDamageEvent {
        damage: 20,
    })]);
    assert!(g.registry.find_shield().is_none(), "the shield entity is gone");
    let destroyed_explosions = events
        .iter()
        .filter(|e| {
            matches!(
                e,
                Outcome::Explosion(x)
                    if x.category == Category::L && x.substance == Substance::Energy
            )
        })
        .count();
    assert_eq!(destroyed_explosions, 1);
    assert!(
        events.iter().any(|e| matches!(e, Outcome::ShieldDestroyed)),
        "the player's default collider must be restored"
    );
}

/// Shield strength stays within (0, max]; damage that would not exhaust
/// it lowers it and plays the small energy flash.
#[test]
fn partial_damage_lowers_strength_within_bounds() {
    let mut g = game_with_shield();
    let events = g.settle_outcomes(&vec![Outcome::ShieldDamage(ShieldDamageEvent {
        damage: 6,
    })]);
    let (_, data) = g.registry.find_shield().unwrap();
    assert_eq!(data.strength, 9);
    assert_eq!(data.max_strength, 15);
    assert!(data.strength > 0 && data.strength <= data.max_strength);
    assert!(events.iter().any(|e| {
        matches!(
            e,
            Outcome::Explosion(x)
                if x.category == Category::S && x.substance == Substance::Energy
        )
    }));
}

/// A shield exists only while its strength is positive: damage that
/// brings it exactly to zero despawns it.
#[test]
fn exact_zero_strength_despawns_the_shield() {
    let mut g = game_with_shield();
    g.settle_outcomes(&vec![Outcome::ShieldDamage(ShieldDamageEvent {
        damage: 15,
    })]);
    assert!(g.registry.find_shield().is_none());
}

/// Shield damage without a live shield is absorbed silently.
#[test]
fn shield_damage_without_shield_is_noop() {
    let mut g = Game::new(0);
    g.start_playing();
    let events = g.settle_outcomes(&vec![Outcome::ShieldDamage(ShieldDamageEvent {
        damage: 5,
    })]);
    assert!(events.is_empty());
}

/// Collecting a second shield power-up recharges the shield and, when it
/// was full, extends its maximum.
#[test]
fn second_shield_power_up_upgrades_the_shield() {
    let mut g = game_with_shield();
    g.settle_outcomes(&vec![Outcome::PowerUpCollected(PowerUpCollectedEvent {
        entity: 999,
        power_up_type: PowerUpType::Shield,
    })]);
    let (_, data) = g.registry.find_shield().unwrap();
    assert_eq!(data.max_strength, 30);
    assert_eq!(data.strength, 30);
}

/// A recharge that does not clear the old maximum refills without
/// extending it.
#[test]
fn recharge_below_max_does_not_extend() {
    let mut g = game_with_shield();
    g.settle_outcomes(&vec![Outcome::PowerUpCollected(PowerUpCollectedEvent {
        entity: 999,
        power_up_type: PowerUpType::Shield,
    })]);
    // 30/30; damage to 10/30, then recharge: 10 + 15 <= 30 keeps max.
    g.settle_outcomes(&vec![Outcome::ShieldDamage(ShieldDamageEvent {
        damage: 20,
    })]);
    g.settle_outcomes(&vec![Outcome::PowerUpCollected(PowerUpCollectedEvent {
        entity: 999,
        power_up_type: PowerUpType::Shield,
    })]);
    let (_, data) = g.registry.find_shield().unwrap();
    assert_eq!(data.max_strength, 30);
    assert_eq!(data.strength, 30);
}

/// A power-up collected with no live player is an expected transient and
/// does nothing.
#[test]
fn power_up_without_player_is_noop() {
    let mut g = Game::new(0);
    g.start_playing();
    let events = g.settle_outcomes(&vec![Outcome::PowerUpCollected(PowerUpCollectedEvent {
        entity: 999,
        power_up_type: PowerUpType::Shield,
    })]);
    assert!(events.is_empty());
    assert!(g.registry.find_shield().is_none());
}

/// The overlay opacity scales linearly with remaining strength.
#[test]
fn shield_opacity_is_proportional() {
    assert_eq!(shield_opacity_permille(15, 15), 400);
    assert_eq!(shield_opacity_permille(10, 15), 266);
    assert_eq!(shield_opacity_permille(1, 15), 26);
    assert_eq!(shield_opacity_permille(30, 30), 400);
}
