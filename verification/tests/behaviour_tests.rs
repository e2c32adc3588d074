use asteroid_core::effects::{effect_profile, AudioCue, ParticleEffect};
use asteroid_core::enemies::{BossInputs, BossPhase, EnemyPlugin, UfoSize};
use asteroid_core::game::{Game, GameState};
use asteroid_core::kinds::{Category, Substance};
use asteroid_core::weapon::WeaponSystem;

/// Explosion effect selection follows the size tier and substance table.
#[test]
fn effect_profile_selects_the_documented_rows() {
    let xl_energy = effect_profile(Category::XL, Substance::Energy);
    assert_eq!(xl_energy.particles, ParticleEffect::EnergyLarge);
    assert_eq!(xl_energy.audio, AudioCue::Energy);
    assert_eq!(xl_energy.volume_permille, 1100);
    assert_eq!(xl_energy.speed_permille, 700);

    let s_rock = effect_profile(Category::S, Substance::Rock);
    assert_eq!(s_rock.particles, ParticleEffect::Small);
    assert_eq!(s_rock.audio, AudioCue::Rock);
    assert_eq!(s_rock.volume_permille, 200);
    assert_eq!(s_rock.speed_permille, 1500);

    let m_metal = effect_profile(Category::M, Substance::Metal);
    assert_eq!(m_metal.particles, ParticleEffect::Medium);
    assert_eq!(m_metal.volume_permille, 400);
    assert_eq!(m_metal.speed_permille, 1000);

    let l_undefined = effect_profile(Category::L, Substance::Undefined);
    assert_eq!(l_undefined.particles, ParticleEffect::Large);
    assert_eq!(l_undefined.audio, AudioCue::Undefined);
    assert_eq!(l_undefined.volume_permille, 700);
}

/// A small UFO fires one aimed shot when its cooldown elapses; a large
/// one fires fore and aft, on a much shorter cooldown.
#[test]
fn ufo_volleys_and_cooldowns() {
    let (shots, cooldown) = EnemyPlugin::ufo_shooting_tick(UfoSize::Small, 0, 16);
    assert_eq!(shots.len(), 1);
    assert_eq!(shots[0].damage, 5);
    assert_eq!(shots[0].speed, 100);
    assert_eq!(shots[0].max_life_ms, 3500);
    assert!(!shots[0].aft);
    assert_eq!(cooldown, 1000 - 16);

    let (shots, cooldown) = EnemyPlugin::ufo_shooting_tick(UfoSize::Large, 0, 16);
    assert_eq!(shots.len(), 2);
    assert!(!shots[0].aft);
    assert!(shots[1].aft);
    assert_eq!(shots[0].speed, 75);
    assert_eq!(shots[0].max_life_ms, 4000);
    assert_eq!(cooldown, 200 - 16);

    let (shots, cooldown) = EnemyPlugin::ufo_shooting_tick(UfoSize::Small, 500, 16);
    assert!(shots.is_empty());
    assert_eq!(cooldown, 484);

    let (shots, cooldown) = EnemyPlugin::ufo_shooting_tick(UfoSize::Small, 10, 16);
    assert!(shots.is_empty());
    assert_eq!(cooldown, 0, "the countdown never goes below zero");
}

/// The boss closes in, aligns, morphs, charges, and reverts when the
/// player escapes; losing the player drops it back to idle.
#[test]
fn boss_phase_walkthrough() {
    let near = BossInputs {
        player_present: true,
        dist2_to_player: 100 * 100,
        facing_player: false,
        animation_done: false,
    };
    let far = BossInputs {
        dist2_to_player: 400 * 400,
        ..near
    };
    assert_eq!(EnemyPlugin::boss_next_phase(BossPhase::Idle, far), BossPhase::Idle);
    assert_eq!(EnemyPlugin::boss_next_phase(BossPhase::Idle, near), BossPhase::Rotate);
    assert_eq!(EnemyPlugin::boss_next_phase(BossPhase::Rotate, near), BossPhase::Rotate);
    let aligned = BossInputs {
        facing_player: true,
        ..near
    };
    assert_eq!(EnemyPlugin::boss_next_phase(BossPhase::Rotate, aligned), BossPhase::Morph);
    assert_eq!(EnemyPlugin::boss_next_phase(BossPhase::Morph, aligned), BossPhase::Morph);
    let morphed = BossInputs {
        animation_done: true,
        ..aligned
    };
    assert_eq!(EnemyPlugin::boss_next_phase(BossPhase::Morph, morphed), BossPhase::Attack);
    assert_eq!(EnemyPlugin::boss_next_phase(BossPhase::Attack, near), BossPhase::Attack);
    assert_eq!(EnemyPlugin::boss_next_phase(BossPhase::Attack, far), BossPhase::Revert);
    let reverting = BossInputs {
        animation_done: false,
        ..far
    };
    assert_eq!(EnemyPlugin::boss_next_phase(BossPhase::Revert, reverting), BossPhase::Revert);
    let reverted = BossInputs {
        animation_done: true,
        ..far
    };
    assert_eq!(EnemyPlugin::boss_next_phase(BossPhase::Revert, reverted), BossPhase::Idle);
}

/// Losing sight of the player resets the aggressive phases to idle.
#[test]
fn boss_returns_to_idle_without_a_player() {
    let gone = BossInputs {
        player_present: false,
        dist2_to_player: 0,
        facing_player: true,
        animation_done: false,
    };
    assert_eq!(EnemyPlugin::boss_next_phase(BossPhase::Rotate, gone), BossPhase::Idle);
    assert_eq!(EnemyPlugin::boss_next_phase(BossPhase::Morph, gone), BossPhase::Idle);
    assert_eq!(EnemyPlugin::boss_next_phase(BossPhase::Attack, gone), BossPhase::Idle);
}

/// Weapon upgrades add one weapon per level and cap at level six; a reset
/// returns to the single forward weapon.
#[test]
fn weapon_levels_and_cap() {
    let mut w = WeaponSystem::new(200, 5);
    assert_eq!(w.level, 1);
    assert_eq!(w.primary.len(), 1);
    for expected in 2..=6u8 {
        w.upgrade();
        assert_eq!(w.level, expected);
        assert_eq!(w.primary.len(), expected as usize);
    }
    w.upgrade();
    assert_eq!(w.level, 6, "level six is the cap");
    assert_eq!(w.primary.len(), 6);
    w.reset();
    assert_eq!(w.level, 1);
    assert_eq!(w.primary.len(), 1);
    assert_eq!(w.primary[0].offset_y, 5);
    assert_eq!(w.primary[0].dir_y_tenths, 10);
}

/// Pause toggling moves between playing and paused only.
#[test]
fn pause_toggles_between_playing_and_paused() {
    let mut g = Game::new(0);
    g.toggle_pause();
    assert_eq!(g.state, GameState::Starting, "pause is meaningless before the run");
    g.start_playing();
    g.toggle_pause();
    assert_eq!(g.state, GameState::Paused);
    g.toggle_pause();
    assert_eq!(g.state, GameState::Playing);
}

/// The run starts only from the starting screen.
#[test]
fn start_playing_only_from_starting() {
    let mut g = Game::new(0);
    g.start_playing();
    assert_eq!(g.state, GameState::Playing);
    g.toggle_pause();
    g.start_playing();
    assert_eq!(g.state, GameState::Paused, "a paused game is not restarted");
}
