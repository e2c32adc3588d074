//! The wave state machine's arithmetic: what composition a given wave
//! number prescribes. Every formula is a pure function of the wave counter,
//! so escalation is deterministic.

use vstd::prelude::*;

verus! {

/// Composition of one wave, handed to the entity spawners.
#[derive(Clone, Copy, Debug, PartialEq, Eq)]
pub struct WaveDescription {
    pub wave: u32,
    pub asteroid_count: u64,
    pub small_enemy_count: u64,
    pub large_enemy_count: u64,
    pub boss_present: bool,
    pub shield_power_up_present: bool,
    pub weapon_power_up_present: bool,
}

/// Asteroids scale linearly with the wave number, without a cap.
pub open spec fn spec_asteroid_count(w: int) -> int {
    2 * w
}

/// Small enemies scale with 0.45 per wave, rounded to the nearest integer
/// with halves rounding up: round(0.45 * w) == (9 * w + 10) / 20.
pub open spec fn spec_small_enemy_count(w: int) -> int {
    (9 * w + 10) / 20
}

/// One large enemy appears on every third wave.
pub open spec fn spec_large_enemy_count(w: int) -> int {
    if w % 3 == 0 {
        1
    } else {
        0
    }
}

/// The boss appears on every fourth wave.
pub open spec fn spec_boss_present(w: int) -> bool {
    w % 4 == 0
}

/// A shield power-up appears on every other wave (the odd ones).
pub open spec fn spec_shield_power_up_present(w: int) -> bool {
    (w + 1) % 2 == 0
}

/// A weapon power-up appears on every `period`-th wave; the cadence is a
/// tunable parameter, and a period of zero disables it.
pub open spec fn spec_weapon_power_up_present(w: int, period: int) -> bool {
    period > 0 && w % period == 0
}

/// The full composition a wave number prescribes.
pub open spec fn spec_wave_description(w: int, weapon_period: int) -> WaveDescription {
    WaveDescription {
        wave: w as u32,
        asteroid_count: spec_asteroid_count(w) as u64,
        small_enemy_count: spec_small_enemy_count(w) as u64,
        large_enemy_count: spec_large_enemy_count(w) as u64,
        boss_present: spec_boss_present(w),
        shield_power_up_present: spec_shield_power_up_present(w),
        weapon_power_up_present: spec_weapon_power_up_present(w, weapon_period),
    }
}

/// Computes the composition of wave `w`.
pub fn compute_wave_description(w: u32, weapon_period: u32) -> (d: WaveDescription)
    ensures
        d == spec_wave_description(w as int, weapon_period as int),
        d.wave == w,
        d.asteroid_count == spec_asteroid_count(w as int),
        d.small_enemy_count == spec_small_enemy_count(w as int),
        d.large_enemy_count == spec_large_enemy_count(w as int),
        d.boss_present == spec_boss_present(w as int),
        d.shield_power_up_present == spec_shield_power_up_present(w as int),
        d.weapon_power_up_present == spec_weapon_power_up_present(w as int, weapon_period as int),
{
    let asteroid_count = 2 * (w as u64);
    let small_enemy_count = (9 * (w as u64) + 10) / 20;
    let large_enemy_count: u64 = if w % 3 == 0 {
        1
    } else {
        0
    };
    WaveDescription {
        wave: w,
        asteroid_count,
        small_enemy_count,
        large_enemy_count,
        boss_present: w % 4 == 0,
        shield_power_up_present: (w as u64 + 1) % 2 == 0,
        weapon_power_up_present: weapon_period > 0 && w % weapon_period == 0,
    }
}

} // verus!
