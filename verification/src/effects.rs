//! Explosion effect selection: which particle variant and audio cue an
//! explosion request plays, and at which volume and speed. Pure dispatch
//! on the size tier and substance; the asset loading and mixing live in
//! the presentation collaborator.

use vstd::prelude::*;

use crate::kinds::{Category, Substance};

verus! {

/// The particle effect variants the presentation layer offers.
#[derive(Clone, Copy, Debug, PartialEq, Eq, Structural)]
pub enum ParticleEffect {
    EnergyLarge,
    EnergySmall,
    ExtraLarge,
    Large,
    Medium,
    Small,
}

/// The audio cue per impact substance.
#[derive(Clone, Copy, Debug, PartialEq, Eq, Structural)]
pub enum AudioCue {
    Rock,
    Metal,
    Energy,
    Magic,
    Undefined,
}

/// A fully selected explosion effect: particle variant, audio cue, volume
/// and playback speed (both in permille).
#[derive(Clone, Copy, Debug, PartialEq, Eq, Structural)]
pub struct EffectProfile {
    pub particles: ParticleEffect,
    pub audio: AudioCue,
    pub volume_permille: u32,
    pub speed_permille: u32,
}

/// The particle variant of an explosion: energy impacts use the glowing
/// variants, every other substance scales by size tier alone.
pub open spec fn spec_effect_particles(category: Category, substance: Substance) -> ParticleEffect {
    match (category, substance) {
        (Category::XL, Substance::Energy) => ParticleEffect::EnergyLarge,
        (Category::L, Substance::Energy) => ParticleEffect::EnergyLarge,
        (Category::XL, _) => ParticleEffect::ExtraLarge,
        (Category::L, _) => ParticleEffect::Large,
        (Category::M, Substance::Energy) => ParticleEffect::EnergyLarge,
        (Category::M, _) => ParticleEffect::Medium,
        (Category::S, Substance::Energy) => ParticleEffect::EnergySmall,
        (Category::S, _) => ParticleEffect::Small,
    }
}

/// The audio cue of an explosion, by substance.
pub open spec fn spec_effect_audio(substance: Substance) -> AudioCue {
    match substance {
        Substance::Rock => AudioCue::Rock,
        Substance::Metal => AudioCue::Metal,
        Substance::Energy => AudioCue::Energy,
        Substance::Magic => AudioCue::Magic,
        Substance::Undefined => AudioCue::Undefined,
    }
}

/// Explosion volume in permille: energy impacts play louder, and larger
/// tiers louder than smaller ones.
pub open spec fn spec_effect_volume_permille(category: Category, substance: Substance) -> u32 {
    match (category, substance) {
        (Category::XL, Substance::Energy) => 1100,
        (Category::XL, _) => 900,
        (Category::L, Substance::Energy) => 900,
        (Category::L, _) => 700,
        (Category::M, Substance::Energy) => 800,
        (Category::M, _) => 400,
        (Category::S, Substance::Energy) => 800,
        (Category::S, _) => 200,
    }
}

/// Explosion playback speed in permille: big explosions rumble slowly,
/// small ones crack fast.
pub open spec fn spec_effect_speed_permille(category: Category) -> u32 {
    match category {
        Category::XL => 700,
        Category::L => 700,
        Category::M => 1000,
        Category::S => 1500,
    }
}

/// Selects the full effect profile of an explosion request.
pub fn effect_profile(category: Category, substance: Substance) -> (r: EffectProfile)
    ensures
        r.particles == spec_effect_particles(category, substance),
        r.audio == spec_effect_audio(substance),
        r.volume_permille == spec_effect_volume_permille(category, substance),
        r.speed_permille == spec_effect_speed_permille(category),
{
    let particles = match (category, substance) {
        (Category::XL, Substance::Energy) => ParticleEffect::EnergyLarge,
        (Category::L, Substance::Energy) => ParticleEffect::EnergyLarge,
        (Category::XL, _) => ParticleEffect::ExtraLarge,
        (Category::L, _) => ParticleEffect::Large,
        (Category::M, Substance::Energy) => ParticleEffect::EnergyLarge,
        (Category::M, _) => ParticleEffect::Medium,
        (Category::S, Substance::Energy) => ParticleEffect::EnergySmall,
        (Category::S, _) => ParticleEffect::Small,
    };
    let audio = match substance {
        Substance::Rock => AudioCue::Rock,
        Substance::Metal => AudioCue::Metal,
        Substance::Energy => AudioCue::Energy,
        Substance::Magic => AudioCue::Magic,
        Substance::Undefined => AudioCue::Undefined,
    };
    let volume_permille = match (category, substance) {
        (Category::XL, Substance::Energy) => 1100,
        (Category::XL, _) => 900,
        (Category::L, Substance::Energy) => 900,
        (Category::L, _) => 700,
        (Category::M, Substance::Energy) => 800,
        (Category::M, _) => 400,
        (Category::S, Substance::Energy) => 800,
        (Category::S, _) => 200,
    };
    let speed_permille = match category {
        Category::XL => 700,
        Category::L => 700,
        Category::M => 1000,
        Category::S => 1500,
    };
    EffectProfile { particles, audio, volume_permille, speed_permille }
}

} // verus!
