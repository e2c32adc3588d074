//! Enemy behaviour decisions: UFO shooting cadence and the morphing
//! boss's phase machine.
//!
//! The decisions are pure functions from the state the engine reports
//! (cooldowns, squared distances, animation progress) to the next state
//! and the actions to take; the engine performs the movement, rotation and
//! projectile materialization.

use vstd::prelude::*;

verus! {

/// Contact damage and projectile damage of UFOs.
pub const UFO_PROJECTILE_DAMAGE: u16 = 5;

/// The two UFO classes.
#[derive(Clone, Copy, Debug, PartialEq, Eq, Structural)]
pub enum UfoSize {
    Small,
    Large,
}

/// One projectile a UFO asks the engine to fire: its damage, speed,
/// lifetime, and whether it leaves backwards instead of toward the target.
#[derive(Clone, Copy, Debug, PartialEq, Eq, Structural)]
pub struct UfoShot {
    pub damage: u16,
    pub speed: i64,
    pub max_life_ms: u32,
    pub aft: bool,
}

/// The shots a UFO of this class fires when its cooldown has elapsed: a
/// small UFO one aimed shot, a large UFO a forward and an aft shot.
pub open spec fn spec_ufo_volley(size: UfoSize) -> Seq<UfoShot> {
    match size {
        UfoSize::Small => seq![
            UfoShot { damage: UFO_PROJECTILE_DAMAGE, speed: 100, max_life_ms: 3500, aft: false },
        ],
        UfoSize::Large => seq![
            UfoShot { damage: UFO_PROJECTILE_DAMAGE, speed: 75, max_life_ms: 4000, aft: false },
            UfoShot { damage: UFO_PROJECTILE_DAMAGE, speed: 75, max_life_ms: 4000, aft: true },
        ],
    }
}

/// The cooldown a UFO of this class rearms with after firing.
pub open spec fn spec_ufo_cooldown_ms(size: UfoSize) -> u32 {
    match size {
        UfoSize::Small => 1000,
        UfoSize::Large => 200,
    }
}

/// Cooldown countdown: elapsed time comes off the remaining cooldown,
/// which never drops below zero.
pub open spec fn spec_count_down(left: u32, delta: u32) -> int {
    if left >= delta {
        left - delta
    } else {
        0
    }
}

/// Handle of the enemy subsystem: the per-tick behaviour decisions of
/// UFOs and the morphing boss. The engine reports state (cooldowns,
/// distances, animation progress) and performs the movement and
/// projectile materialization these decisions call for.
pub struct EnemyPlugin;

impl EnemyPlugin {
    /// One shooting tick of a UFO: fires its volley when the cooldown has
    /// fully elapsed and rearms, then counts `delta_ms` off the remaining
    /// cooldown (never below zero).
    pub fn ufo_shooting_tick(size: UfoSize, cooldown_left_ms: u32, delta_ms: u32) -> (r: (
        Vec<UfoShot>,
        u32,
    ))
        ensures
            cooldown_left_ms > 0 ==> r.0@ == Seq::<UfoShot>::empty() && r.1 == spec_count_down(
                cooldown_left_ms,
                delta_ms,
            ),
            cooldown_left_ms == 0 ==> r.0@ == spec_ufo_volley(size) && r.1 == spec_count_down(
                spec_ufo_cooldown_ms(size),
                delta_ms,
            ),
    {
        let mut shots: Vec<UfoShot> = Vec::new();
        let mut cooldown = cooldown_left_ms;
        if cooldown == 0 {
            match size {
                UfoSize::Small => {
                    shots.push(
                        UfoShot {
                            damage: UFO_PROJECTILE_DAMAGE,
                            speed: 100,
                            max_life_ms: 3500,
                            aft: false,
                        },
                    );
                    cooldown = 1000;
                },
                UfoSize::Large => {
                    shots.push(
                        UfoShot {
                            damage: UFO_PROJECTILE_DAMAGE,
                            speed: 75,
                            max_life_ms: 4000,
                            aft: false,
                        },
                    );
                    shots.push(
                        UfoShot {
                            damage: UFO_PROJECTILE_DAMAGE,
                            speed: 75,
                            max_life_ms: 4000,
                            aft: true,
                        },
                    );
                    cooldown = 200;
                },
            }
            proof {
                assert(shots@ =~= spec_ufo_volley(size));
            }
        }
        let remaining = if cooldown >= delta_ms {
            cooldown - delta_ms
        } else {
            0
        };
        (shots, remaining)
    }
}

/// Phases of the morphing boss: it drifts toward the player, turns to face
/// it when close, morphs into its attack form, charges, and reverts once
/// the player has escaped.
#[derive(Clone, Copy, Debug, PartialEq, Eq, Structural)]
pub enum BossPhase {
    Idle,
    Rotate,
    Morph,
    Attack,
    Revert,
}

/// Squared distance under which the boss starts rotating toward the
/// player (225 units).
pub const BOSS_ROTATE_DIST2: i64 = 50625;

/// Squared distance beyond which a charging boss reverts (150 units).
pub const BOSS_REVERT_DIST2: i64 = 22500;

/// What the engine reports to the boss's phase machine each tick: whether
/// a player exists, the squared distance to it, whether the boss already
/// faces it, and whether the current phase's animation finished.
#[derive(Clone, Copy, Debug, PartialEq, Eq, Structural)]
pub struct BossInputs {
    pub player_present: bool,
    pub dist2_to_player: i64,
    pub facing_player: bool,
    pub animation_done: bool,
}

/// The boss's phase transition relation. Losing sight of the player drops
/// any phase but `Revert` back to `Idle`; otherwise the boss closes in,
/// aligns, morphs, charges, and reverts when the player escapes.
pub open spec fn spec_boss_next_phase(phase: BossPhase, inp: BossInputs) -> BossPhase {
    match phase {
        BossPhase::Idle => if inp.player_present && inp.dist2_to_player < BOSS_ROTATE_DIST2 {
            BossPhase::Rotate
        } else {
            BossPhase::Idle
        },
        BossPhase::Rotate => if !inp.player_present {
            BossPhase::Idle
        } else if inp.facing_player {
            BossPhase::Morph
        } else {
            BossPhase::Rotate
        },
        BossPhase::Morph => if !inp.player_present {
            BossPhase::Idle
        } else if inp.animation_done {
            BossPhase::Attack
        } else {
            BossPhase::Morph
        },
        BossPhase::Attack => if !inp.player_present {
            BossPhase::Idle
        } else if inp.dist2_to_player > BOSS_REVERT_DIST2 {
            BossPhase::Revert
        } else {
            BossPhase::Attack
        },
        BossPhase::Revert => if inp.animation_done {
            BossPhase::Idle
        } else {
            BossPhase::Revert
        },
    }
}

impl EnemyPlugin {
    /// Advances the boss's phase machine by one tick.
    pub fn boss_next_phase(phase: BossPhase, inp: BossInputs) -> (r: BossPhase)
        ensures
            r == spec_boss_next_phase(phase, inp),
    {
        match phase {
            BossPhase::Idle => {
                if inp.player_present && inp.dist2_to_player < BOSS_ROTATE_DIST2 {
                    BossPhase::Rotate
                } else {
                    BossPhase::Idle
                }
            },
            BossPhase::Rotate => {
                if !inp.player_present {
                    BossPhase::Idle
                } else if inp.facing_player {
                    BossPhase::Morph
                } else {
                    BossPhase::Rotate
                }
            },
            BossPhase::Morph => {
                if !inp.player_present {
                    BossPhase::Idle
                } else if inp.animation_done {
                    BossPhase::Attack
                } else {
                    BossPhase::Morph
                }
            },
            BossPhase::Attack => {
                if !inp.player_present {
                    BossPhase::Idle
                } else if inp.dist2_to_player > BOSS_REVERT_DIST2 {
                    BossPhase::Revert
                } else {
                    BossPhase::Attack
                }
            },
            BossPhase::Revert => {
                if inp.animation_done {
                    BossPhase::Idle
                } else {
                    BossPhase::Revert
                }
            },
        }
    }
}

} // verus!
