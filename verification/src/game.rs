//! The game orchestrator: the outer state machine, the score and wave
//! counters, and the tick-level composition of collision resolution,
//! damage tracking, power-up consumption and the spawn director.

use vstd::prelude::*;

use crate::events::{
    AsteroidDestroyedEvent, EnemyDamageEvent, ExplosionEvent, Outcome, PowerUpCollectedEvent,
    ScoreEvent,
};
use crate::kinds::{spec_smaller_category, Category, ImpactInfo, PowerUpType, Substance};
use crate::resolve::{
    lemma_resolve_events_len, resolve_collision, resolve_events_spec, resolve_map_spec,
};
use crate::spawn::{
    materialize, plan_fragments, plan_wave_spawns, spec_request_impact, spec_request_kind,
    spec_request_record, spec_wave_slot_kind, spec_wave_spawn_total, SpawnKind,
};
use crate::waves::{compute_wave_description, spec_wave_description, WaveDescription};
use crate::registry::{
    at_most_one_player, at_most_one_shield, has_player, has_shield, is_wave_scoped,
    projectile_step_map, spec_player_handle, spec_shield_handle, EnemyData, EntityKind,
    EntityRecord, Registry, ShieldData,
};
use crate::weapon::{WeaponSystem, MAX_WEAPON_LEVEL};
use crate::world::{in_world, WorldPoint};

verus! {

/// Score accumulation saturates instead of wrapping, so a score delta can
/// never decrease the total.
pub open spec fn spec_add_score(s: u64, d: u16) -> u64 {
    if s + d <= u64::MAX {
        (s + d) as u64
    } else {
        u64::MAX
    }
}

/// The death explosion of an entity: its death tier and substance at its
/// position, skipped when it carries no impact metadata.
pub open spec fn death_explosion_at(rec: EntityRecord) -> Seq<Outcome> {
    match rec.impact {
        Some(ii) => seq![
            Outcome::Explosion(
                ExplosionEvent {
                    origin: rec.pos,
                    category: ii.death_category,
                    substance: ii.substance,
                },
            ),
        ],
        None => seq![],
    }
}

/// Damage tracking for an enemy: the decrement is applied and the
/// zero-crossing checked in the same step, so an enemy dies exactly once —
/// with its score value and death explosion — and a dead or non-enemy
/// handle absorbs nothing.
pub open spec fn spec_enemy_damage(m: Map<u64, EntityRecord>, ev: EnemyDamageEvent) -> (
    Map<u64, EntityRecord>,
    Seq<Outcome>,
) {
    if m.dom().contains(ev.entity) {
        match m[ev.entity].kind {
            EntityKind::Enemy(e) => {
                if e.health_points - ev.damage <= 0 {
                    (
                        m.remove(ev.entity),
                        seq![Outcome::Score(ScoreEvent { score: e.score_points })]
                            + death_explosion_at(m[ev.entity]),
                    )
                } else {
                    (
                        m.insert(
                            ev.entity,
                            EntityRecord {
                                handle: ev.entity,
                                kind: EntityKind::Enemy(
                                    EnemyData {
                                        health_points: (e.health_points - ev.damage) as i16,
                                        movement_speed: e.movement_speed,
                                        score_points: e.score_points,
                                        contact_damage: e.contact_damage,
                                    },
                                ),
                                impact: m[ev.entity].impact,
                                pos: m[ev.entity].pos,
                            },
                        ),
                        seq![],
                    )
                }
            },
            _ => (m, seq![]),
        }
    } else {
        (m, seq![])
    }
}

/// Damage tracking for the shield: strength drops by the damage; at or
/// below zero the shield entity is gone and the embedding must restore the
/// player's collider, otherwise a small energy flash plays. Without a live
/// shield the event is absorbed.
pub open spec fn spec_shield_damage(m: Map<u64, EntityRecord>, dmg: u16) -> (
    Map<u64, EntityRecord>,
    Seq<Outcome>,
) {
    if has_shield(m) {
        let sh = spec_shield_handle(m);
        match m[sh].kind {
            EntityKind::Shield(s) => {
                if s.strength - dmg <= 0 {
                    (
                        m.remove(sh),
                        seq![
                            Outcome::Explosion(
                                ExplosionEvent {
                                    origin: m[sh].pos,
                                    category: Category::L,
                                    substance: Substance::Energy,
                                },
                            ),
                            Outcome::ShieldDestroyed,
                        ],
                    )
                } else {
                    (
                        m.insert(
                            sh,
                            EntityRecord {
                                handle: sh,
                                kind: EntityKind::Shield(
                                    ShieldData {
                                        strength: (s.strength - dmg) as i16,
                                        max_strength: s.max_strength,
                                    },
                                ),
                                impact: m[sh].impact,
                                pos: m[sh].pos,
                            },
                        ),
                        seq![
                            Outcome::Explosion(
                                ExplosionEvent {
                                    origin: m[sh].pos,
                                    category: Category::S,
                                    substance: Substance::Energy,
                                },
                            ),
                        ],
                    )
                }
            },
            _ => (m, seq![]),
        }
    } else {
        (m, seq![])
    }
}

/// Consuming a collected power-up. Without a live player (dead or
/// respawning) the event is absorbed, as an expected transient. A shield
/// power-up attaches a fresh shield — moving collision duty off the
/// player's collider — or recharges and possibly extends an existing one;
/// a weapon power-up raises the weapon level one step.
pub open spec fn spec_collect_power_up(model: GameModel, ev: PowerUpCollectedEvent) -> (
    GameModel,
    Seq<Outcome>,
) {
    let m = model.entities;
    if !has_player(m) {
        (model, seq![])
    } else {
        let ppos = m[spec_player_handle(m)].pos;
        match ev.power_up_type {
            PowerUpType::Shield => {
                if has_shield(m) {
                    let sh = spec_shield_handle(m);
                    match m[sh].kind {
                        EntityKind::Shield(s) => {
                            let new_max = if s.strength + 15 > s.max_strength && s.max_strength
                                + 15 <= i16::MAX {
                                (s.max_strength + 15) as i16
                            } else {
                                s.max_strength
                            };
                            (
                                GameModel {
                                    entities: m.insert(
                                        sh,
                                        EntityRecord {
                                            handle: sh,
                                            kind: EntityKind::Shield(
                                                ShieldData {
                                                    strength: new_max,
                                                    max_strength: new_max,
                                                },
                                            ),
                                            impact: m[sh].impact,
                                            pos: m[sh].pos,
                                        },
                                    ),
                                    ..model
                                },
                                seq![
                                    Outcome::Explosion(
                                        ExplosionEvent {
                                            origin: ppos,
                                            category: Category::S,
                                            substance: Substance::Energy,
                                        },
                                    ),
                                ],
                            )
                        },
                        _ => (model, seq![]),
                    }
                } else {
                    (
                        GameModel {
                            entities: m.insert(
                                model.next,
                                EntityRecord {
                                    handle: model.next,
                                    kind: EntityKind::Shield(
                                        ShieldData { strength: 15, max_strength: 15 },
                                    ),
                                    impact: Some(
                                        ImpactInfo {
                                            impact_category: Category::M,
                                            death_category: Category::M,
                                            substance: Substance::Energy,
                                        },
                                    ),
                                    pos: ppos,
                                },
                            ),
                            next: (model.next + 1) as u64,
                            ..model
                        },
                        seq![
                            Outcome::ShieldRaised,
                            Outcome::Explosion(
                                ExplosionEvent {
                                    origin: ppos,
                                    category: Category::L,
                                    substance: Substance::Energy,
                                },
                            ),
                        ],
                    )
                }
            },
            PowerUpType::Weapon => {
                let lvl = if model.weapon_level < MAX_WEAPON_LEVEL {
                    (model.weapon_level + 1) as u8
                } else {
                    MAX_WEAPON_LEVEL
                };
                (
                    GameModel { weapon_level: lvl, ..model },
                    seq![
                        Outcome::Explosion(
                            ExplosionEvent {
                                origin: ppos,
                                category: Category::L,
                                substance: Substance::Energy,
                            },
                        ),
                    ],
                )
            },
        }
    }
}

/// The player-destroyed signal: while playing, the run ends (`Dead`) and
/// the shield, a child of the player, is despawned with it. In any other
/// state the signal is stale and absorbed.
pub open spec fn spec_player_destroyed(model: GameModel) -> GameModel {
    if model.state == GameState::Playing {
        let m2 = if has_shield(model.entities) {
            model.entities.remove(spec_shield_handle(model.entities))
        } else {
            model.entities
        };
        GameModel { state: GameState::Dead, entities: m2, ..model }
    } else {
        model
    }
}

/// One step of outcome application: how a single outcome event changes the
/// game, and which secondary outcome events it emits.
pub open spec fn apply_outcome_spec(model: GameModel, ev: Outcome) -> (GameModel, Seq<Outcome>) {
    match ev {
        Outcome::Score(s) => (
            GameModel { score: spec_add_score(model.score, s.score), ..model },
            seq![],
        ),
        Outcome::EnemyDamage(ed) => {
            let step = spec_enemy_damage(model.entities, ed);
            (GameModel { entities: step.0, ..model }, step.1)
        },
        Outcome::ShieldDamage(sd) => {
            let step = spec_shield_damage(model.entities, sd.damage);
            (GameModel { entities: step.0, ..model }, step.1)
        },
        Outcome::PowerUpCollected(pc) => spec_collect_power_up(model, pc),
        Outcome::PlayerDestroyed => (spec_player_destroyed(model), seq![]),
        _ => (model, seq![]),
    }
}

/// Settling a sequence of outcome events: each is applied in order, and
/// the secondary events every step emits are collected in order.
pub open spec fn settle_fold(model: GameModel, evs: Seq<Outcome>) -> (GameModel, Seq<Outcome>)
    decreases evs.len(),
{
    if evs.len() == 0 {
        (model, Seq::<Outcome>::empty())
    } else {
        let step = apply_outcome_spec(model, evs[0]);
        let rest = settle_fold(step.0, evs.subrange(1, evs.len() as int));
        (rest.0, step.1 + rest.1)
    }
}

/// No single outcome application lowers the score: score deltas are
/// non-negative and accumulate by saturation.
pub proof fn lemma_apply_outcome_score_monotone(model: GameModel, ev: Outcome)
    ensures
        apply_outcome_spec(model, ev).0.score >= model.score,
{
}

/// Score only increases: over any sequence of outcome events — and so over
/// any sequence of resolved collisions, whose effects all pass through
/// outcome events — the score after settling is at least the score before.
/// No rule decrements the score; it resets only on entering the starting
/// state.
pub proof fn lemma_score_never_decreases(model: GameModel, evs: Seq<Outcome>)
    ensures
        settle_fold(model, evs).0.score >= model.score,
    decreases evs.len(),
{
    if evs.len() > 0 {
        lemma_apply_outcome_score_monotone(model, evs[0]);
        lemma_score_never_decreases(
            apply_outcome_spec(model, evs[0]).0,
            evs.subrange(1, evs.len() as int),
        );
    }
}

/// One application allocates at most one handle and emits at most two
/// secondary events.
proof fn lemma_apply_outcome_bounds(model: GameModel, ev: Outcome)
    requires
        model.next < u64::MAX,
    ensures
        apply_outcome_spec(model, ev).0.next <= model.next + 1,
        apply_outcome_spec(model, ev).1.len() <= 2,
{
}

/// Settling allocates at most one handle and emits at most two secondary
/// events per input event.
proof fn lemma_settle_bounds(model: GameModel, evs: Seq<Outcome>)
    requires
        model.next + evs.len() <= u64::MAX,
    ensures
        settle_fold(model, evs).0.next <= model.next + evs.len(),
        settle_fold(model, evs).1.len() <= 2 * evs.len(),
    decreases evs.len(),
{
    if evs.len() > 0 {
        lemma_apply_outcome_bounds(model, evs[0]);
        lemma_settle_bounds(
            apply_outcome_spec(model, evs[0]).0,
            evs.subrange(1, evs.len() as int),
        );
    }
}

/// Outcomes that settling can emit as secondary events: score deltas and
/// presentation signals. Applying one of these emits nothing further.
pub open spec fn settled_outcome(ev: Outcome) -> bool {
    match ev {
        Outcome::Score(_) => true,
        Outcome::Explosion(_) => true,
        Outcome::AsteroidDestroyed(_) => true,
        Outcome::ShieldRaised => true,
        Outcome::ShieldDestroyed => true,
        Outcome::PlayerDestroyed => true,
        _ => false,
    }
}

/// Every secondary event a single application emits is a settled outcome.
proof fn lemma_apply_outputs_settled(model: GameModel, ev: Outcome)
    ensures
        forall|i: int|
            0 <= i < apply_outcome_spec(model, ev).1.len() ==> settled_outcome(
                #[trigger] apply_outcome_spec(model, ev).1[i],
            ),
{
}

/// Every secondary event settling emits is a settled outcome.
proof fn lemma_settle_outputs_settled(model: GameModel, evs: Seq<Outcome>)
    ensures
        forall|i: int|
            0 <= i < settle_fold(model, evs).1.len() ==> settled_outcome(
                #[trigger] settle_fold(model, evs).1[i],
            ),
    decreases evs.len(),
{
    if evs.len() > 0 {
        lemma_apply_outputs_settled(model, evs[0]);
        lemma_settle_outputs_settled(
            apply_outcome_spec(model, evs[0]).0,
            evs.subrange(1, evs.len() as int),
        );
        let head = apply_outcome_spec(model, evs[0]).1;
        let tail = settle_fold(
            apply_outcome_spec(model, evs[0]).0,
            evs.subrange(1, evs.len() as int),
        ).1;
        assert forall|i: int| 0 <= i < settle_fold(model, evs).1.len() implies settled_outcome(
            #[trigger] settle_fold(model, evs).1[i],
        ) by {
            if i < head.len() {
                assert(settle_fold(model, evs).1[i] == head[i]);
            } else {
                assert(settle_fold(model, evs).1[i] == tail[i - head.len()]);
            }
        }
    }
}

/// Settling a sequence of settled outcomes emits nothing: the cascade of
/// secondary events closes after one round.
proof fn lemma_settle_of_settled_is_quiet(model: GameModel, evs: Seq<Outcome>)
    requires
        forall|i: int| 0 <= i < evs.len() ==> settled_outcome(#[trigger] evs[i]),
    ensures
        settle_fold(model, evs).1 == Seq::<Outcome>::empty(),
    decreases evs.len(),
{
    if evs.len() > 0 {
        assert(apply_outcome_spec(model, evs[0]).1 =~= Seq::<Outcome>::empty());
        lemma_settle_of_settled_is_quiet(
            apply_outcome_spec(model, evs[0]).0,
            evs.subrange(1, evs.len() as int),
        );
        assert(settle_fold(model, evs).1 =~= Seq::<Outcome>::empty());
    }
}

/// The full effect of one collision-started notification on the game:
/// outside the playing state it is stale and ignored; otherwise the
/// resolver's events and despawns apply, then the damage tracking and
/// consumption they trigger, then the score and presentation events those
/// emitted in turn. The pair's events are returned in emission order.
pub open spec fn collision_step(model: GameModel, a: u64, b: u64) -> (GameModel, Seq<Outcome>) {
    if model.state != GameState::Playing {
        (model, Seq::<Outcome>::empty())
    } else {
        let primary = resolve_events_spec(model.entities, a, b);
        let m1 = GameModel { entities: resolve_map_spec(model.entities, a, b), ..model };
        let s1 = settle_fold(m1, primary);
        let s2 = settle_fold(s1.0, s1.1);
        (s2.0, primary + s1.1)
    }
}

/// A whole tick's worth of collision notifications, applied in delivery
/// order.
pub open spec fn run_collisions(model: GameModel, pairs: Seq<(u64, u64)>) -> (
    GameModel,
    Seq<Outcome>,
)
    decreases pairs.len(),
{
    if pairs.len() == 0 {
        (model, Seq::<Outcome>::empty())
    } else {
        let step = collision_step(model, pairs[0].0, pairs[0].1);
        let rest = run_collisions(step.0, pairs.subrange(1, pairs.len() as int));
        (rest.0, step.1 + rest.1)
    }
}

/// One resolved collision never lowers the score.
pub proof fn lemma_collision_step_score_monotone(model: GameModel, a: u64, b: u64)
    ensures
        collision_step(model, a, b).0.score >= model.score,
{
    if model.state == GameState::Playing {
        let primary = resolve_events_spec(model.entities, a, b);
        let m1 = GameModel { entities: resolve_map_spec(model.entities, a, b), ..model };
        let s1 = settle_fold(m1, primary);
        lemma_score_never_decreases(m1, primary);
        lemma_score_never_decreases(s1.0, s1.1);
    }
}

/// Score only increases: over any sequence of collision events, the score
/// after the sequence is at least the score before it.
pub proof fn lemma_collisions_score_monotone(model: GameModel, pairs: Seq<(u64, u64)>)
    ensures
        run_collisions(model, pairs).0.score >= model.score,
    decreases pairs.len(),
{
    if pairs.len() > 0 {
        lemma_collision_step_score_monotone(model, pairs[0].0, pairs[0].1);
        lemma_collisions_score_monotone(
            collision_step(model, pairs[0].0, pairs[0].1).0,
            pairs.subrange(1, pairs.len() as int),
        );
    }
}

/// One resolved collision allocates at most 18 handles (its settled
/// events, plus the secondary events they emit).
proof fn lemma_collision_step_next_bound(model: GameModel, a: u64, b: u64)
    requires
        model.next + 18 <= u64::MAX,
    ensures
        collision_step(model, a, b).0.next <= model.next + 18,
{
    if model.state == GameState::Playing {
        let primary = resolve_events_spec(model.entities, a, b);
        let m1 = GameModel { entities: resolve_map_spec(model.entities, a, b), ..model };
        let s1 = settle_fold(m1, primary);
        crate::resolve::lemma_resolve_events_len(model.entities, a, b);
        lemma_settle_bounds(m1, primary);
        lemma_settle_bounds(s1.0, s1.1);
    }
}

/// While any wave-scoped entity is live the cleared condition is false, so
/// a wave that has just spawned its asteroids cannot advance again: the
/// transition fires exactly once per emptying.
pub proof fn lemma_wave_advance_debounced(m: Map<u64, EntityRecord>, h: u64)
    requires
        m.dom().contains(h),
        is_wave_scoped(m[h].kind),
    ensures
        !spec_wave_cleared(m),
{
}

/// The wave director advances only when no wave-scoped entity remains.
pub open spec fn spec_wave_cleared(m: Map<u64, EntityRecord>) -> bool {
    forall|h: u64| #[trigger] m.dom().contains(h) ==> !is_wave_scoped(m[h].kind)
}

/// With more live asteroids than this, per-asteroid direction indicators
/// are not worth drawing and the presentation layer hides them.
pub const ASTEROID_INDICATOR_LIMIT: u32 = 5;

/// The presentation layer's asteroid counter, fed by spawn and
/// destruction notices. Destruction notices can transiently outnumber
/// spawns around a reset, so the counter floors at zero instead of
/// underflowing.
#[derive(Clone, Copy, Debug, PartialEq, Eq, Structural)]
pub struct AsteroidCount {
    pub value: u32,
}

impl AsteroidCount {
    /// A counter starting at zero.
    pub fn new() -> (r: AsteroidCount)
        ensures
            r.value == 0,
    {
        AsteroidCount { value: 0 }
    }

    /// One asteroid spawned.
    pub fn record_spawned(&mut self)
        ensures
            final(self).value == if old(self).value < u32::MAX {
                old(self).value + 1
            } else {
                old(self).value as int
            },
    {
        if self.value < u32::MAX {
            self.value = self.value + 1;
        }
    }

    /// One asteroid destroyed; the counter never drops below zero.
    pub fn record_destroyed(&mut self)
        ensures
            final(self).value == if old(self).value > 0 {
                old(self).value - 1
            } else {
                0int
            },
    {
        if self.value > 0 {
            self.value = self.value - 1;
        }
    }

    /// Whether per-asteroid direction indicators should be drawn: only
    /// while few enough asteroids are live to keep them readable.
    pub fn indicators_visible(&self) -> (r: bool)
        ensures
            r == (self.value <= ASTEROID_INDICATOR_LIMIT),
    {
        self.value <= ASTEROID_INDICATOR_LIMIT
    }

    /// Back to zero, on a run reset.
    pub fn reset(&mut self)
        ensures
            final(self).value == 0,
    {
        self.value = 0;
    }
}

/// Base opacity of the shield overlay, in permille.
pub const SHIELD_BASE_OPACITY_PERMILLE: u32 = 400;

/// The opacity the shield overlay shows at a given strength: the base
/// opacity scaled by `strength / max_strength`. Rendering the overlay is
/// outside this crate; the ratio computation is part of the contract.
pub open spec fn spec_shield_opacity_permille(strength: i16, max_strength: i16) -> int {
    SHIELD_BASE_OPACITY_PERMILLE * strength / (max_strength as int)
}

/// Computes the shield overlay's opacity in permille, proportional to the
/// remaining strength.
pub fn shield_opacity_permille(strength: i16, max_strength: i16) -> (r: u32)
    requires
        0 < strength <= max_strength,
    ensures
        r == spec_shield_opacity_permille(strength, max_strength),
        r <= SHIELD_BASE_OPACITY_PERMILLE,
{
    proof {
        assert(SHIELD_BASE_OPACITY_PERMILLE * (strength as int) <= 400 * 32767)
            by (nonlinear_arith)
            requires
                0 < strength <= 32767,
        ;
    }
    let scaled = SHIELD_BASE_OPACITY_PERMILLE as u64 * strength as u64;
    let r = (scaled / max_strength as u64) as u32;
    proof {
        assert(SHIELD_BASE_OPACITY_PERMILLE * strength / (max_strength as int)
            <= SHIELD_BASE_OPACITY_PERMILLE) by (nonlinear_arith)
            requires
                0 < strength <= max_strength,
        ;
    }
    r
}

/// Removing an entity cannot duplicate a shield or player.
proof fn lemma_uniques_after_remove(m: Map<u64, EntityRecord>, h: u64)
    requires
        at_most_one_shield(m),
        at_most_one_player(m),
    ensures
        at_most_one_shield(m.remove(h)),
        at_most_one_player(m.remove(h)),
{
}

/// Inserting keeps shields and players unique, provided a shield (or
/// player) record only goes in when none exists or it replaces the one
/// that does.
proof fn lemma_uniques_after_insert(m: Map<u64, EntityRecord>, h: u64, rec: EntityRecord)
    requires
        at_most_one_shield(m),
        at_most_one_player(m),
        rec.kind is Shield ==> !has_shield(m) || (m.dom().contains(h) && m[h].kind is Shield),
        rec.kind is Player ==> !has_player(m) || (m.dom().contains(h) && m[h].kind is Player),
    ensures
        at_most_one_shield(m.insert(h, rec)),
        at_most_one_player(m.insert(h, rec)),
{
    let m2 = m.insert(h, rec);
    assert forall|h1: u64, h2: u64|
        #[trigger] m2.dom().contains(h1) && #[trigger] m2.dom().contains(h2) && m2[h1].kind
            is Shield && m2[h2].kind is Shield implies h1 == h2 by {
        if h1 != h && h2 != h {
            assert(m.dom().contains(h1) && m[h1].kind is Shield);
        } else if h1 == h && h2 != h {
            assert(m.dom().contains(h2) && m[h2].kind is Shield);
            assert(has_shield(m));
        } else if h1 != h && h2 == h {
            assert(m.dom().contains(h1) && m[h1].kind is Shield);
            assert(has_shield(m));
        }
    }
    assert forall|h1: u64, h2: u64|
        #[trigger] m2.dom().contains(h1) && #[trigger] m2.dom().contains(h2) && m2[h1].kind
            is Player && m2[h2].kind is Player implies h1 == h2 by {
        if h1 != h && h2 != h {
            assert(m.dom().contains(h1) && m[h1].kind is Player);
        } else if h1 == h && h2 != h {
            assert(m.dom().contains(h2) && m[h2].kind is Player);
            assert(has_player(m));
        } else if h1 != h && h2 == h {
            assert(m.dom().contains(h1) && m[h1].kind is Player);
            assert(has_player(m));
        }
    }
}

/// The outer game state machine:
/// `Starting -> Playing -> {Paused <-> Playing} -> Dead -> Starting`.
#[derive(Clone, Copy, Debug, PartialEq, Eq, Structural)]
pub enum GameState {
    Starting,
    Playing,
    Paused,
    Dead,
}

/// The mathematical state of a game: everything its transitions read or
/// write, with the registry abstracted to its handle map.
#[verifier::ext_equal]
pub struct GameModel {
    pub state: GameState,
    pub entities: Map<u64, EntityRecord>,
    pub next: u64,
    pub score: u64,
    pub wave: u32,
    pub weapon_level: u8,
}

/// The live game: state machine, entity registry, counters, and the
/// player's weapon system.
pub struct Game {
    pub state: GameState,
    pub registry: Registry,
    pub score: u64,
    pub wave: u32,
    /// Cadence of the weapon power-up (every n-th wave; 0 disables it).
    /// A tunable parameter, not a fixed law.
    pub weapon_power_up_period: u32,
    pub weapons: WeaponSystem,
}

impl Game {
    /// The abstract state this game presents.
    pub open spec fn model(&self) -> GameModel {
        GameModel {
            state: self.state,
            entities: self.registry@,
            next: self.registry.spec_next_handle(),
            score: self.score,
            wave: self.wave,
            weapon_level: self.weapons.level,
        }
    }

    /// Game invariant: a well-formed registry and weapon system, and at
    /// most one live shield and player.
    pub open spec fn wf(&self) -> bool {
        &&& self.registry.wf()
        &&& self.weapons.wf()
        &&& at_most_one_shield(self.registry@)
        &&& at_most_one_player(self.registry@)
    }

    /// A fresh game: in the starting state, with an empty registry, zeroed
    /// counters and a level-1 weapon system.
    pub fn new(weapon_power_up_period: u32) -> (g: Game)
        ensures
            g.wf(),
            g.state == GameState::Starting,
            g.registry@ == Map::<u64, EntityRecord>::empty(),
            g.score == 0,
            g.wave == 0,
            g.weapon_power_up_period == weapon_power_up_period,
            g.weapons.level == 1,
    {
        Game {
            state: GameState::Starting,
            registry: Registry::new(),
            score: 0,
            wave: 0,
            weapon_power_up_period,
            weapons: WeaponSystem::new(200, 5),
        }
    }

    /// Leaves the starting screen: `Starting -> Playing`; in any other
    /// state the game is unchanged.
    pub fn start_playing(&mut self)
        requires
            old(self).wf(),
        ensures
            final(self).wf(),
            old(self).state == GameState::Starting ==> final(self).state == GameState::Playing,
            old(self).state != GameState::Starting ==> final(self).state == old(self).state,
            final(self).model() == (GameModel { state: final(self).state, ..old(self).model() }),
            final(self).weapon_power_up_period == old(self).weapon_power_up_period,
    {
        if matches!(self.state, GameState::Starting) {
            self.state = GameState::Playing;
        }
    }

    /// Toggles pause: `Playing <-> Paused`; in any other state the game is
    /// unchanged. Score and wave persist across pause.
    pub fn toggle_pause(&mut self)
        requires
            old(self).wf(),
        ensures
            final(self).wf(),
            old(self).state == GameState::Playing ==> final(self).state == GameState::Paused,
            old(self).state == GameState::Paused ==> final(self).state == GameState::Playing,
            old(self).state != GameState::Playing && old(self).state != GameState::Paused
                ==> final(self).state == old(self).state,
            final(self).model() == (GameModel { state: final(self).state, ..old(self).model() }),
            final(self).weapon_power_up_period == old(self).weapon_power_up_period,
    {
        match self.state {
            GameState::Playing => {
                self.state = GameState::Paused;
            },
            GameState::Paused => {
                self.state = GameState::Playing;
            },
            _ => {},
        }
    }

    /// Enters the starting state for a fresh run: wave-scoped entities and
    /// power-ups are despawned, the wave and score counters reset to
    /// exactly zero, and the weapon loadout drops to level 1. The player
    /// entity, if alive, is kept: player destruction goes to `Dead`, not
    /// through this reset.
    pub fn reset_run(&mut self)
        requires
            old(self).wf(),
        ensures
            final(self).wf(),
            final(self).state == GameState::Starting,
            final(self).score == 0,
            final(self).wave == 0,
            final(self).weapons.level == 1,
            final(self).weapon_power_up_period == old(self).weapon_power_up_period,
            final(self).registry.spec_next_handle() == old(self).registry.spec_next_handle(),
            forall|h: u64| #[trigger] final(self).registry@.dom().contains(h) <==> (old(
                self,
            ).registry@.dom().contains(h) && !is_wave_scoped(old(self).registry@[h].kind) && !(old(
                self,
            ).registry@[h].kind is PowerUp)),
            forall|h: u64| #[trigger] final(self).registry@.dom().contains(h)
                ==> final(self).registry@[h] == old(self).registry@[h],
    {
        self.state = GameState::Starting;
        self.score = 0;
        self.wave = 0;
        self.weapons.reset();
        self.registry.clear_wave_scoped();
        self.registry.clear_power_ups();
    }

    /// Spawns the player at the given position, if none is alive; the
    /// handle of the new player entity is returned. With a player already
    /// alive, nothing changes.
    pub fn spawn_player(&mut self, pos: WorldPoint) -> (r: Option<u64>)
        requires
            old(self).wf(),
            in_world(pos),
            old(self).registry.can_spawn(1),
        ensures
            final(self).wf(),
            r is Some <==> !has_player(old(self).registry@),
            !has_player(old(self).registry@) ==> r == Some(old(self).registry.spec_next_handle())
                && final(self).registry@ == old(self).registry@.insert(
                old(self).registry.spec_next_handle(),
                EntityRecord {
                    handle: old(self).registry.spec_next_handle(),
                    kind: EntityKind::Player,
                    impact: Some(
                        ImpactInfo {
                            impact_category: Category::XL,
                            death_category: Category::XL,
                            substance: Substance::Metal,
                        },
                    ),
                    pos,
                },
            ),
            has_player(old(self).registry@) ==> final(self).model() == old(self).model(),
            final(self).state == old(self).state,
            final(self).score == old(self).score,
            final(self).wave == old(self).wave,
    {
        if self.registry.find_player().is_some() {
            return None;
        }
        let h = self.registry.spawn(
            EntityKind::Player,
            Some(
                ImpactInfo {
                    impact_category: Category::XL,
                    death_category: Category::XL,
                    substance: Substance::Metal,
                },
            ),
            pos,
        );
        proof {
            let m = old(self).registry@;
            let m2 = self.registry@;
            assert forall|h1: u64, h2: u64|
                #[trigger] m2.dom().contains(h1) && #[trigger] m2.dom().contains(h2)
                    && m2[h1].kind is Player && m2[h2].kind is Player implies h1 == h2 by {
                if h1 != h {
                    assert(m.dom().contains(h1) && m[h1].kind is Player);
                }
                if h2 != h {
                    assert(m.dom().contains(h2) && m[h2].kind is Player);
                }
            }
            assert(at_most_one_shield(m2));
        }
        Some(h)
    }

    /// Applies one outcome event to the game — score accumulation, enemy
    /// and shield damage tracking, power-up consumption, and the
    /// player-destroyed transition — appending any secondary outcome
    /// events to `out`. Presentation events (explosions, destruction
    /// notices) change nothing here.
    pub fn apply_outcome(&mut self, ev: &Outcome, out: &mut Vec<Outcome>)
        requires
            old(self).wf(),
            old(self).registry.can_spawn(1),
        ensures
            final(self).wf(),
            final(self).model() == apply_outcome_spec(old(self).model(), *ev).0,
            final(out)@ == old(out)@ + apply_outcome_spec(old(self).model(), *ev).1,
            final(self).registry.spec_next_handle() <= old(self).registry.spec_next_handle() + 1,
            final(self).weapon_power_up_period == old(self).weapon_power_up_period,
            final(self).weapons.cooldown_ms == old(self).weapons.cooldown_ms,
    {
        let ghost model0 = old(self).model();
        match *ev {
            Outcome::Score(s) => {
                let d = s.score as u64;
                self.score = if self.score <= u64::MAX - d {
                    self.score + d
                } else {
                    u64::MAX
                };
                proof {
                    assert(self.model() =~= apply_outcome_spec(model0, *ev).0);
                    assert(out@ =~= old(out)@ + apply_outcome_spec(model0, *ev).1);
                }
            },
            Outcome::EnemyDamage(ed) => {
                match self.registry.lookup(ed.entity) {
                    Some(rec) => {
                        match rec.kind {
                            EntityKind::Enemy(e) => {
                                let hp_after: i32 = e.health_points as i32 - ed.damage as i32;
                                if hp_after <= 0 {
                                    self.registry.despawn(ed.entity);
                                    out.push(Outcome::Score(ScoreEvent { score: e.score_points }));
                                    match rec.impact {
                                        Some(ii) => {
                                            out.push(
                                                Outcome::Explosion(
                                                    ExplosionEvent {
                                                        origin: rec.pos,
                                                        category: ii.death_category,
                                                        substance: ii.substance,
                                                    },
                                                ),
                                            );
                                        },
                                        None => {},
                                    }
                                    proof {
                                        lemma_uniques_after_remove(model0.entities, ed.entity);
                                    }
                                } else {
                                    self.registry.update_kind(
                                        ed.entity,
                                        EntityKind::Enemy(
                                            EnemyData {
                                                health_points: hp_after as i16,
                                                movement_speed: e.movement_speed,
                                                score_points: e.score_points,
                                                contact_damage: e.contact_damage,
                                            },
                                        ),
                                    );
                                    proof {
                                        lemma_uniques_after_insert(
                                            model0.entities,
                                            ed.entity,
                                            self.registry@[ed.entity],
                                        );
                                    }
                                }
                            },
                            _ => {},
                        }
                    },
                    None => {},
                }
                proof {
                    assert(self.model() =~= apply_outcome_spec(model0, *ev).0);
                    assert(out@ =~= old(out)@ + apply_outcome_spec(model0, *ev).1);
                }
            },
            Outcome::ShieldDamage(sd) => {
                match self.registry.find_shield() {
                    Some((sh, s)) => {
                        proof {
                            assert(has_shield(model0.entities));
                            let ch = spec_shield_handle(model0.entities);
                            assert(model0.entities.dom().contains(ch) && model0.entities[ch].kind
                                is Shield);
                            assert(ch == sh);
                            self.registry.lemma_wf_map();
                            assert(crate::registry::record_wf(model0.entities[sh]));
                            assert(0 < s.strength <= s.max_strength);
                        }
                        let rec = self.registry.lookup(sh).unwrap();
                        let after: i32 = s.strength as i32 - sd.damage as i32;
                        if after <= 0 {
                            self.registry.despawn(sh);
                            out.push(
                                Outcome::Explosion(
                                    ExplosionEvent {
                                        origin: rec.pos,
                                        category: Category::L,
                                        substance: Substance::Energy,
                                    },
                                ),
                            );
                            out.push(Outcome::ShieldDestroyed);
                            proof {
                                lemma_uniques_after_remove(model0.entities, sh);
                            }
                        } else {
                            self.registry.update_kind(
                                sh,
                                EntityKind::Shield(
                                    ShieldData {
                                        strength: after as i16,
                                        max_strength: s.max_strength,
                                    },
                                ),
                            );
                            out.push(
                                Outcome::Explosion(
                                    ExplosionEvent {
                                        origin: rec.pos,
                                        category: Category::S,
                                        substance: Substance::Energy,
                                    },
                                ),
                            );
                            proof {
                                lemma_uniques_after_insert(
                                    model0.entities,
                                    sh,
                                    self.registry@[sh],
                                );
                            }
                        }
                    },
                    None => {},
                }
                proof {
                    assert(self.model() =~= apply_outcome_spec(model0, *ev).0);
                    assert(out@ =~= old(out)@ + apply_outcome_spec(model0, *ev).1);
                }
            },
            Outcome::PowerUpCollected(pc) => {
                PowerUpPlugin::collect(self, &pc, out);
                proof {
                    assert(self.model() =~= apply_outcome_spec(model0, *ev).0);
                    assert(out@ =~= old(out)@ + apply_outcome_spec(model0, *ev).1);
                }
            },
            Outcome::PlayerDestroyed => {
                if matches!(self.state, GameState::Playing) {
                    self.state = GameState::Dead;
                    match self.registry.find_shield() {
                        Some((sh, _)) => {
                            proof {
                                assert(has_shield(model0.entities));
                                let ch = spec_shield_handle(model0.entities);
                                assert(model0.entities.dom().contains(ch)
                                    && model0.entities[ch].kind is Shield);
                                assert(ch == sh);
                            }
                            self.registry.despawn(sh);
                            proof {
                                lemma_uniques_after_remove(model0.entities, sh);
                            }
                        },
                        None => {},
                    }
                }
                proof {
                    assert(self.model() =~= apply_outcome_spec(model0, *ev).0);
                    assert(out@ =~= old(out)@ + apply_outcome_spec(model0, *ev).1);
                }
            },
            _ => {
                proof {
                    assert(self.model() =~= apply_outcome_spec(model0, *ev).0);
                    assert(out@ =~= old(out)@ + apply_outcome_spec(model0, *ev).1);
                }
            },
        }
    }
}

/// Handle of the power-up subsystem: consumption of collected power-ups
/// (shield attachment, recharge and extension; weapon upgrades).
pub struct PowerUpPlugin;

impl PowerUpPlugin {
    /// Consumes one collected power-up on the game, appending the
    /// explosion and shield signals it emits. Without a live player the
    /// event is absorbed.
    pub fn collect(game: &mut Game, pc: &PowerUpCollectedEvent, out: &mut Vec<Outcome>)
        requires
            old(game).wf(),
            old(game).registry.can_spawn(1),
        ensures
            final(game).wf(),
            final(game).model() == spec_collect_power_up(old(game).model(), *pc).0,
            final(out)@ == old(out)@ + spec_collect_power_up(old(game).model(), *pc).1,
            final(game).registry.spec_next_handle() <= old(game).registry.spec_next_handle() + 1,
            final(game).weapon_power_up_period == old(game).weapon_power_up_period,
            final(game).weapons.cooldown_ms == old(game).weapons.cooldown_ms,
    {
        let ghost model0 = old(game).model();
        match game.registry.find_player() {
            Some((ph, ppos)) => {
                proof {
                    assert(has_player(model0.entities));
                    let ch = spec_player_handle(model0.entities);
                    assert(model0.entities.dom().contains(ch) && model0.entities[ch].kind
                        is Player);
                    assert(ch == ph);
                    game.registry.lemma_wf_map();
                }
                match pc.power_up_type {
                    PowerUpType::Shield => {
                        match game.registry.find_shield() {
                            Some((sh, s)) => {
                                proof {
                                    assert(has_shield(model0.entities));
                                    let ch = spec_shield_handle(model0.entities);
                                    assert(model0.entities.dom().contains(ch)
                                        && model0.entities[ch].kind is Shield);
                                    assert(ch == sh);
                                    assert(crate::registry::record_wf(
                                        model0.entities[sh],
                                    ));
                                    assert(0 < s.strength <= s.max_strength);
                                }
                                let new_max = if s.strength as i32 + 15
                                    > s.max_strength as i32 && s.max_strength
                                    <= i16::MAX - 15 {
                                    s.max_strength + 15
                                } else {
                                    s.max_strength
                                };
                                game.registry.update_kind(
                                    sh,
                                    EntityKind::Shield(
                                        ShieldData {
                                            strength: new_max,
                                            max_strength: new_max,
                                        },
                                    ),
                                );
                                out.push(
                                    Outcome::Explosion(
                                        ExplosionEvent {
                                            origin: ppos,
                                            category: Category::S,
                                            substance: Substance::Energy,
                                        },
                                    ),
                                );
                                proof {
                                    lemma_uniques_after_insert(
                                        model0.entities,
                                        sh,
                                        game.registry@[sh],
                                    );
                                }
                            },
                            None => {
                                let h = game.registry.spawn(
                                    EntityKind::Shield(
                                        ShieldData { strength: 15, max_strength: 15 },
                                    ),
                                    Some(
                                        ImpactInfo {
                                            impact_category: Category::M,
                                            death_category: Category::M,
                                            substance: Substance::Energy,
                                        },
                                    ),
                                    ppos,
                                );
                                out.push(Outcome::ShieldRaised);
                                out.push(
                                    Outcome::Explosion(
                                        ExplosionEvent {
                                            origin: ppos,
                                            category: Category::L,
                                            substance: Substance::Energy,
                                        },
                                    ),
                                );
                                proof {
                                    lemma_uniques_after_insert(
                                        model0.entities,
                                        h,
                                        game.registry@[h],
                                    );
                                }
                            },
                        }
                    },
                    PowerUpType::Weapon => {
                        game.weapons.upgrade();
                        out.push(
                            Outcome::Explosion(
                                ExplosionEvent {
                                    origin: ppos,
                                    category: Category::L,
                                    substance: Substance::Energy,
                                },
                            ),
                        );
                    },
                }
            },
            None => {},
        }
        proof {
            assert(game.model() =~= spec_collect_power_up(model0, *pc).0);
            assert(out@ =~= old(out)@ + spec_collect_power_up(model0, *pc).1);
        }
    }
}

impl Game {
    /// Applies a batch of outcome events in delivery order, each one
    /// independently and immediately (no batching or summing), returning
    /// the secondary outcome events they emitted.
    pub fn settle_outcomes(&mut self, evs: &Vec<Outcome>) -> (out: Vec<Outcome>)
        requires
            old(self).wf(),
            old(self).registry.can_spawn(evs@.len() as int),
        ensures
            final(self).wf(),
            final(self).model() == settle_fold(old(self).model(), evs@).0,
            out@ == settle_fold(old(self).model(), evs@).1,
            final(self).weapon_power_up_period == old(self).weapon_power_up_period,
            final(self).weapons.cooldown_ms == old(self).weapons.cooldown_ms,
    {
        let ghost model0 = old(self).model();
        let mut out: Vec<Outcome> = Vec::new();
        let n = evs.len();
        proof {
            assert(evs@.subrange(0, n as int) =~= evs@);
        }
        let mut i: usize = 0;
        while i < n
            invariant
                self.wf(),
                n == evs@.len(),
                i <= n,
                self.registry.spec_next_handle() + (n - i) <= u64::MAX,
                settle_fold(model0, evs@).0 == settle_fold(
                    self.model(),
                    evs@.subrange(i as int, n as int),
                ).0,
                settle_fold(model0, evs@).1 == out@ + settle_fold(
                    self.model(),
                    evs@.subrange(i as int, n as int),
                ).1,
                self.weapon_power_up_period == old(self).weapon_power_up_period,
                self.weapons.cooldown_ms == old(self).weapons.cooldown_ms,
            decreases n - i,
        {
            let ghost pre = self.model();
            let ghost rest = evs@.subrange(i as int, n as int);
            let ghost out_pre = out@;
            let ev = evs[i];
            self.apply_outcome(&ev, &mut out);
            proof {
                assert(rest[0] == evs@[i as int]);
                assert(rest.subrange(1, rest.len() as int) =~= evs@.subrange(
                    i as int + 1,
                    n as int,
                ));
                let step = apply_outcome_spec(pre, rest[0]);
                let tail = settle_fold(step.0, evs@.subrange(i as int + 1, n as int));
                assert(settle_fold(pre, rest).0 == tail.0);
                assert(settle_fold(pre, rest).1 == step.1 + tail.1);
                assert(out_pre + (step.1 + tail.1) =~= (out_pre + step.1) + tail.1);
            }
            i = i + 1;
        }
        proof {
            assert(evs@.subrange(n as int, n as int) =~= Seq::<Outcome>::empty());
            assert(settle_fold(model0, evs@).1 =~= out@);
        }
        out
    }

    /// Resolves one collision-started notification and settles all of its
    /// consequences within the tick: the resolver's despawns, then damage
    /// tracking, score accumulation, power-up consumption and the
    /// player-destroyed transition, then the score and presentation events
    /// those emitted. Returns every outcome event of the notification, in
    /// emission order. Outside the playing state, notifications are stale
    /// and ignored.
    pub fn handle_collision_started(&mut self, a: u64, b: u64) -> (out: Vec<Outcome>)
        requires
            old(self).wf(),
            a != b,
            old(self).registry.can_spawn(18),
        ensures
            final(self).wf(),
            final(self).model() == collision_step(old(self).model(), a, b).0,
            out@ == collision_step(old(self).model(), a, b).1,
            final(self).registry.spec_next_handle() <= old(self).registry.spec_next_handle() + 18,
            final(self).weapon_power_up_period == old(self).weapon_power_up_period,
    {
        proof {
            lemma_collision_step_next_bound(old(self).model(), a, b);
        }
        if !matches!(self.state, GameState::Playing) {
            return Vec::new();
        }
        let ghost m0 = old(self).registry@;
        let mut out = resolve_collision(&mut self.registry, a, b);
        proof {
            lemma_resolve_events_len(m0, a, b);
            let m2 = self.registry@;
            assert forall|h: u64| #[trigger] m2.dom().contains(h) implies m0.dom().contains(h)
                && m2[h] == m0[h] by {}
            assert(at_most_one_shield(m2));
            assert(at_most_one_player(m2));
        }
        let ghost m1 = self.model();
        let ghost primary = out@;
        let mut secondary = self.settle_outcomes(&out);
        proof {
            lemma_settle_bounds(m1, primary);
        }
        let ghost mid = self.model();
        let ghost sec = secondary@;
        let tertiary = self.settle_outcomes(&secondary);
        proof {
            lemma_settle_outputs_settled(m1, primary);
            lemma_settle_of_settled_is_quiet(mid, sec);
            assert(tertiary@ =~= Seq::<Outcome>::empty());
        }
        out.append(&mut secondary);
        proof {
            assert(out@ =~= primary + sec);
            assert(self.model() == collision_step(old(self).model(), a, b).0);
            assert(out@ =~= collision_step(old(self).model(), a, b).1);
        }
        out
    }

    /// Resolves and settles a whole tick's collision-started
    /// notifications, in delivery order, returning every outcome event
    /// they emitted. Each classified pair is processed exactly once, per
    /// notification.
    pub fn handle_collisions(&mut self, pairs: &Vec<(u64, u64)>) -> (out: Vec<Outcome>)
        requires
            old(self).wf(),
            forall|i: int| 0 <= i < pairs@.len() ==> (#[trigger] pairs@[i]).0 != pairs@[i].1,
            old(self).registry.can_spawn(18 * pairs@.len() as int),
        ensures
            final(self).wf(),
            final(self).model() == run_collisions(old(self).model(), pairs@).0,
            out@ == run_collisions(old(self).model(), pairs@).1,
            final(self).weapon_power_up_period == old(self).weapon_power_up_period,
    {
        let ghost model0 = old(self).model();
        let mut out: Vec<Outcome> = Vec::new();
        let n = pairs.len();
        proof {
            assert(pairs@.subrange(0, n as int) =~= pairs@);
        }
        let mut i: usize = 0;
        while i < n
            invariant
                self.wf(),
                n == pairs@.len(),
                i <= n,
                forall|j: int| 0 <= j < n ==> (#[trigger] pairs@[j]).0 != pairs@[j].1,
                self.registry.spec_next_handle() + 18 * (n - i) <= u64::MAX,
                run_collisions(model0, pairs@).0 == run_collisions(
                    self.model(),
                    pairs@.subrange(i as int, n as int),
                ).0,
                run_collisions(model0, pairs@).1 == out@ + run_collisions(
                    self.model(),
                    pairs@.subrange(i as int, n as int),
                ).1,
                self.weapon_power_up_period == old(self).weapon_power_up_period,
            decreases n - i,
        {
            let ghost pre = self.model();
            let ghost rest = pairs@.subrange(i as int, n as int);
            let ghost out_pre = out@;
            let (a, b) = pairs[i];
            let mut step_events = self.handle_collision_started(a, b);
            out.append(&mut step_events);
            proof {
                assert(rest[0] == pairs@[i as int]);
                assert(rest.subrange(1, rest.len() as int) =~= pairs@.subrange(
                    i as int + 1,
                    n as int,
                ));
                let step = collision_step(pre, a, b);
                let tail = run_collisions(step.0, pairs@.subrange(i as int + 1, n as int));
                assert(run_collisions(pre, rest).0 == tail.0);
                assert(run_collisions(pre, rest).1 == step.1 + tail.1);
                assert(out_pre + (step.1 + tail.1) =~= (out_pre + step.1) + tail.1);
            }
            i = i + 1;
        }
        proof {
            assert(pairs@.subrange(n as int, n as int) =~= Seq::<(u64, u64)>::empty());
            assert(run_collisions(model0, pairs@).1 =~= out@);
        }
        out
    }

    /// Materializes the fragments of a destroyed asteroid: two or three
    /// new asteroids one size tier smaller, near the destruction origin and
    /// clear of the player, or none at all for a small asteroid. The
    /// returned handles are the new entities'.
    pub fn spawn_fragments(&mut self, ev: &AsteroidDestroyedEvent) -> (hs: Vec<u64>)
        requires
            old(self).wf(),
            in_world(ev.origin),
            old(self).registry.can_spawn(3),
        ensures
            final(self).wf(),
            final(self).state == old(self).state,
            final(self).score == old(self).score,
            final(self).wave == old(self).wave,
            final(self).weapon_power_up_period == old(self).weapon_power_up_period,
            forall|h: u64| #[trigger] old(self).registry@.dom().contains(h)
                ==> final(self).registry@.dom().contains(h) && final(self).registry@[h] == old(
                self,
            ).registry@[h],
            spec_smaller_category(ev.category) is None ==> hs@.len() == 0 && final(self).model()
                == old(self).model(),
            spec_smaller_category(ev.category) matches Some(child) ==> ({
                &&& 2 <= hs@.len() <= 3
                &&& forall|i: int|
                    0 <= i < hs@.len() ==> final(self).registry@.dom().contains(#[trigger] hs@[i])
                        && final(self).registry@[hs@[i]].kind == spec_request_kind(
                        SpawnKind::Asteroid(child),
                    ) && final(self).registry@[hs@[i]].impact == Some(
                        spec_request_impact(SpawnKind::Asteroid(child)),
                    )
                &&& forall|h: u64| #[trigger] final(self).registry@.dom().contains(h) ==> old(
                    self,
                ).registry@.dom().contains(h) || hs@.contains(h)
            }),
    {
        let player = match self.registry.find_player() {
            Some((ph, ppos)) => {
                proof {
                    self.registry.lemma_wf_map();
                }
                Some(ppos)
            },
            None => None,
        };
        let reqs = plan_fragments(ev, player);
        let ghost m0 = self.registry@;
        let hs = materialize(&mut self.registry, &reqs);
        proof {
            let m2 = self.registry@;
            let next0 = old(self).registry.spec_next_handle();
            assert forall|h: u64|
                #[trigger] m2.dom().contains(h) && !m0.dom().contains(h) implies !(m2[h].kind
                is Shield) && !(m2[h].kind is Player) by {
                let j = (h - next0) as int;
                assert(hs@[j] == h);
                assert(m2[hs@[j]] == spec_request_record(reqs@[j], hs@[j]));
            }
            assert forall|h1: u64, h2: u64|
                #[trigger] m2.dom().contains(h1) && #[trigger] m2.dom().contains(h2) && m2[h1].kind
                    is Shield && m2[h2].kind is Shield implies h1 == h2 by {
                assert(m0.dom().contains(h1) && m0[h1] == m2[h1]);
                assert(m0.dom().contains(h2) && m0[h2] == m2[h2]);
            }
            assert forall|h1: u64, h2: u64|
                #[trigger] m2.dom().contains(h1) && #[trigger] m2.dom().contains(h2) && m2[h1].kind
                    is Player && m2[h2].kind is Player implies h1 == h2 by {
                assert(m0.dom().contains(h1) && m0[h1] == m2[h1]);
                assert(m0.dom().contains(h2) && m0[h2] == m2[h2]);
            }
            if spec_smaller_category(ev.category) is None {
                assert(self.model() =~= old(self).model());
            } else {
                assert forall|h: u64| #[trigger] self.registry@.dom().contains(h) implies old(
                    self,
                ).registry@.dom().contains(h) || hs@.contains(h) by {
                    if !old(self).registry@.dom().contains(h) {
                        assert(hs@[(h - old(self).registry.spec_next_handle()) as int] == h);
                    }
                }
            }
        }
        hs
    }
}

impl Game {
    /// The composition the next wave would have.
    pub open spec fn spec_next_wave(&self) -> WaveDescription {
        spec_wave_description(self.wave + 1, self.weapon_power_up_period as int)
    }

    /// One tick of the spawn director. While playing, once every
    /// wave-scoped entity (asteroid or enemy) is cleared, the wave counter
    /// increments by exactly one and the new wave's composition is
    /// computed and materialized: its asteroids, enemies, boss and
    /// power-ups enter the registry at points away from the player. In any
    /// other situation nothing changes, so the counter strictly increases
    /// exactly once per emptying while playing, and never otherwise.
    pub fn start_next_wave(&mut self) -> (r: Option<WaveDescription>)
        requires
            old(self).wf(),
            old(self).registry.can_spawn(spec_wave_spawn_total(old(self).spec_next_wave())),
            spec_wave_spawn_total(old(self).spec_next_wave()) <= usize::MAX,
        ensures
            final(self).wf(),
            r is Some <==> (old(self).state == GameState::Playing && spec_wave_cleared(
                old(self).registry@,
            ) && old(self).wave < u32::MAX),
            r is None ==> final(self).model() == old(self).model(),
            final(self).weapon_power_up_period == old(self).weapon_power_up_period,
            r matches Some(d) ==> ({
                let total = spec_wave_spawn_total(d);
                let next0 = old(self).registry.spec_next_handle();
                &&& d == spec_wave_description(
                    old(self).wave + 1,
                    old(self).weapon_power_up_period as int,
                )
                &&& final(self).wave == old(self).wave + 1
                &&& final(self).score == old(self).score
                &&& final(self).state == old(self).state
                &&& final(self).weapons.level == old(self).weapons.level
                &&& final(self).registry.spec_next_handle() == next0 + total
                &&& forall|h: u64| #[trigger] old(self).registry@.dom().contains(h)
                    ==> final(self).registry@.dom().contains(h) && final(self).registry@[h] == old(
                    self,
                ).registry@[h]
                &&& forall|i: int|
                    0 <= i < total ==> final(self).registry@.dom().contains(
                        (next0 + i) as u64,
                    ) && final(self).registry@[((next0 + i) as u64)].kind == spec_request_kind(
                        #[trigger] spec_wave_slot_kind(d, i),
                    ) && final(self).registry@[((next0 + i) as u64)].impact == Some(
                        spec_request_impact(spec_wave_slot_kind(d, i)),
                    )
                &&& forall|h: u64| #[trigger] final(self).registry@.dom().contains(h) ==> old(
                    self,
                ).registry@.dom().contains(h) || next0 <= h < next0 + total
            }),
    {
        if !matches!(self.state, GameState::Playing) {
            return None;
        }
        if self.registry.has_wave_scoped() {
            proof {
                assert(!spec_wave_cleared(old(self).registry@));
            }
            return None;
        }
        if self.wave == u32::MAX {
            return None;
        }
        self.wave = self.wave + 1;
        let d = compute_wave_description(self.wave, self.weapon_power_up_period);
        let player_pos = match self.registry.find_player() {
            Some((ph, ppos)) => {
                proof {
                    self.registry.lemma_wf_map();
                }
                ppos
            },
            None => WorldPoint { x: 0, y: 0 },
        };
        let reqs = plan_wave_spawns(&d, player_pos);
        let ghost m0 = self.registry@;
        let ghost next0 = self.registry.spec_next_handle();
        let hs = materialize(&mut self.registry, &reqs);
        proof {
            let m2 = self.registry@;
            let total = spec_wave_spawn_total(d);
            assert forall|h: u64|
                #[trigger] m2.dom().contains(h) && !m0.dom().contains(h) implies !(m2[h].kind
                is Shield) && !(m2[h].kind is Player) by {
                let j = (h - next0) as int;
                assert(hs@[j] == h);
                assert(m2[hs@[j]] == spec_request_record(reqs@[j], hs@[j]));
            }
            assert forall|h1: u64, h2: u64|
                #[trigger] m2.dom().contains(h1) && #[trigger] m2.dom().contains(h2) && m2[h1].kind
                    is Shield && m2[h2].kind is Shield implies h1 == h2 by {
                assert(m0.dom().contains(h1) && m0[h1] == m2[h1]);
                assert(m0.dom().contains(h2) && m0[h2] == m2[h2]);
            }
            assert forall|h1: u64, h2: u64|
                #[trigger] m2.dom().contains(h1) && #[trigger] m2.dom().contains(h2) && m2[h1].kind
                    is Player && m2[h2].kind is Player implies h1 == h2 by {
                assert(m0.dom().contains(h1) && m0[h1] == m2[h1]);
                assert(m0.dom().contains(h2) && m0[h2] == m2[h2]);
            }
            assert forall|i: int| 0 <= i < total implies m2.dom().contains((next0 + i) as u64)
                && m2[((next0 + i) as u64)].kind == spec_request_kind(
                #[trigger] spec_wave_slot_kind(d, i),
            ) && m2[((next0 + i) as u64)].impact == Some(
                spec_request_impact(spec_wave_slot_kind(d, i)),
            ) by {
                assert(hs@[i] == next0 + i);
                assert(m2[hs@[i]] == spec_request_record(reqs@[i], hs@[i]));
                assert(reqs@[i].kind == spec_wave_slot_kind(d, i));
            }
        }
        Some(d)
    }

    /// Ages every projectile by `delta_ms` of simulated time, despawning
    /// the expired ones. A projectile disappears the moment its lifetime
    /// exceeds its maximum, or on its first collision — whichever comes
    /// first, never both.
    pub fn tick_projectiles(&mut self, delta_ms: u32)
        requires
            old(self).wf(),
        ensures
            final(self).wf(),
            final(self).registry@ == projectile_step_map(old(self).registry@, delta_ms),
            final(self).model() == (GameModel {
                entities: final(self).registry@,
                ..old(self).model()
            }),
            final(self).weapon_power_up_period == old(self).weapon_power_up_period,
    {
        self.registry.tick_projectiles(delta_ms);
        proof {
            let m = old(self).registry@;
            let m2 = self.registry@;
            assert forall|h: u64| #[trigger] m2.dom().contains(h) implies m.dom().contains(h) && (
            m2[h].kind is Shield <==> m[h].kind is Shield) && (m2[h].kind is Player <==> m[h].kind
                is Player) by {}
            assert(at_most_one_shield(m2));
            assert(at_most_one_player(m2));
        }
    }
}

} // verus!
