//! Collision resolution: per-kind rules that turn a classified collision
//! pair into despawns and outcome events.
//!
//! Every unordered pair is visited from both sides; each side's rule reads
//! only its own record and the kind of the other party. Both sides are
//! classified against the registry state at notification time, and the
//! despawns take effect afterwards, so the two rules of one pair never see
//! each other's removal (deferred, mark-and-skip semantics).

use vstd::prelude::*;

use crate::classify::{classify_pair, damage_dealt_spec, CollisionParty};
use crate::events::{
    AsteroidDestroyedEvent, EnemyDamageEvent, ExplosionEvent, Outcome, PowerUpCollectedEvent,
    ScoreEvent, ShieldDamageEvent,
};
use crate::kinds::EntityType;
use crate::registry::{kind_tag, EntityKind, EntityRecord, Registry};

verus! {

/// The explosion request an entity emits, if it carries impact metadata;
/// an entity without it skips the explosion but all other outcomes of its
/// rule still proceed.
pub open spec fn explosion_at(rec: EntityRecord) -> Seq<Outcome> {
    match rec.impact {
        Some(ii) => seq![
            Outcome::Explosion(
                ExplosionEvent {
                    origin: rec.pos,
                    category: ii.impact_category,
                    substance: ii.substance,
                },
            ),
        ],
        None => seq![],
    }
}

/// Whether the rule of a party of this record despawns the party itself,
/// given the kind of the other side.
///
/// - An asteroid is destroyed by anything except a power-up.
/// - A projectile is spent on its first collision, whatever it hits.
/// - The player is destroyed by anything except a power-up.
/// - A power-up is consumed by anything except an asteroid.
/// - Enemies and shields never despawn here; damage tracking removes them
///   when their health or strength is exhausted.
pub open spec fn party_despawns(rec: EntityRecord, other: EntityType) -> bool {
    match rec.kind {
        EntityKind::Asteroid(_) => other != EntityType::PowerUp,
        EntityKind::Projectile(_) => true,
        EntityKind::Player => other != EntityType::PowerUp,
        EntityKind::Enemy(_) => false,
        EntityKind::Shield(_) => false,
        EntityKind::PowerUp(_) => other != EntityType::Asteroid,
    }
}

/// The outcome events one side of a classified pair emits, in order. `dmg`
/// is the damage dealt by the other party.
pub open spec fn party_events(rec: EntityRecord, other: EntityType, dmg: u16) -> Seq<Outcome> {
    match rec.kind {
        EntityKind::Asteroid(a) => if other == EntityType::PowerUp {
            seq![]
        } else {
            seq![
                Outcome::AsteroidDestroyed(
                    AsteroidDestroyedEvent { category: a.category, origin: rec.pos },
                ),
            ] + explosion_at(rec) + seq![Outcome::Score(ScoreEvent { score: a.score })]
        },
        EntityKind::Projectile(_) => explosion_at(rec),
        EntityKind::Enemy(_) => if other == EntityType::Shield {
            seq![]
        } else {
            seq![
                Outcome::EnemyDamage(
                    EnemyDamageEvent { entity: rec.handle, damage: dmg, by: other },
                ),
            ] + explosion_at(rec)
        },
        EntityKind::Shield(_) => seq![Outcome::ShieldDamage(ShieldDamageEvent { damage: dmg })],
        EntityKind::Player => if other == EntityType::PowerUp {
            seq![]
        } else {
            seq![Outcome::Score(ScoreEvent { score: 0 })] + explosion_at(rec) + seq![
                Outcome::PlayerDestroyed,
            ]
        },
        EntityKind::PowerUp(p) => if other == EntityType::Asteroid {
            seq![]
        } else {
            seq![
                Outcome::PowerUpCollected(
                    PowerUpCollectedEvent { entity: rec.handle, power_up_type: p.power_up_type },
                ),
            ] + explosion_at(rec)
        },
    }
}

/// A pair is resolved only when both handles are live; a side that
/// classifies to `Unknown` is a resolver inconsistency and drops the whole
/// notification without any outcome.
pub open spec fn pair_resolves(m: Map<u64, EntityRecord>, a: u64, b: u64) -> bool {
    m.dom().contains(a) && m.dom().contains(b)
}

/// All events a collision-started notification emits: the events of side
/// `a`'s rule, then of side `b`'s, or none at all for a dropped pair.
pub open spec fn resolve_events_spec(m: Map<u64, EntityRecord>, a: u64, b: u64) -> Seq<Outcome> {
    if pair_resolves(m, a, b) {
        party_events(m[a], kind_tag(m[b].kind), damage_dealt_spec(m, b)) + party_events(
            m[b],
            kind_tag(m[a].kind),
            damage_dealt_spec(m, a),
        )
    } else {
        seq![]
    }
}

/// The registry contents after the notification's despawns are applied.
pub open spec fn resolve_map_spec(m: Map<u64, EntityRecord>, a: u64, b: u64) -> Map<
    u64,
    EntityRecord,
> {
    if pair_resolves(m, a, b) {
        let m1 = if party_despawns(m[a], kind_tag(m[b].kind)) {
            m.remove(a)
        } else {
            m
        };
        if party_despawns(m[b], kind_tag(m[a].kind)) {
            m1.remove(b)
        } else {
            m1
        }
    } else {
        m
    }
}

/// Appends the outcome events of one classified party to `out`.
fn emit_party_events(party: &CollisionParty, out: &mut Vec<Outcome>)
    ensures
        final(out)@ == old(out)@ + party_events(party.record, party.other_kind, party.damage_dealt),
{
    let ghost before = out@;
    let rec = party.record;
    match rec.kind {
        EntityKind::Asteroid(a) => {
            if !matches!(party.other_kind, EntityType::PowerUp) {
                out.push(
                    Outcome::AsteroidDestroyed(
                        AsteroidDestroyedEvent { category: a.category, origin: rec.pos },
                    ),
                );
                emit_explosion(&rec, out);
                out.push(Outcome::Score(ScoreEvent { score: a.score }));
            }
        },
        EntityKind::Projectile(_) => {
            emit_explosion(&rec, out);
        },
        EntityKind::Enemy(_) => {
            if !matches!(party.other_kind, EntityType::Shield) {
                out.push(
                    Outcome::EnemyDamage(
                        EnemyDamageEvent {
                            entity: rec.handle,
                            damage: party.damage_dealt,
                            by: party.other_kind,
                        },
                    ),
                );
                emit_explosion(&rec, out);
            }
        },
        EntityKind::Shield(_) => {
            out.push(Outcome::ShieldDamage(ShieldDamageEvent { damage: party.damage_dealt }));
        },
        EntityKind::Player => {
            if !matches!(party.other_kind, EntityType::PowerUp) {
                out.push(Outcome::Score(ScoreEvent { score: 0 }));
                emit_explosion(&rec, out);
                out.push(Outcome::PlayerDestroyed);
            }
        },
        EntityKind::PowerUp(p) => {
            if !matches!(party.other_kind, EntityType::Asteroid) {
                out.push(
                    Outcome::PowerUpCollected(
                        PowerUpCollectedEvent {
                            entity: rec.handle,
                            power_up_type: p.power_up_type,
                        },
                    ),
                );
                emit_explosion(&rec, out);
            }
        },
    }
    proof {
        assert(out@ =~= before + party_events(party.record, party.other_kind, party.damage_dealt));
    }
}

/// Appends the explosion request of a record, if it carries impact
/// metadata; without it, the explosion is skipped and resolution proceeds.
fn emit_explosion(rec: &EntityRecord, out: &mut Vec<Outcome>)
    ensures
        final(out)@ == old(out)@ + explosion_at(*rec),
{
    let ghost before = out@;
    match rec.impact {
        Some(ii) => {
            out.push(
                Outcome::Explosion(
                    ExplosionEvent {
                        origin: rec.pos,
                        category: ii.impact_category,
                        substance: ii.substance,
                    },
                ),
            );
        },
        None => {},
    }
    proof {
        assert(out@ =~= before + explosion_at(*rec));
    }
}

/// Resolves one collision-started notification: classifies both handles,
/// applies each live side's rule, and despawns what the rules consumed.
///
/// A notification naming a handle that is not live produces no outcome and
/// leaves the registry unchanged.
pub fn resolve_collision(reg: &mut Registry, a: u64, b: u64) -> (ev: Vec<Outcome>)
    requires
        old(reg).wf(),
        a != b,
    ensures
        final(reg).wf(),
        final(reg)@ == resolve_map_spec(old(reg)@, a, b),
        final(reg).spec_next_handle() == old(reg).spec_next_handle(),
        ev@ == resolve_events_spec(old(reg)@, a, b),
{
    let parties = classify_pair(reg, a, b);
    let mut ev: Vec<Outcome> = Vec::new();
    if parties.len() < 2 {
        // At least one side is unclassifiable: drop the notification.
        return ev;
    }
    let pa = parties[0];
    let pb = parties[1];
    emit_party_events(&pa, &mut ev);
    emit_party_events(&pb, &mut ev);
    let despawn_a = party_despawns_exec(&pa);
    let despawn_b = party_despawns_exec(&pb);
    if despawn_a {
        reg.despawn(a);
    }
    if despawn_b {
        reg.despawn(b);
    }
    proof {
        assert(ev@ =~= resolve_events_spec(old(reg)@, a, b));
        assert(reg@ =~= resolve_map_spec(old(reg)@, a, b));
    }
    ev
}

/// Whether this party's rule despawns the party itself.
fn party_despawns_exec(party: &CollisionParty) -> (r: bool)
    ensures
        r == party_despawns(party.record, party.other_kind),
{
    match party.record.kind {
        EntityKind::Asteroid(_) => !matches!(party.other_kind, EntityType::PowerUp),
        EntityKind::Projectile(_) => true,
        EntityKind::Player => !matches!(party.other_kind, EntityType::PowerUp),
        EntityKind::Enemy(_) => false,
        EntityKind::Shield(_) => false,
        EntityKind::PowerUp(_) => !matches!(party.other_kind, EntityType::Asteroid),
    }
}

/// Destruction is idempotent: once a party's rule has despawned it, a later
/// notification naming the same handle resolves to nothing, so its score
/// and explosion cannot be emitted twice.
pub proof fn lemma_destruction_idempotent(m: Map<u64, EntityRecord>, a: u64, b: u64, c: u64)
    requires
        pair_resolves(m, a, b),
        party_despawns(m[a], kind_tag(m[b].kind)),
    ensures
        !resolve_map_spec(m, a, b).dom().contains(a),
        resolve_events_spec(resolve_map_spec(m, a, b), a, c) == Seq::<Outcome>::empty(),
        resolve_map_spec(resolve_map_spec(m, a, b), a, c) == resolve_map_spec(m, a, b),
{
    let m1 = resolve_map_spec(m, a, b);
    assert(!m1.dom().contains(a));
    assert(!pair_resolves(m1, a, c));
}

/// One side of a pair emits at most three events, so a notification emits
/// at most six.
pub proof fn lemma_resolve_events_len(m: Map<u64, EntityRecord>, a: u64, b: u64)
    ensures
        resolve_events_spec(m, a, b).len() <= 6,
{
    if pair_resolves(m, a, b) {
        assert(party_events(m[a], kind_tag(m[b].kind), damage_dealt_spec(m, b)).len() <= 3);
        assert(party_events(m[b], kind_tag(m[a].kind), damage_dealt_spec(m, a)).len() <= 3);
    }
}

/// A notification referencing a handle absent from the registry produces
/// zero outcome events and leaves every entity untouched.
pub proof fn lemma_unknown_party_safe(m: Map<u64, EntityRecord>, a: u64, b: u64)
    requires
        !m.dom().contains(a) || !m.dom().contains(b),
    ensures
        resolve_events_spec(m, a, b) == Seq::<Outcome>::empty(),
        resolve_map_spec(m, a, b) == m,
{
}

} // verus!
