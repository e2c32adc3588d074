//! The entity registry: the live set of simulation entities, each tagged
//! with its kind and kind-specific payload.
//!
//! The registry is modelled as a finite map from opaque handles to entity
//! records. Handles are allocated from a monotone counter and are never
//! reused, so a despawned handle stays dead for the rest of the run.

use vstd::prelude::*;

use crate::kinds::{Category, EntityType, ImpactInfo, PowerUpType};
use crate::world::{in_world, WorldPoint};

verus! {

/// Gameplay payload of an asteroid. Geometry and velocity are produced once
/// at spawn and handed straight to the physics collaborator; the registry
/// keeps only what collision resolution reads.
#[derive(Clone, Copy, Debug, PartialEq, Eq, Structural)]
pub struct AsteroidData {
    pub category: Category,
    pub score: u16,
}

/// Gameplay payload of an enemy. `health_points` stays positive while the
/// entity is alive; crossing zero despawns it exactly once.
#[derive(Clone, Copy, Debug, PartialEq, Eq, Structural)]
pub struct EnemyData {
    pub health_points: i16,
    /// Cruising speed, in world units per second; the physics collaborator
    /// steers the body toward the player at this speed.
    pub movement_speed: i64,
    pub score_points: u16,
    /// Contact damage this enemy deals to whatever it touches.
    pub contact_damage: u16,
}

/// Gameplay payload of a projectile. Lifetime is tracked in milliseconds;
/// a live projectile always satisfies `life_ms <= max_life_ms`.
#[derive(Clone, Copy, Debug, PartialEq, Eq, Structural)]
pub struct ProjectileData {
    pub damage: u16,
    pub life_ms: u32,
    pub max_life_ms: u32,
}

/// Gameplay payload of a collectible power-up.
#[derive(Clone, Copy, Debug, PartialEq, Eq, Structural)]
pub struct PowerUpData {
    pub power_up_type: PowerUpType,
}

/// Gameplay payload of the player's shield. A live shield always satisfies
/// `0 < strength <= max_strength`; reaching zero destroys the entity.
#[derive(Clone, Copy, Debug, PartialEq, Eq, Structural)]
pub struct ShieldData {
    pub strength: i16,
    pub max_strength: i16,
}

/// The closed set of entity kinds, with their payloads.
#[derive(Clone, Copy, Debug, PartialEq, Eq, Structural)]
pub enum EntityKind {
    Asteroid(AsteroidData),
    Projectile(ProjectileData),
    Enemy(EnemyData),
    Shield(ShieldData),
    Player,
    PowerUp(PowerUpData),
}

/// One live entity: its handle, kind, optional explosion metadata, and the
/// last position reported by the physics collaborator.
#[derive(Clone, Copy, Debug, PartialEq, Eq)]
pub struct EntityRecord {
    pub handle: u64,
    pub kind: EntityKind,
    pub impact: Option<ImpactInfo>,
    pub pos: WorldPoint,
}

/// Kind tag of a record, as resolver rules see the *other* collision party.
pub open spec fn kind_tag(k: EntityKind) -> EntityType {
    match k {
        EntityKind::Asteroid(_) => EntityType::Asteroid,
        EntityKind::Projectile(_) => EntityType::Projectile,
        EntityKind::Enemy(_) => EntityType::Enemy,
        EntityKind::Shield(_) => EntityType::Shield,
        EntityKind::Player => EntityType::Player,
        EntityKind::PowerUp(_) => EntityType::PowerUp,
    }
}

/// Damage an entity of this kind deals to whatever it touches: a
/// projectile its projectile damage, an enemy its contact damage, and
/// anything else a default of 1.
pub open spec fn damage_of_kind(k: EntityKind) -> u16 {
    match k {
        EntityKind::Projectile(p) => p.damage,
        EntityKind::Enemy(e) => e.contact_damage,
        _ => 1,
    }
}

/// Wave-scoped entities are asteroids and enemies: clearing all of them
/// triggers the next wave.
pub open spec fn is_wave_scoped(k: EntityKind) -> bool {
    k is Asteroid || k is Enemy
}

/// Payload invariant of a live entity.
pub open spec fn kind_wf(k: EntityKind) -> bool {
    match k {
        EntityKind::Enemy(e) => e.health_points > 0,
        EntityKind::Shield(s) => 0 < s.strength <= s.max_strength,
        EntityKind::Projectile(p) => p.life_ms <= p.max_life_ms,
        _ => true,
    }
}

/// Invariant of a stored record: valid payload and an in-bounds position.
pub open spec fn record_wf(r: EntityRecord) -> bool {
    &&& kind_wf(r.kind)
    &&& in_world(r.pos)
}

/// No two stored records share a handle.
pub open spec fn unique_handles(s: Seq<EntityRecord>) -> bool {
    forall|i: int, j: int| 0 <= i < j < s.len() ==> s[i].handle != s[j].handle
}

/// Whether some record of `s` carries handle `h`.
pub open spec fn has_handle(s: Seq<EntityRecord>, h: u64) -> bool {
    exists|i: int| 0 <= i < s.len() && (#[trigger] s[i]).handle == h
}

/// The handle-indexed map described by a record sequence; later records win,
/// though under `unique_handles` there is never a conflict.
pub open spec fn map_of(s: Seq<EntityRecord>) -> Map<u64, EntityRecord>
    decreases s.len(),
{
    if s.len() == 0 {
        Map::empty()
    } else {
        map_of(s.drop_last()).insert(s.last().handle, s.last())
    }
}

/// Map-level invariant exposed to clients of the registry: every stored
/// record is keyed by its own handle and satisfies the record invariant.
pub open spec fn map_wf(m: Map<u64, EntityRecord>) -> bool {
    forall|h: u64| #[trigger] m.dom().contains(h) ==> m[h].handle == h && record_wf(m[h])
}

/// `map_of` has exactly the handles of `s` in its domain, and under handle
/// uniqueness it maps each handle to the record that carries it.
pub proof fn lemma_map_of(s: Seq<EntityRecord>)
    ensures
        forall|h: u64| #[trigger] map_of(s).dom().contains(h) <==> has_handle(s, h),
        unique_handles(s) ==> forall|i: int|
            0 <= i < s.len() ==> map_of(s)[(#[trigger] s[i]).handle] == s[i],
    decreases s.len(),
{
    if s.len() > 0 {
        let t = s.drop_last();
        let last = s.last();
        lemma_map_of(t);
        assert(map_of(s) == map_of(t).insert(last.handle, last));
        assert forall|h: u64| #[trigger] map_of(s).dom().contains(h) implies has_handle(s, h) by {
            if h == last.handle {
                assert(s[s.len() - 1].handle == h);
            } else {
                assert(map_of(t).dom().contains(h));
                assert(has_handle(t, h));
                let i = choose|i: int| 0 <= i < t.len() && (#[trigger] t[i]).handle == h;
                assert(s[i].handle == h);
            }
        }
        assert forall|h: u64| has_handle(s, h) implies #[trigger] map_of(s).dom().contains(h) by {
            let i = choose|i: int| 0 <= i < s.len() && (#[trigger] s[i]).handle == h;
            if i < s.len() - 1 {
                assert(t[i].handle == h);
            }
        }
        if unique_handles(s) {
            assert(unique_handles(t)) by {
                assert(forall|i: int| 0 <= i < t.len() ==> t[i] == s[i]);
            }
            assert forall|i: int| 0 <= i < s.len() implies map_of(s)[(#[trigger] s[i]).handle]
                == s[i] by {
                if i < s.len() - 1 {
                    assert(s[i].handle != last.handle);
                    assert(t[i] == s[i]);
                    assert(map_of(t)[t[i].handle] == t[i]);
                }
            }
        }
    }
}

/// Appending a record extends the described map by that record's handle.
pub proof fn lemma_map_of_push(s: Seq<EntityRecord>, r: EntityRecord)
    ensures
        map_of(s.push(r)) == map_of(s).insert(r.handle, r),
{
    assert(s.push(r).drop_last() =~= s);
    assert(s.push(r).last() == r);
}

/// Extending a prefix of `s` by one record inserts that record's handle.
pub proof fn lemma_map_of_take_step(s: Seq<EntityRecord>, i: int)
    requires
        0 <= i < s.len(),
    ensures
        map_of(s.take(i + 1)) == map_of(s.take(i)).insert(s[i].handle, s[i]),
{
    assert(s.take(i + 1).drop_last() =~= s.take(i));
    assert(s.take(i + 1).last() == s[i]);
}

/// The live entity set, plus the monotone handle allocator.
pub struct Registry {
    entries: Vec<EntityRecord>,
    next_handle: u64,
}

impl View for Registry {
    type V = Map<u64, EntityRecord>;

    closed spec fn view(&self) -> Map<u64, EntityRecord> {
        map_of(self.entries@)
    }
}

impl Registry {
    /// The next handle the registry would allocate; every live handle is
    /// strictly below it.
    pub closed spec fn spec_next_handle(&self) -> u64 {
        self.next_handle
    }

    /// Room to allocate `n` more handles.
    pub open spec fn can_spawn(&self, n: int) -> bool {
        self.spec_next_handle() + n <= u64::MAX
    }

    /// Structural invariant of the registry.
    pub closed spec fn wf(&self) -> bool {
        &&& unique_handles(self.entries@)
        &&& forall|i: int|
            0 <= i < self.entries@.len() ==> record_wf(#[trigger] self.entries@[i])
                && self.entries@[i].handle < self.next_handle
    }

    /// A well-formed registry presents a well-formed map, all of whose
    /// handles are below the allocation counter.
    pub proof fn lemma_wf_map(&self)
        requires
            self.wf(),
        ensures
            map_wf(self@),
            forall|h: u64| #[trigger] self@.dom().contains(h) ==> h < self.spec_next_handle(),
    {
        lemma_map_of(self.entries@);
        assert forall|h: u64| #[trigger] self@.dom().contains(h) implies self@[h].handle == h
            && record_wf(self@[h]) && h < self.spec_next_handle() by {
            let i = choose|i: int|
                0 <= i < self.entries@.len() && (#[trigger] self.entries@[i]).handle == h;
            assert(self@[self.entries@[i].handle] == self.entries@[i]);
        }
    }

    /// An empty registry.
    pub fn new() -> (r: Registry)
        ensures
            r.wf(),
            r@ == Map::<u64, EntityRecord>::empty(),
            r.spec_next_handle() == 0,
    {
        let r = Registry { entries: Vec::new(), next_handle: 0 };
        proof {
            assert(r.entries@.len() == 0);
        }
        r
    }

    /// Number of live entities.
    pub fn len(&self) -> (n: usize)
        requires
            self.wf(),
        ensures
            n == self@.dom().len(),
    {
        proof {
            lemma_map_of_len(self.entries@);
        }
        self.entries.len()
    }

    /// The next handle the registry will allocate.
    pub fn next_handle(&self) -> (h: u64)
        ensures
            h == self.spec_next_handle(),
    {
        self.next_handle
    }

    /// A snapshot of every live record, for iteration by the embedding
    /// (rendering, physics mirroring) and by tests.
    pub fn snapshot(&self) -> (r: Vec<EntityRecord>)
        requires
            self.wf(),
        ensures
            r@.len() == self@.dom().len(),
            forall|i: int|
                0 <= i < r@.len() ==> self@.dom().contains((#[trigger] r@[i]).handle)
                    && self@[r@[i].handle] == r@[i],
            forall|h: u64| #[trigger] self@.dom().contains(h) ==> exists|i: int|
                0 <= i < r@.len() && r@[i].handle == h,
    {
        proof {
            lemma_map_of(self.entries@);
            lemma_map_of_len(self.entries@);
        }
        let n = self.entries.len();
        let mut out: Vec<EntityRecord> = Vec::new();
        let mut i: usize = 0;
        while i < n
            invariant
                self.wf(),
                n == self.entries@.len(),
                i <= n,
                out@ == self.entries@.take(i as int),
            decreases n - i,
        {
            out.push(self.entries[i]);
            proof {
                assert(out@ =~= self.entries@.take(i as int + 1));
            }
            i = i + 1;
        }
        proof {
            assert(out@ =~= self.entries@);
            assert forall|h: u64| #[trigger] self@.dom().contains(h) implies exists|i: int|
                0 <= i < out@.len() && out@[i].handle == h by {
                let j = choose|j: int|
                    0 <= j < self.entries@.len() && (#[trigger] self.entries@[j]).handle == h;
                assert(out@[j].handle == h);
            }
        }
        out
    }

    /// Looks a handle up, returning the record that carries it, if any.
    pub fn lookup(&self, h: u64) -> (r: Option<EntityRecord>)
        requires
            self.wf(),
        ensures
            r is Some <==> self@.dom().contains(h),
            r matches Some(rec) ==> rec == self@[h],
    {
        proof {
            lemma_map_of(self.entries@);
        }
        let n = self.entries.len();
        let mut i: usize = 0;
        while i < n
            invariant
                self.wf(),
                n == self.entries@.len(),
                i <= n,
                forall|j: int| 0 <= j < i ==> (#[trigger] self.entries@[j]).handle != h,
                forall|hh: u64| #[trigger] self@.dom().contains(hh) <==> has_handle(
                    self.entries@,
                    hh,
                ),
                unique_handles(self.entries@) ==> forall|j: int|
                    0 <= j < self.entries@.len() ==> self@[(#[trigger] self.entries@[j]).handle]
                        == self.entries@[j],
            decreases n - i,
        {
            let rec = self.entries[i];
            if rec.handle == h {
                return Some(rec);
            }
            i = i + 1;
        }
        proof {
            assert(!has_handle(self.entries@, h));
        }
        None
    }

    /// Whether a handle is live.
    pub fn contains(&self, h: u64) -> (r: bool)
        requires
            self.wf(),
        ensures
            r == self@.dom().contains(h),
    {
        self.lookup(h).is_some()
    }

    /// Spawns a fresh entity and returns its handle, which was not live
    /// before the call.
    pub fn spawn(&mut self, kind: EntityKind, impact: Option<ImpactInfo>, pos: WorldPoint) -> (h:
        u64)
        requires
            old(self).wf(),
            old(self).can_spawn(1),
            kind_wf(kind),
            in_world(pos),
        ensures
            final(self).wf(),
            h == old(self).spec_next_handle(),
            !old(self)@.dom().contains(h),
            final(self)@ == old(self)@.insert(
                h,
                EntityRecord { handle: h, kind, impact, pos },
            ),
            final(self).spec_next_handle() == old(self).spec_next_handle() + 1,
    {
        let h = self.next_handle;
        let rec = EntityRecord { handle: h, kind, impact, pos };
        proof {
            lemma_map_of(self.entries@);
            lemma_map_of_push(self.entries@, rec);
            assert(!has_handle(self.entries@, h));
        }
        self.entries.push(rec);
        self.next_handle = self.next_handle + 1;
        h
    }

    /// Re-inserts a record under its original handle; used to update an
    /// entity in place after a despawn. The handle must already have been
    /// allocated once, so the allocator is not disturbed.
    fn insert_record(&mut self, rec: EntityRecord)
        requires
            old(self).wf(),
            !old(self)@.dom().contains(rec.handle),
            rec.handle < old(self).spec_next_handle(),
            record_wf(rec),
        ensures
            final(self).wf(),
            final(self)@ == old(self)@.insert(rec.handle, rec),
            final(self).spec_next_handle() == old(self).spec_next_handle(),
    {
        proof {
            lemma_map_of(self.entries@);
            lemma_map_of_push(self.entries@, rec);
            assert(!has_handle(self.entries@, rec.handle));
        }
        self.entries.push(rec);
    }

    /// Removes the entity with handle `h`, if live; a dead or unknown
    /// handle leaves the registry unchanged.
    pub fn despawn(&mut self, h: u64)
        requires
            old(self).wf(),
        ensures
            final(self).wf(),
            final(self)@ == old(self)@.remove(h),
            final(self).spec_next_handle() == old(self).spec_next_handle(),
    {
        let ghost s = self.entries@;
        proof {
            lemma_map_of(s);
        }
        let n = self.entries.len();
        let mut kept: Vec<EntityRecord> = Vec::new();
        let mut i: usize = 0;
        while i < n
            invariant
                self.wf(),
                s == self.entries@,
                n == s.len(),
                i <= n,
                map_of(kept@) == map_of(s.take(i as int)).remove(h),
                unique_handles(kept@),
                forall|j: int|
                    0 <= j < kept@.len() ==> record_wf(#[trigger] kept@[j]) && kept@[j].handle
                        < self.next_handle,
                forall|j: int| 0 <= j < kept@.len() ==> has_handle(s.take(i as int), kept@[j].handle),
            decreases n - i,
        {
            let rec = self.entries[i];
            proof {
                lemma_map_of_take_step(s, i as int);
            }
            if rec.handle != h {
                proof {
                    // The new record's handle is absent from `kept`: every kept
                    // handle stems from an earlier index of `s`, and handles in
                    // `s` are unique.
                    assert forall|j: int| 0 <= j < kept@.len() implies (#[trigger] kept@[j]).handle
                        != rec.handle by {
                        let k = choose|k: int|
                            0 <= k < s.take(i as int).len() && (#[trigger] s.take(i as int)[k]).handle
                                == kept@[j].handle;
                        assert(s[k] == s.take(i as int)[k]);
                    }
                    lemma_map_of_push(kept@, rec);
                    assert(map_of(kept@.push(rec)) =~= map_of(s.take(i as int + 1)).remove(h));
                    assert forall|j: int| 0 <= j < kept@.push(rec).len() implies has_handle(
                        s.take(i as int + 1),
                        (#[trigger] kept@.push(rec)[j]).handle,
                    ) by {
                        if j < kept@.len() {
                            let k = choose|k: int|
                                0 <= k < s.take(i as int).len() && (#[trigger] s.take(
                                    i as int,
                                )[k]).handle == kept@[j].handle;
                            assert(s.take(i as int + 1)[k].handle == kept@[j].handle);
                        } else {
                            assert(s.take(i as int + 1)[i as int].handle == rec.handle);
                        }
                    }
                }
                kept.push(rec);
            } else {
                proof {
                    assert(map_of(kept@) =~= map_of(s.take(i as int + 1)).remove(h));
                }
            }
            i = i + 1;
        }
        proof {
            assert(s.take(n as int) =~= s);
        }
        self.entries = kept;
    }

    /// Replaces the payload of the live entity `h`, keeping its impact
    /// metadata and position.
    pub fn update_kind(&mut self, h: u64, kind: EntityKind)
        requires
            old(self).wf(),
            old(self)@.dom().contains(h),
            kind_wf(kind),
        ensures
            final(self).wf(),
            final(self)@ == old(self)@.insert(
                h,
                EntityRecord {
                    handle: h,
                    kind,
                    impact: old(self)@[h].impact,
                    pos: old(self)@[h].pos,
                },
            ),
            final(self).spec_next_handle() == old(self).spec_next_handle(),
    {
        proof {
            self.lemma_wf_map();
        }
        let rec = self.lookup(h).unwrap();
        self.despawn(h);
        let updated = EntityRecord { handle: rec.handle, kind, impact: rec.impact, pos: rec.pos };
        self.insert_record(updated);
        proof {
            assert(final(self)@ =~= old(self)@.insert(h, updated));
        }
    }

    /// Records the position the physics collaborator last reported for a
    /// live entity.
    pub fn update_position(&mut self, h: u64, pos: WorldPoint)
        requires
            old(self).wf(),
            old(self)@.dom().contains(h),
            in_world(pos),
        ensures
            final(self).wf(),
            final(self)@ == old(self)@.insert(
                h,
                EntityRecord {
                    handle: h,
                    kind: old(self)@[h].kind,
                    impact: old(self)@[h].impact,
                    pos,
                },
            ),
            final(self).spec_next_handle() == old(self).spec_next_handle(),
    {
        proof {
            self.lemma_wf_map();
        }
        let rec = self.lookup(h).unwrap();
        self.despawn(h);
        let updated = EntityRecord { handle: rec.handle, kind: rec.kind, impact: rec.impact, pos };
        self.insert_record(updated);
        proof {
            assert(final(self)@ =~= old(self)@.insert(h, updated));
        }
    }

    /// Whether any wave-scoped entity (asteroid or enemy) is live; the wave
    /// director advances only when none is.
    pub fn has_wave_scoped(&self) -> (r: bool)
        requires
            self.wf(),
        ensures
            r == exists|h: u64|
                #[trigger] self@.dom().contains(h) && is_wave_scoped(self@[h].kind),
    {
        proof {
            lemma_map_of(self.entries@);
        }
        let n = self.entries.len();
        let mut i: usize = 0;
        while i < n
            invariant
                self.wf(),
                n == self.entries@.len(),
                i <= n,
                forall|j: int| 0 <= j < i ==> !is_wave_scoped((#[trigger] self.entries@[j]).kind),
                forall|hh: u64| #[trigger] self@.dom().contains(hh) <==> has_handle(
                    self.entries@,
                    hh,
                ),
                forall|j: int|
                    0 <= j < self.entries@.len() ==> self@[(#[trigger] self.entries@[j]).handle]
                        == self.entries@[j],
            decreases n - i,
        {
            let rec = self.entries[i];
            if matches!(rec.kind, EntityKind::Asteroid(_) | EntityKind::Enemy(_)) {
                proof {
                    assert(self@.dom().contains(rec.handle) && is_wave_scoped(
                        self@[rec.handle].kind,
                    ));
                }
                return true;
            }
            i = i + 1;
        }
        proof {
            assert forall|h: u64| #[trigger] self@.dom().contains(h) implies !is_wave_scoped(
                self@[h].kind,
            ) by {
                let j = choose|j: int|
                    0 <= j < self.entries@.len() && (#[trigger] self.entries@[j]).handle == h;
                assert(!is_wave_scoped(self.entries@[j].kind));
            }
        }
        false
    }

    /// Handles of all live entities satisfying the given kind class, for
    /// bulk despawns and scans. The classes are closed so that contracts
    /// stay first-order.
    fn handles_matching(&self, wave_scoped: bool, power_ups: bool) -> (r: Vec<u64>)
        requires
            self.wf(),
            wave_scoped != power_ups,
        ensures
            forall|h: u64| #[trigger] r@.contains(h) <==> self@.dom().contains(h) && (if wave_scoped {
                is_wave_scoped(self@[h].kind)
            } else {
                self@[h].kind is PowerUp
            }),
    {
        proof {
            lemma_map_of(self.entries@);
        }
        let n = self.entries.len();
        let mut out: Vec<u64> = Vec::new();
        let mut i: usize = 0;
        while i < n
            invariant
                self.wf(),
                wave_scoped != power_ups,
                n == self.entries@.len(),
                i <= n,
                forall|hh: u64| #[trigger] self@.dom().contains(hh) <==> has_handle(
                    self.entries@,
                    hh,
                ),
                forall|j: int|
                    0 <= j < self.entries@.len() ==> self@[(#[trigger] self.entries@[j]).handle]
                        == self.entries@[j],
                forall|h: u64| #[trigger] out@.contains(h) ==> self@.dom().contains(h) && (
                if wave_scoped {
                    is_wave_scoped(self@[h].kind)
                } else {
                    self@[h].kind is PowerUp
                }),
                forall|j: int|
                    0 <= j < i ==> ((if wave_scoped {
                        is_wave_scoped((#[trigger] self.entries@[j]).kind)
                    } else {
                        self.entries@[j].kind is PowerUp
                    }) ==> out@.contains(self.entries@[j].handle)),
            decreases n - i,
        {
            let rec = self.entries[i];
            let selected = if wave_scoped {
                matches!(rec.kind, EntityKind::Asteroid(_) | EntityKind::Enemy(_))
            } else {
                matches!(rec.kind, EntityKind::PowerUp(_))
            };
            if selected {
                let ghost prev = out@;
                out.push(rec.handle);
                proof {
                    assert(out@ == prev.push(rec.handle));
                    assert(out@.contains(rec.handle)) by {
                        assert(out@[prev.len() as int] == rec.handle);
                    }
                    assert forall|h: u64| #[trigger] out@.contains(h) && h != rec.handle implies
                        prev.contains(h) by {
                        let j = choose|j: int| 0 <= j < out@.len() && #[trigger] out@[j] == h;
                        assert(prev[j] == h);
                    }
                    assert forall|h: u64| #[trigger] prev.contains(h) implies out@.contains(h) by {
                        let j = choose|j: int| 0 <= j < prev.len() && #[trigger] prev[j] == h;
                        assert(out@[j] == h);
                    }
                }
            }
            i = i + 1;
        }
        proof {
            assert forall|h: u64|
                self@.dom().contains(h) && (if wave_scoped {
                    is_wave_scoped(self@[h].kind)
                } else {
                    self@[h].kind is PowerUp
                }) implies #[trigger] out@.contains(h) by {
                let j = choose|j: int|
                    0 <= j < self.entries@.len() && (#[trigger] self.entries@[j]).handle == h;
            }
        }
        out
    }

    /// Despawns every wave-scoped entity (asteroids and enemies), leaving
    /// the player, projectiles and power-ups alone.
    pub fn clear_wave_scoped(&mut self)
        requires
            old(self).wf(),
        ensures
            final(self).wf(),
            final(self).spec_next_handle() == old(self).spec_next_handle(),
            forall|h: u64| #[trigger] final(self)@.dom().contains(h) <==> (old(
                self,
            )@.dom().contains(h) && !is_wave_scoped(old(self)@[h].kind)),
            forall|h: u64| #[trigger] final(self)@.dom().contains(h) ==> final(self)@[h] == old(
                self,
            )@[h],
    {
        let hs = self.handles_matching(true, false);
        self.despawn_all(&hs);
    }

    /// Despawns every power-up entity.
    pub fn clear_power_ups(&mut self)
        requires
            old(self).wf(),
        ensures
            final(self).wf(),
            final(self).spec_next_handle() == old(self).spec_next_handle(),
            forall|h: u64| #[trigger] final(self)@.dom().contains(h) <==> (old(
                self,
            )@.dom().contains(h) && !(old(self)@[h].kind is PowerUp)),
            forall|h: u64| #[trigger] final(self)@.dom().contains(h) ==> final(self)@[h] == old(
                self,
            )@[h],
    {
        let hs = self.handles_matching(false, true);
        self.despawn_all(&hs);
    }

    /// Despawns every handle in the list.
    fn despawn_all(&mut self, hs: &Vec<u64>)
        requires
            old(self).wf(),
        ensures
            final(self).wf(),
            final(self).spec_next_handle() == old(self).spec_next_handle(),
            forall|h: u64| #[trigger] final(self)@.dom().contains(h) <==> (old(
                self,
            )@.dom().contains(h) && !hs@.contains(h)),
            forall|h: u64| #[trigger] final(self)@.dom().contains(h) ==> final(self)@[h] == old(
                self,
            )@[h],
    {
        let n = hs.len();
        let mut i: usize = 0;
        while i < n
            invariant
                self.wf(),
                n == hs@.len(),
                i <= n,
                self.spec_next_handle() == old(self).spec_next_handle(),
                forall|h: u64| #[trigger] self@.dom().contains(h) <==> (old(self)@.dom().contains(h)
                    && !hs@.take(i as int).contains(h)),
                forall|h: u64| #[trigger] self@.dom().contains(h) ==> self@[h] == old(self)@[h],
            decreases n - i,
        {
            let h = hs[i];
            self.despawn(h);
            proof {
                assert forall|hh: u64| hs@.take(i as int + 1).contains(hh) implies hs@.take(
                    i as int,
                ).contains(hh) || hh == hs@[i as int] by {
                    let j = choose|j: int|
                        0 <= j < i as int + 1 && #[trigger] hs@.take(i as int + 1)[j] == hh;
                    if j < i as int {
                        assert(hs@.take(i as int)[j] == hh);
                    }
                }
                assert forall|hh: u64| hs@.take(i as int).contains(hh) implies hs@.take(
                    i as int + 1,
                ).contains(hh) by {
                    let j = choose|j: int| 0 <= j < i as int && hs@.take(i as int)[j] == hh;
                    assert(hs@.take(i as int + 1)[j] == hh);
                }
                assert(hs@.take(i as int + 1).contains(hs@[i as int])) by {
                    assert(hs@.take(i as int + 1)[i as int] == hs@[i as int]);
                }
            }
            i = i + 1;
        }
        proof {
            assert(hs@.take(n as int) =~= hs@);
        }
    }
}

/// Whether some live entity is a shield.
pub open spec fn has_shield(m: Map<u64, EntityRecord>) -> bool {
    exists|h: u64| #[trigger] m.dom().contains(h) && m[h].kind is Shield
}

/// Whether some live entity is the player.
pub open spec fn has_player(m: Map<u64, EntityRecord>) -> bool {
    exists|h: u64| #[trigger] m.dom().contains(h) && m[h].kind is Player
}

/// At most one live shield exists; maintained by the game layer, which
/// attaches a shield only when none is present.
pub open spec fn at_most_one_shield(m: Map<u64, EntityRecord>) -> bool {
    forall|h1: u64, h2: u64|
        #[trigger] m.dom().contains(h1) && #[trigger] m.dom().contains(h2) && m[h1].kind is Shield
            && m[h2].kind is Shield ==> h1 == h2
}

/// At most one live player exists.
pub open spec fn at_most_one_player(m: Map<u64, EntityRecord>) -> bool {
    forall|h1: u64, h2: u64|
        #[trigger] m.dom().contains(h1) && #[trigger] m.dom().contains(h2) && m[h1].kind is Player
            && m[h2].kind is Player ==> h1 == h2
}

/// The handle of the shield, meaningful when one exists and is unique.
pub open spec fn spec_shield_handle(m: Map<u64, EntityRecord>) -> u64 {
    choose|h: u64| #[trigger] m.dom().contains(h) && m[h].kind is Shield
}

/// The handle of the player, meaningful when one exists and is unique.
pub open spec fn spec_player_handle(m: Map<u64, EntityRecord>) -> u64 {
    choose|h: u64| #[trigger] m.dom().contains(h) && m[h].kind is Player
}

/// Whether a projectile outlives one more `delta_ms` of simulated time;
/// non-projectiles always do.
pub open spec fn projectile_survives(k: EntityKind, delta_ms: u32) -> bool {
    match k {
        EntityKind::Projectile(p) => p.life_ms + delta_ms <= p.max_life_ms,
        _ => true,
    }
}

/// The payload after one `delta_ms` of lifetime accounting.
pub open spec fn projectile_step_kind(k: EntityKind, delta_ms: u32) -> EntityKind {
    match k {
        EntityKind::Projectile(p) => EntityKind::Projectile(
            ProjectileData {
                damage: p.damage,
                life_ms: (p.life_ms + delta_ms) as u32,
                max_life_ms: p.max_life_ms,
            },
        ),
        _ => k,
    }
}

/// The registry contents after one lifetime tick: expired projectiles are
/// gone, surviving projectiles have aged, everything else is untouched.
pub open spec fn projectile_step_map(m: Map<u64, EntityRecord>, delta_ms: u32) -> Map<
    u64,
    EntityRecord,
> {
    Map::new(
        |h: u64| m.dom().contains(h) && projectile_survives(m[h].kind, delta_ms),
        |h: u64|
            EntityRecord {
                handle: m[h].handle,
                kind: projectile_step_kind(m[h].kind, delta_ms),
                impact: m[h].impact,
                pos: m[h].pos,
            },
    )
}

impl Registry {
    /// The live shield, if any: its handle and payload.
    pub fn find_shield(&self) -> (r: Option<(u64, ShieldData)>)
        requires
            self.wf(),
        ensures
            r is Some <==> has_shield(self@),
            r matches Some((h, s)) ==> self@.dom().contains(h) && self@[h].kind
                == EntityKind::Shield(s),
    {
        proof {
            lemma_map_of(self.entries@);
        }
        let n = self.entries.len();
        let mut i: usize = 0;
        while i < n
            invariant
                self.wf(),
                n == self.entries@.len(),
                i <= n,
                forall|j: int| 0 <= j < i ==> !((#[trigger] self.entries@[j]).kind is Shield),
                forall|hh: u64| #[trigger] self@.dom().contains(hh) <==> has_handle(
                    self.entries@,
                    hh,
                ),
                forall|j: int|
                    0 <= j < self.entries@.len() ==> self@[(#[trigger] self.entries@[j]).handle]
                        == self.entries@[j],
            decreases n - i,
        {
            let rec = self.entries[i];
            if let EntityKind::Shield(s) = rec.kind {
                proof {
                    assert(self@.dom().contains(rec.handle) && self@[rec.handle].kind is Shield);
                }
                return Some((rec.handle, s));
            }
            i = i + 1;
        }
        proof {
            assert forall|h: u64| #[trigger] self@.dom().contains(h) implies !(self@[h].kind
                is Shield) by {
                let j = choose|j: int|
                    0 <= j < self.entries@.len() && (#[trigger] self.entries@[j]).handle == h;
            }
        }
        None
    }

    /// The live player, if any: its handle and last known position.
    pub fn find_player(&self) -> (r: Option<(u64, WorldPoint)>)
        requires
            self.wf(),
        ensures
            r is Some <==> has_player(self@),
            r matches Some((h, p)) ==> self@.dom().contains(h) && self@[h].kind
                == EntityKind::Player && p == self@[h].pos,
    {
        proof {
            lemma_map_of(self.entries@);
        }
        let n = self.entries.len();
        let mut i: usize = 0;
        while i < n
            invariant
                self.wf(),
                n == self.entries@.len(),
                i <= n,
                forall|j: int| 0 <= j < i ==> !((#[trigger] self.entries@[j]).kind is Player),
                forall|hh: u64| #[trigger] self@.dom().contains(hh) <==> has_handle(
                    self.entries@,
                    hh,
                ),
                forall|j: int|
                    0 <= j < self.entries@.len() ==> self@[(#[trigger] self.entries@[j]).handle]
                        == self.entries@[j],
            decreases n - i,
        {
            let rec = self.entries[i];
            if matches!(rec.kind, EntityKind::Player) {
                proof {
                    assert(self@.dom().contains(rec.handle) && self@[rec.handle].kind is Player);
                }
                return Some((rec.handle, rec.pos));
            }
            i = i + 1;
        }
        proof {
            assert forall|h: u64| #[trigger] self@.dom().contains(h) implies !(self@[h].kind
                is Player) by {
                let j = choose|j: int|
                    0 <= j < self.entries@.len() && (#[trigger] self.entries@[j]).handle == h;
            }
        }
        None
    }

    /// Ages every projectile by `delta_ms`, despawning the ones whose
    /// lifetime is exhausted; a projectile is removed the instant its
    /// accumulated life exceeds its maximum.
    pub fn tick_projectiles(&mut self, delta_ms: u32)
        requires
            old(self).wf(),
        ensures
            final(self).wf(),
            final(self).spec_next_handle() == old(self).spec_next_handle(),
            final(self)@ == projectile_step_map(old(self)@, delta_ms),
    {
        let ghost s = self.entries@;
        proof {
            lemma_map_of(s);
        }
        let n = self.entries.len();
        let mut kept: Vec<EntityRecord> = Vec::new();
        let mut i: usize = 0;
        while i < n
            invariant
                self.wf(),
                s == self.entries@,
                n == s.len(),
                i <= n,
                map_of(kept@) == projectile_step_map(map_of(s.take(i as int)), delta_ms),
                unique_handles(kept@),
                forall|j: int|
                    0 <= j < kept@.len() ==> record_wf(#[trigger] kept@[j]) && kept@[j].handle
                        < self.next_handle,
                forall|j: int| 0 <= j < kept@.len() ==> has_handle(s.take(i as int), kept@[j].handle),
            decreases n - i,
        {
            let rec = self.entries[i];
            proof {
                lemma_map_of_take_step(s, i as int);
            }
            let survives = match rec.kind {
                EntityKind::Projectile(p) => delta_ms <= p.max_life_ms && p.life_ms
                    <= p.max_life_ms - delta_ms,
                _ => true,
            };
            if survives {
                let stepped_kind = match rec.kind {
                    EntityKind::Projectile(p) => EntityKind::Projectile(
                        ProjectileData {
                            damage: p.damage,
                            life_ms: p.life_ms + delta_ms,
                            max_life_ms: p.max_life_ms,
                        },
                    ),
                    other => other,
                };
                let stepped = EntityRecord {
                    handle: rec.handle,
                    kind: stepped_kind,
                    impact: rec.impact,
                    pos: rec.pos,
                };
                proof {
                    assert forall|j: int| 0 <= j < kept@.len() implies (#[trigger] kept@[j]).handle
                        != stepped.handle by {
                        let k = choose|k: int|
                            0 <= k < s.take(i as int).len() && (#[trigger] s.take(i as int)[k]).handle
                                == kept@[j].handle;
                        assert(s[k] == s.take(i as int)[k]);
                    }
                    lemma_map_of_push(kept@, stepped);
                    assert(map_of(kept@.push(stepped)) =~= projectile_step_map(
                        map_of(s.take(i as int + 1)),
                        delta_ms,
                    ));
                    assert forall|j: int| 0 <= j < kept@.push(stepped).len() implies has_handle(
                        s.take(i as int + 1),
                        (#[trigger] kept@.push(stepped)[j]).handle,
                    ) by {
                        if j < kept@.len() {
                            let k = choose|k: int|
                                0 <= k < s.take(i as int).len() && (#[trigger] s.take(
                                    i as int,
                                )[k]).handle == kept@[j].handle;
                            assert(s.take(i as int + 1)[k].handle == kept@[j].handle);
                        } else {
                            assert(s.take(i as int + 1)[i as int].handle == stepped.handle);
                        }
                    }
                }
                kept.push(stepped);
            } else {
                proof {
                    assert forall|j: int| 0 <= j < kept@.len() implies (#[trigger] kept@[j]).handle
                        != rec.handle by {
                        let k = choose|k: int|
                            0 <= k < s.take(i as int).len() && (#[trigger] s.take(i as int)[k]).handle
                                == kept@[j].handle;
                        assert(s[k] == s.take(i as int)[k]);
                    }
                    lemma_map_of(s.take(i as int));
                    assert(!map_of(s.take(i as int)).dom().contains(rec.handle)) by {
                        if has_handle(s.take(i as int), rec.handle) {
                            let k = choose|k: int|
                                0 <= k < s.take(i as int).len() && (#[trigger] s.take(
                                    i as int,
                                )[k]).handle == rec.handle;
                            assert(s[k] == s.take(i as int)[k]);
                        }
                    }
                    assert(map_of(kept@) =~= projectile_step_map(
                        map_of(s.take(i as int + 1)),
                        delta_ms,
                    ));
                    assert forall|j: int| 0 <= j < kept@.len() implies has_handle(
                        s.take(i as int + 1),
                        (#[trigger] kept@[j]).handle,
                    ) by {
                        let k = choose|k: int|
                            0 <= k < s.take(i as int).len() && (#[trigger] s.take(i as int)[k]).handle
                                == kept@[j].handle;
                        assert(s.take(i as int + 1)[k].handle == kept@[j].handle);
                    }
                }
            }
            i = i + 1;
        }
        proof {
            assert(s.take(n as int) =~= s);
        }
        self.entries = kept;
    }
}

/// The payload of a shield record; zeroes for any other kind.
pub open spec fn spec_shield_data(k: EntityKind) -> ShieldData {
    match k {
        EntityKind::Shield(s) => s,
        _ => ShieldData { strength: 0, max_strength: 0 },
    }
}

/// Shield strength bounds: every live shield satisfies
/// `0 < strength <= max_strength`. A shield entity exists only while its
/// strength is positive — damage tracking despawns it the moment its
/// strength would reach zero — so existence and positive strength
/// coincide.
pub proof fn lemma_shield_strength_bounds(m: Map<u64, EntityRecord>)
    requires
        map_wf(m),
    ensures
        forall|h: u64|
            #[trigger] m.dom().contains(h) && m[h].kind is Shield ==> 0 < spec_shield_data(
                m[h].kind,
            ).strength <= spec_shield_data(m[h].kind).max_strength,
{
}

/// The described map has as many entries as the sequence has records, when
/// handles are unique.
pub proof fn lemma_map_of_len(s: Seq<EntityRecord>)
    requires
        unique_handles(s),
    ensures
        map_of(s).dom().finite(),
        map_of(s).dom().len() == s.len(),
    decreases s.len(),
{
    if s.len() == 0 {
    } else {
        let t = s.drop_last();
        assert(unique_handles(t)) by {
            assert(forall|i: int| 0 <= i < t.len() ==> t[i] == s[i]);
        }
        lemma_map_of_len(t);
        lemma_map_of(t);
        assert(!map_of(t).dom().contains(s.last().handle)) by {
            if has_handle(t, s.last().handle) {
                let i = choose|i: int|
                    0 <= i < t.len() && (#[trigger] t[i]).handle == s.last().handle;
                assert(s[i].handle == s[s.len() - 1].handle);
            }
        }
    }
}

} // verus!
