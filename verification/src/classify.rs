//! Collision classification: given the pair of opaque handles of a
//! "collision started" notification, resolve each side against the registry
//! and tag it with the kind of the opposite party.

use vstd::prelude::*;

use crate::registry::{damage_of_kind, kind_tag, EntityRecord, Registry};
use crate::kinds::EntityType;

verus! {

/// One classified side of a collision: the record the handle resolved to,
/// the kind of the opposite party (`Unknown` when the opposite handle is
/// not live), and the damage that opposite party deals to this side.
#[derive(Clone, Copy, Debug, PartialEq, Eq)]
pub struct CollisionParty {
    pub handle: u64,
    pub record: EntityRecord,
    pub other_kind: EntityType,
    pub damage_dealt: u16,
}

/// The kind a handle classifies to: its registry kind, or `Unknown` for a
/// handle that is not live (a pure physics prop, or an entity already
/// destroyed).
pub open spec fn classify_spec(m: Map<u64, EntityRecord>, h: u64) -> EntityType {
    if m.dom().contains(h) {
        kind_tag(m[h].kind)
    } else {
        EntityType::Unknown
    }
}

/// Damage dealt by the party behind `h`: a projectile deals its projectile
/// damage, an enemy its contact damage, and any other or unknown party a
/// default of 1.
pub open spec fn damage_dealt_spec(m: Map<u64, EntityRecord>, h: u64) -> u16 {
    if m.dom().contains(h) {
        damage_of_kind(m[h].kind)
    } else {
        1
    }
}

/// The classified view of side `self_h` of a collision against `other_h`.
pub open spec fn party_spec(m: Map<u64, EntityRecord>, self_h: u64, other_h: u64)
    -> CollisionParty {
    CollisionParty {
        handle: self_h,
        record: m[self_h],
        other_kind: classify_spec(m, other_h),
        damage_dealt: damage_dealt_spec(m, other_h),
    }
}

/// Classifies both sides of a collision-started notification. A handle that
/// is not live maps to `Unknown` and is dropped from the result, so the
/// vector holds the classified parties of the live sides only, in the order
/// the notification named them.
pub fn classify_pair(reg: &Registry, a: u64, b: u64) -> (r: Vec<CollisionParty>)
    requires
        reg.wf(),
        a != b,
    ensures
        r@.len() == (if reg@.dom().contains(a) {
            1int
        } else {
            0int
        }) + (if reg@.dom().contains(b) {
            1int
        } else {
            0int
        }),
        reg@.dom().contains(a) ==> r@[0] == party_spec(reg@, a, b),
        reg@.dom().contains(b) ==> r@[r@.len() - 1] == party_spec(reg@, b, a),
{
    let mut out: Vec<CollisionParty> = Vec::new();
    let looked_a = reg.lookup(a);
    let looked_b = reg.lookup(b);
    let other_for_a = match looked_b {
        Some(rec) => kind_tag_exec(&rec),
        None => EntityType::Unknown,
    };
    let damage_for_a = match looked_b {
        Some(rec) => damage_of_kind_exec(&rec),
        None => 1,
    };
    let other_for_b = match looked_a {
        Some(rec) => kind_tag_exec(&rec),
        None => EntityType::Unknown,
    };
    let damage_for_b = match looked_a {
        Some(rec) => damage_of_kind_exec(&rec),
        None => 1,
    };
    if let Some(rec) = looked_a {
        out.push(
            CollisionParty {
                handle: a,
                record: rec,
                other_kind: other_for_a,
                damage_dealt: damage_for_a,
            },
        );
    }
    if let Some(rec) = looked_b {
        out.push(
            CollisionParty {
                handle: b,
                record: rec,
                other_kind: other_for_b,
                damage_dealt: damage_for_b,
            },
        );
    }
    out
}

/// The kind tag of a record.
fn kind_tag_exec(rec: &EntityRecord) -> (t: EntityType)
    ensures
        t == kind_tag(rec.kind),
{
    match rec.kind {
        crate::registry::EntityKind::Asteroid(_) => EntityType::Asteroid,
        crate::registry::EntityKind::Projectile(_) => EntityType::Projectile,
        crate::registry::EntityKind::Enemy(_) => EntityType::Enemy,
        crate::registry::EntityKind::Shield(_) => EntityType::Shield,
        crate::registry::EntityKind::Player => EntityType::Player,
        crate::registry::EntityKind::PowerUp(_) => EntityType::PowerUp,
    }
}

/// The damage a record deals on contact.
fn damage_of_kind_exec(rec: &EntityRecord) -> (d: u16)
    ensures
        d == damage_of_kind(rec.kind),
{
    match rec.kind {
        crate::registry::EntityKind::Projectile(p) => p.damage,
        crate::registry::EntityKind::Enemy(e) => e.contact_damage,
        _ => 1,
    }
}

} // verus!
