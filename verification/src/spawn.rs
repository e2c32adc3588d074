//! Entity spawners: turning spawn requests into fully attributed entities.
//!
//! The spawn director decides *what* to spawn (pure data, `SpawnRequest`);
//! the spawners here materialize the requests into registry records and
//! randomized attributes, keeping the decision logic testable on its own.

use vstd::prelude::*;

use crate::events::AsteroidDestroyedEvent;
use crate::kinds::{Category, ImpactInfo, PowerUpType, Substance, spec_smaller_category};
use crate::registry::{
    AsteroidData, EnemyData, EntityKind, EntityRecord, PowerUpData, Registry,
};
use crate::rng::{
    random_in_range, random_point_away_from_player, random_point_near_origin_avoiding_player,
};
use crate::waves::WaveDescription;
use crate::world::{in_world, WorldPoint};

verus! {

/// Contact damage of the two UFO classes.
pub const UFO_CONTACT_DAMAGE: u16 = 5;

/// Minimum spawn distances from the player, per spawned thing.
pub const ASTEROID_SPAWN_DISTANCE: i64 = 100;

pub const SMALL_UFO_SPAWN_DISTANCE: i64 = 200;

pub const LARGE_UFO_SPAWN_DISTANCE: i64 = 300;

pub const BOSS_SPAWN_DISTANCE: i64 = 300;

pub const POWER_UP_SPAWN_DISTANCE: i64 = 300;

/// Fragments appear within this offset of the destroyed asteroid, biased
/// away from the player by the small clearance below.
pub const FRAGMENT_PROXIMITY: i64 = 35;

pub const FRAGMENT_PLAYER_CLEARANCE: i64 = 20;

/// What a single spawn request asks for.
#[derive(Clone, Copy, Debug, PartialEq, Eq)]
pub enum SpawnKind {
    Asteroid(Category),
    SmallUfo,
    LargeUfo,
    Boss,
    PowerUp(PowerUpType),
}

/// A request to materialize one entity at a point.
#[derive(Clone, Copy, Debug, PartialEq, Eq)]
pub struct SpawnRequest {
    pub kind: SpawnKind,
    pub pos: WorldPoint,
}

/// Per-category asteroid construction parameters: side count range,
/// per-vertex radius range, collider radius, additional mass (in tenths of
/// a mass unit) and score value.
#[derive(Clone, Copy, Debug, PartialEq, Eq, Structural)]
pub struct AsteroidClass {
    pub sides_lo: i64,
    pub sides_hi: i64,
    pub radius_lo: i64,
    pub radius_hi: i64,
    pub collider_radius: i64,
    pub additional_mass_tenths: i64,
    pub score: u16,
}

/// An extra-large request is built as large; the three real classes carry
/// the fixed construction constants.
pub open spec fn spec_normalize_category(c: Category) -> Category {
    if c == Category::XL {
        Category::L
    } else {
        c
    }
}

/// The construction constants of each (normalized) category.
pub open spec fn spec_asteroid_class(c: Category) -> AsteroidClass {
    if c == Category::M {
        AsteroidClass {
            sides_lo: 7,
            sides_hi: 14,
            radius_lo: 10,
            radius_hi: 20,
            collider_radius: 10,
            additional_mass_tenths: 175,
            score: 6,
        }
    } else if c == Category::S {
        AsteroidClass {
            sides_lo: 5,
            sides_hi: 9,
            radius_lo: 5,
            radius_hi: 10,
            collider_radius: 5,
            additional_mass_tenths: 80,
            score: 7,
        }
    } else {
        AsteroidClass {
            sides_lo: 12,
            sides_hi: 19,
            radius_lo: 20,
            radius_hi: 40,
            collider_radius: 20,
            additional_mass_tenths: 300,
            score: 5,
        }
    }
}

/// The construction constants of a category; `XL` is built as `L`.
pub fn asteroid_class(c: Category) -> (r: AsteroidClass)
    ensures
        r == spec_asteroid_class(spec_normalize_category(c)),
{
    match c {
        Category::XL | Category::L => AsteroidClass {
            sides_lo: 12,
            sides_hi: 19,
            radius_lo: 20,
            radius_hi: 40,
            collider_radius: 20,
            additional_mass_tenths: 300,
            score: 5,
        },
        Category::M => AsteroidClass {
            sides_lo: 7,
            sides_hi: 14,
            radius_lo: 10,
            radius_hi: 20,
            collider_radius: 10,
            additional_mass_tenths: 175,
            score: 6,
        },
        Category::S => AsteroidClass {
            sides_lo: 5,
            sides_hi: 9,
            radius_lo: 5,
            radius_hi: 10,
            collider_radius: 5,
            additional_mass_tenths: 80,
            score: 7,
        },
    }
}

/// Linear velocity components of a fresh asteroid are drawn from this
/// symmetric range, angular velocity from +/- 2.5 (in tenths).
pub const ASTEROID_MAX_SPEED: i64 = 50;

pub const ASTEROID_MAX_SPIN_TENTHS: i64 = 25;

/// The randomized attributes of one freshly built asteroid: its polygon
/// (side count and per-vertex radii) and its initial velocity.
#[derive(Clone, Debug, PartialEq, Eq)]
pub struct AsteroidAttributes {
    pub category: Category,
    pub score: u16,
    pub sides: u16,
    pub radii: Vec<i64>,
    pub collider_radius: i64,
    pub additional_mass_tenths: i64,
    pub linvel_x: i64,
    pub linvel_y: i64,
    pub angvel_tenths: i64,
}

/// The side count a category's first raw draw maps to.
pub open spec fn spec_sides_of_draw(class: AsteroidClass, raw: u64) -> int {
    class.sides_lo + raw % ((class.sides_hi - class.sides_lo) as u64)
}

/// Whether a draw sequence is long enough to build an asteroid: one draw
/// for the side count, one per vertex radius, and three for the velocity.
pub open spec fn spec_enough_draws(class: AsteroidClass, draws: Seq<u64>) -> bool {
    draws.len() >= 1 && draws.len() >= 1 + spec_sides_of_draw(class, draws[0]) + 3
}

/// Deterministically builds an asteroid's attributes from a raw draw
/// sequence, consuming it in the fixed order: side count, then each
/// vertex radius in index order, then the x and y velocity components,
/// then the angular velocity. Equal draw sequences give equal shapes, so
/// a recorded sequence reproduces an asteroid exactly. Fails only on a
/// sequence too short for the drawn side count.
pub fn asteroid_attributes_from_draws(category: Category, draws: &Vec<u64>) -> (r: Option<
    AsteroidAttributes,
>)
    ensures
        ({
            let class = spec_asteroid_class(spec_normalize_category(category));
            &&& (r is Some <==> spec_enough_draws(class, draws@))
            &&& r matches Some(a) ==> {
                let sides = spec_sides_of_draw(class, draws@[0]);
                let radius_span = (class.radius_hi - class.radius_lo) as u64;
                &&& a.category == spec_normalize_category(category)
                &&& a.score == class.score
                &&& a.sides == sides
                &&& class.sides_lo <= a.sides < class.sides_hi
                &&& a.radii@.len() == sides
                &&& forall|i: int|
                    0 <= i < sides ==> #[trigger] a.radii@[i] == class.radius_lo + draws@[1 + i]
                        % radius_span
                &&& a.collider_radius == class.collider_radius
                &&& a.additional_mass_tenths == class.additional_mass_tenths
                &&& a.linvel_x == -ASTEROID_MAX_SPEED + draws@[1 + sides] % ((2
                    * ASTEROID_MAX_SPEED) as u64)
                &&& a.linvel_y == -ASTEROID_MAX_SPEED + draws@[2 + sides] % ((2
                    * ASTEROID_MAX_SPEED) as u64)
                &&& a.angvel_tenths == -ASTEROID_MAX_SPIN_TENTHS + draws@[3 + sides] % ((2
                    * ASTEROID_MAX_SPIN_TENTHS) as u64)
            }
        }),
{
    let class = asteroid_class(category);
    if draws.len() == 0 {
        return None;
    }
    let sides_i64 = crate::rng::scale_to_range(draws[0], class.sides_lo, class.sides_hi);
    let sides = sides_i64 as usize;
    if draws.len() < sides + 4 {
        return None;
    }
    let mut radii: Vec<i64> = Vec::new();
    let mut i: usize = 0;
    while i < sides
        invariant
            i <= sides,
            radii@.len() == i,
            draws@.len() >= sides + 4,
            class == spec_asteroid_class(spec_normalize_category(category)),
            class.sides_lo <= sides_i64 < class.sides_hi,
            sides == sides_i64,
            forall|j: int|
                0 <= j < radii@.len() ==> #[trigger] radii@[j] == class.radius_lo + draws@[1 + j]
                    % ((class.radius_hi - class.radius_lo) as u64),
        decreases sides - i,
    {
        let r = crate::rng::scale_to_range(draws[1 + i], class.radius_lo, class.radius_hi);
        radii.push(r);
        i = i + 1;
    }
    let linvel_x = crate::rng::scale_to_range(
        draws[1 + sides],
        -ASTEROID_MAX_SPEED,
        ASTEROID_MAX_SPEED,
    );
    let linvel_y = crate::rng::scale_to_range(
        draws[2 + sides],
        -ASTEROID_MAX_SPEED,
        ASTEROID_MAX_SPEED,
    );
    let angvel_tenths = crate::rng::scale_to_range(
        draws[3 + sides],
        -ASTEROID_MAX_SPIN_TENTHS,
        ASTEROID_MAX_SPIN_TENTHS,
    );
    let normalized = match category {
        Category::XL => Category::L,
        other => other,
    };
    Some(
        AsteroidAttributes {
            category: normalized,
            score: class.score,
            sides: sides_i64 as u16,
            radii,
            collider_radius: class.collider_radius,
            additional_mass_tenths: class.additional_mass_tenths,
            linvel_x,
            linvel_y,
            angvel_tenths,
        },
    )
}

/// Builds the randomized attributes of an asteroid of the given category:
/// fresh raw draws are taken in the documented order and mapped through
/// `asteroid_attributes_from_draws`.
pub fn asteroid_attributes(category: Category) -> (a: AsteroidAttributes)
    ensures
        a.category == spec_normalize_category(category),
        ({
            let class = spec_asteroid_class(spec_normalize_category(category));
            &&& a.score == class.score
            &&& class.sides_lo <= a.sides < class.sides_hi
            &&& a.radii@.len() == a.sides
            &&& forall|i: int|
                0 <= i < a.radii@.len() ==> class.radius_lo <= #[trigger] a.radii@[i]
                    < class.radius_hi
            &&& a.collider_radius == class.collider_radius
            &&& a.additional_mass_tenths == class.additional_mass_tenths
        }),
        -ASTEROID_MAX_SPEED <= a.linvel_x < ASTEROID_MAX_SPEED,
        -ASTEROID_MAX_SPEED <= a.linvel_y < ASTEROID_MAX_SPEED,
        -ASTEROID_MAX_SPIN_TENTHS <= a.angvel_tenths < ASTEROID_MAX_SPIN_TENTHS,
{
    let class = asteroid_class(category);
    let mut draws: Vec<u64> = Vec::new();
    draws.push(crate::rng::random_u64());
    let ghost d0 = draws@[0];
    let sides = crate::rng::scale_to_range(draws[0], class.sides_lo, class.sides_hi) as usize;
    proof {
        assert(sides == spec_sides_of_draw(class, d0));
    }
    let mut i: usize = 0;
    while i < sides + 3
        invariant
            draws@.len() == 1 + i,
            i <= sides + 3,
            sides < 19,
            draws@[0] == d0,
            sides == spec_sides_of_draw(class, d0),
            class == spec_asteroid_class(spec_normalize_category(category)),
        decreases sides + 3 - i,
    {
        draws.push(crate::rng::random_u64());
        i = i + 1;
    }
    let built = asteroid_attributes_from_draws(category, &draws);
    proof {
        let spec_class = spec_asteroid_class(spec_normalize_category(category));
        assert(spec_enough_draws(spec_class, draws@));
    }
    let a = built.unwrap();
    proof {
        let spec_class = spec_asteroid_class(spec_normalize_category(category));
        let radius_span = (spec_class.radius_hi - spec_class.radius_lo) as u64;
        assert forall|i2: int| 0 <= i2 < a.radii@.len() implies spec_class.radius_lo
            <= #[trigger] a.radii@[i2] < spec_class.radius_hi by {
            assert(a.radii@[i2] == spec_class.radius_lo + draws@[1 + i2] % radius_span);
        }
    }
    a
}

/// The registry record kind a spawn request materializes into.
pub open spec fn spec_request_kind(k: SpawnKind) -> EntityKind {
    match k {
        SpawnKind::Asteroid(c) => EntityKind::Asteroid(
            AsteroidData {
                category: spec_normalize_category(c),
                score: spec_asteroid_class(spec_normalize_category(c)).score,
            },
        ),
        SpawnKind::SmallUfo => EntityKind::Enemy(
            EnemyData {
                health_points: 15,
                movement_speed: 50,
                score_points: 75,
                contact_damage: UFO_CONTACT_DAMAGE,
            },
        ),
        SpawnKind::LargeUfo => EntityKind::Enemy(
            EnemyData {
                health_points: 90,
                movement_speed: 35,
                score_points: 150,
                contact_damage: UFO_CONTACT_DAMAGE,
            },
        ),
        SpawnKind::Boss => EntityKind::Enemy(
            EnemyData {
                health_points: 120,
                movement_speed: 75,
                score_points: 500,
                contact_damage: 1,
            },
        ),
        SpawnKind::PowerUp(t) => EntityKind::PowerUp(PowerUpData { power_up_type: t }),
    }
}

/// The impact metadata a spawn request materializes with.
pub open spec fn spec_request_impact(k: SpawnKind) -> ImpactInfo {
    match k {
        SpawnKind::Asteroid(c) => ImpactInfo {
            impact_category: spec_normalize_category(c),
            death_category: spec_normalize_category(c),
            substance: Substance::Rock,
        },
        SpawnKind::SmallUfo => ImpactInfo {
            impact_category: Category::S,
            death_category: Category::M,
            substance: Substance::Metal,
        },
        SpawnKind::LargeUfo => ImpactInfo {
            impact_category: Category::M,
            death_category: Category::L,
            substance: Substance::Metal,
        },
        SpawnKind::Boss => ImpactInfo {
            impact_category: Category::S,
            death_category: Category::XL,
            substance: Substance::Metal,
        },
        SpawnKind::PowerUp(_) => ImpactInfo {
            impact_category: Category::S,
            death_category: Category::S,
            substance: Substance::Magic,
        },
    }
}

/// The full record a request materializes into, once a handle is chosen.
pub open spec fn spec_request_record(req: SpawnRequest, h: u64) -> EntityRecord {
    EntityRecord {
        handle: h,
        kind: spec_request_kind(req.kind),
        impact: Some(spec_request_impact(req.kind)),
        pos: req.pos,
    }
}

/// The record kind of a request.
fn request_kind(k: SpawnKind) -> (r: EntityKind)
    ensures
        r == spec_request_kind(k),
{
    match k {
        SpawnKind::Asteroid(c) => {
            let class = asteroid_class(c);
            let normalized = match c {
                Category::XL => Category::L,
                other => other,
            };
            EntityKind::Asteroid(AsteroidData { category: normalized, score: class.score })
        },
        SpawnKind::SmallUfo => EntityKind::Enemy(
            EnemyData {
                health_points: 15,
                movement_speed: 50,
                score_points: 75,
                contact_damage: UFO_CONTACT_DAMAGE,
            },
        ),
        SpawnKind::LargeUfo => EntityKind::Enemy(
            EnemyData {
                health_points: 90,
                movement_speed: 35,
                score_points: 150,
                contact_damage: UFO_CONTACT_DAMAGE,
            },
        ),
        SpawnKind::Boss => EntityKind::Enemy(
            EnemyData {
                health_points: 120,
                movement_speed: 75,
                score_points: 500,
                contact_damage: 1,
            },
        ),
        SpawnKind::PowerUp(t) => EntityKind::PowerUp(PowerUpData { power_up_type: t }),
    }
}

/// The impact metadata of a request.
fn request_impact(k: SpawnKind) -> (r: ImpactInfo)
    ensures
        r == spec_request_impact(k),
{
    match k {
        SpawnKind::Asteroid(c) => {
            let normalized = match c {
                Category::XL => Category::L,
                other => other,
            };
            ImpactInfo {
                impact_category: normalized,
                death_category: normalized,
                substance: Substance::Rock,
            }
        },
        SpawnKind::SmallUfo => ImpactInfo {
            impact_category: Category::S,
            death_category: Category::M,
            substance: Substance::Metal,
        },
        SpawnKind::LargeUfo => ImpactInfo {
            impact_category: Category::M,
            death_category: Category::L,
            substance: Substance::Metal,
        },
        SpawnKind::Boss => ImpactInfo {
            impact_category: Category::S,
            death_category: Category::XL,
            substance: Substance::Metal,
        },
        SpawnKind::PowerUp(_) => ImpactInfo {
            impact_category: Category::S,
            death_category: Category::S,
            substance: Substance::Magic,
        },
    }
}

/// Materializes a batch of spawn requests into the registry. Returns the
/// allocated handles, one per request and in request order; they continue
/// the registry's handle sequence, and no other entity is disturbed.
pub fn materialize(reg: &mut Registry, reqs: &Vec<SpawnRequest>) -> (hs: Vec<u64>)
    requires
        old(reg).wf(),
        old(reg).can_spawn(reqs@.len() as int),
        forall|i: int| 0 <= i < reqs@.len() ==> in_world((#[trigger] reqs@[i]).pos),
    ensures
        final(reg).wf(),
        final(reg).spec_next_handle() == old(reg).spec_next_handle() + reqs@.len(),
        hs@.len() == reqs@.len(),
        forall|i: int| 0 <= i < hs@.len() ==> #[trigger] hs@[i] == old(reg).spec_next_handle() + i,
        forall|h: u64| #[trigger] old(reg)@.dom().contains(h) ==> final(reg)@.dom().contains(h)
            && final(reg)@[h] == old(reg)@[h],
        forall|i: int|
            0 <= i < reqs@.len() ==> final(reg)@.dom().contains(hs@[i]) && final(reg)@[#[trigger] hs@[i]]
                == spec_request_record(reqs@[i], hs@[i]),
        forall|h: u64| #[trigger] final(reg)@.dom().contains(h) ==> old(reg)@.dom().contains(h)
            || (old(reg).spec_next_handle() <= h < old(reg).spec_next_handle() + reqs@.len()),
{
    let n = reqs.len();
    let mut hs: Vec<u64> = Vec::new();
    let mut i: usize = 0;
    while i < n
        invariant
            reg.wf(),
            n == reqs@.len(),
            i <= n,
            old(reg).can_spawn(n as int),
            forall|j: int| 0 <= j < n ==> in_world((#[trigger] reqs@[j]).pos),
            reg.spec_next_handle() == old(reg).spec_next_handle() + i,
            hs@.len() == i,
            forall|j: int| 0 <= j < i ==> #[trigger] hs@[j] == old(reg).spec_next_handle() + j,
            forall|h: u64| #[trigger] old(reg)@.dom().contains(h) ==> reg@.dom().contains(h)
                && reg@[h] == old(reg)@[h],
            forall|j: int|
                0 <= j < i ==> reg@.dom().contains(hs@[j]) && reg@[#[trigger] hs@[j]]
                    == spec_request_record(reqs@[j], hs@[j]),
            forall|h: u64| #[trigger] reg@.dom().contains(h) ==> old(reg)@.dom().contains(h) || (old(
                reg,
            ).spec_next_handle() <= h < old(reg).spec_next_handle() + i),
        decreases n - i,
    {
        let req = reqs[i];
        let kind = request_kind(req.kind);
        let impact = request_impact(req.kind);
        let h = reg.spawn(kind, Some(impact), req.pos);
        hs.push(h);
        i = i + 1;
    }
    hs
}

/// Plans the fragments of a destroyed asteroid: none for a small one, else
/// two or three requests one tier smaller, placed near the destruction
/// origin and biased away from the player when one exists.
pub fn plan_fragments(ev: &AsteroidDestroyedEvent, player: Option<WorldPoint>) -> (r: Vec<
    SpawnRequest,
>)
    requires
        in_world(ev.origin),
        player matches Some(p) ==> in_world(p),
    ensures
        spec_smaller_category(ev.category) is None ==> r@.len() == 0,
        spec_smaller_category(ev.category) matches Some(child) ==> 2 <= r@.len() <= 3
            && forall|i: int|
            0 <= i < r@.len() ==> (#[trigger] r@[i]).kind == SpawnKind::Asteroid(child) && in_world(
                r@[i].pos,
            ),
{
    let mut out: Vec<SpawnRequest> = Vec::new();
    let child = match ev.category.smaller() {
        Some(c) => c,
        None => { return out; },
    };
    let count = random_in_range(2, 4);
    let mut i: i64 = 0;
    while i < count
        invariant
            2 <= count <= 3,
            0 <= i <= count,
            out@.len() == i,
            in_world(ev.origin),
            player matches Some(p) ==> in_world(p),
            spec_smaller_category(ev.category) == Some(child),
            forall|j: int|
                0 <= j < out@.len() ==> (#[trigger] out@[j]).kind == SpawnKind::Asteroid(child)
                    && in_world(out@[j].pos),
        decreases count - i,
    {
        let pos = match player {
            Some(p) => random_point_near_origin_avoiding_player(
                ev.origin,
                FRAGMENT_PROXIMITY,
                p,
                FRAGMENT_PLAYER_CLEARANCE,
            ).0,
            None => random_point_near_origin_avoiding_player(
                ev.origin,
                FRAGMENT_PROXIMITY - 10,
                WorldPoint { x: 0, y: 0 },
                0,
            ).0,
        };
        out.push(SpawnRequest { kind: SpawnKind::Asteroid(child), pos });
        i = i + 1;
    }
    out
}

/// The spawn request kind that slot `i` of a planned wave carries: first
/// the asteroids, then the large and small enemies, then the boss, then the
/// power-ups.
pub open spec fn spec_wave_slot_kind(d: WaveDescription, i: int) -> SpawnKind {
    if i < d.asteroid_count {
        SpawnKind::Asteroid(Category::L)
    } else if i < d.asteroid_count + d.large_enemy_count {
        SpawnKind::LargeUfo
    } else if i < d.asteroid_count + d.large_enemy_count + d.small_enemy_count {
        SpawnKind::SmallUfo
    } else if d.boss_present && i == d.asteroid_count + d.large_enemy_count
        + d.small_enemy_count {
        SpawnKind::Boss
    } else if d.shield_power_up_present && i == d.asteroid_count + d.large_enemy_count
        + d.small_enemy_count + (if d.boss_present {
        1int
    } else {
        0int
    }) {
        SpawnKind::PowerUp(PowerUpType::Shield)
    } else {
        SpawnKind::PowerUp(PowerUpType::Weapon)
    }
}

/// How many spawn requests a wave description expands to.
pub open spec fn spec_wave_spawn_total(d: WaveDescription) -> int {
    d.asteroid_count + d.large_enemy_count + d.small_enemy_count + (if d.boss_present {
        1int
    } else {
        0int
    }) + (if d.shield_power_up_present {
        1int
    } else {
        0int
    }) + (if d.weapon_power_up_present {
        1int
    } else {
        0int
    })
}

/// Plans the spawn requests of a wave: the prescribed number of asteroids
/// and enemies, the boss and power-up gates, each at a point drawn away
/// from the player by its class-specific minimum distance.
pub fn plan_wave_spawns(d: &WaveDescription, player: WorldPoint) -> (r: Vec<SpawnRequest>)
    requires
        in_world(player),
        spec_wave_spawn_total(*d) <= usize::MAX,
    ensures
        r@.len() == spec_wave_spawn_total(*d),
        forall|i: int|
            0 <= i < r@.len() ==> (#[trigger] r@[i]).kind == spec_wave_slot_kind(*d, i)
                && in_world(r@[i].pos),
{
    let mut out: Vec<SpawnRequest> = Vec::new();
    let mut i: u64 = 0;
    while i < d.asteroid_count
        invariant
            in_world(player),
            0 <= i <= d.asteroid_count,
            out@.len() == i,
            forall|j: int|
                0 <= j < out@.len() ==> (#[trigger] out@[j]).kind == spec_wave_slot_kind(*d, j)
                    && in_world(out@[j].pos),
        decreases d.asteroid_count - i,
    {
        let pos = random_point_away_from_player(player, ASTEROID_SPAWN_DISTANCE).0;
        out.push(SpawnRequest { kind: SpawnKind::Asteroid(Category::L), pos });
        i = i + 1;
    }
    let mut k: u64 = 0;
    while k < d.large_enemy_count
        invariant
            in_world(player),
            0 <= k <= d.large_enemy_count,
            out@.len() == d.asteroid_count + k,
            forall|j: int|
                0 <= j < out@.len() ==> (#[trigger] out@[j]).kind == spec_wave_slot_kind(*d, j)
                    && in_world(out@[j].pos),
        decreases d.large_enemy_count - k,
    {
        let pos = random_point_away_from_player(player, LARGE_UFO_SPAWN_DISTANCE).0;
        out.push(SpawnRequest { kind: SpawnKind::LargeUfo, pos });
        k = k + 1;
    }
    let mut s: u64 = 0;
    while s < d.small_enemy_count
        invariant
            in_world(player),
            0 <= s <= d.small_enemy_count,
            out@.len() == d.asteroid_count + d.large_enemy_count + s,
            forall|j: int|
                0 <= j < out@.len() ==> (#[trigger] out@[j]).kind == spec_wave_slot_kind(*d, j)
                    && in_world(out@[j].pos),
        decreases d.small_enemy_count - s,
    {
        let pos = random_point_away_from_player(player, SMALL_UFO_SPAWN_DISTANCE).0;
        out.push(SpawnRequest { kind: SpawnKind::SmallUfo, pos });
        s = s + 1;
    }
    if d.boss_present {
        let pos = random_point_away_from_player(player, BOSS_SPAWN_DISTANCE).0;
        out.push(SpawnRequest { kind: SpawnKind::Boss, pos });
    }
    if d.shield_power_up_present {
        let pos = random_point_away_from_player(player, POWER_UP_SPAWN_DISTANCE).0;
        out.push(SpawnRequest { kind: SpawnKind::PowerUp(PowerUpType::Shield), pos });
    }
    if d.weapon_power_up_present {
        let pos = random_point_away_from_player(player, POWER_UP_SPAWN_DISTANCE).0;
        out.push(SpawnRequest { kind: SpawnKind::PowerUp(PowerUpType::Weapon), pos });
    }
    out
}

} // verus!
