//! Random draws for the entity spawners.
//!
//! All randomness enters through one raw 64-bit draw; everything layered on
//! top of it (range scaling, spawn-point sampling, rejection retries) is
//! verified, and holds for every value the draw can return.

use vstd::prelude::*;

use crate::world::{in_world, spec_dist2, WorldPoint, MAX_COORD, WORLD_HALF_EXTENT};

verus! {

/// How often a rejected spawn point is re-drawn before the last sample is
/// accepted as a fallback; bounds the rejection sampling that would
/// otherwise not terminate.
pub const SPAWN_RETRY_LIMIT: u32 = 16;

/// Relies on rand::random: draws a fresh uniform 64-bit value; nothing can
/// be promised of it.
#[verifier::external_body]
pub(crate) fn random_u64() -> u64 {
    rand::random::<u64>()
}

/// Deterministically maps a raw draw into `[lo, hi)` by taking the
/// remainder of the span; the spawners document their draw order in terms
/// of this mapping.
pub fn scale_to_range(raw: u64, lo: i64, hi: i64) -> (r: i64)
    requires
        lo < hi,
        hi - lo <= i64::MAX,
    ensures
        r == lo + raw % ((hi - lo) as u64),
        lo <= r < hi,
{
    let span = (hi - lo) as u64;
    let off = raw % span;
    lo + off as i64
}

/// A fresh draw in `[lo, hi)`.
pub fn random_in_range(lo: i64, hi: i64) -> (r: i64)
    requires
        lo < hi,
        hi - lo <= i64::MAX,
    ensures
        lo <= r < hi,
{
    let raw = random_u64();
    scale_to_range(raw, lo, hi)
}

/// A uniformly drawn point of the playfield square.
pub fn random_world_point() -> (p: WorldPoint)
    ensures
        in_world(p),
        -WORLD_HALF_EXTENT <= p.x < WORLD_HALF_EXTENT,
        -WORLD_HALF_EXTENT <= p.y < WORLD_HALF_EXTENT,
{
    let x = random_in_range(-WORLD_HALF_EXTENT, WORLD_HALF_EXTENT);
    let y = random_in_range(-WORLD_HALF_EXTENT, WORLD_HALF_EXTENT);
    WorldPoint { x, y }
}

/// Draws playfield points until one lies at least `min_distance` from the
/// player, giving up after `SPAWN_RETRY_LIMIT` rejections and falling back
/// to the last sample. The flag reports whether the distance requirement
/// was met; a caller that must not spawn on top of the player checks it.
pub fn random_point_away_from_player(player: WorldPoint, min_distance: i64) -> (r: (
    WorldPoint,
    bool,
))
    requires
        in_world(player),
        0 <= min_distance <= 2 * MAX_COORD,
    ensures
        in_world(r.0),
        r.1 ==> spec_dist2(r.0, player) >= min_distance * min_distance,
{
    let mut tries: u32 = 0;
    let mut candidate = random_world_point();
    loop
        invariant
            in_world(player),
            in_world(candidate),
            0 <= min_distance <= 2 * MAX_COORD,
            tries <= SPAWN_RETRY_LIMIT,
        ensures
            in_world(candidate),
        decreases SPAWN_RETRY_LIMIT - tries,
    {
        proof {
            assert(min_distance * min_distance <= 4 * MAX_COORD * MAX_COORD) by (nonlinear_arith)
                requires
                    0 <= min_distance <= 2 * MAX_COORD,
            ;
        }
        let d2 = crate::world::dist2(candidate, player);
        if d2 >= min_distance * min_distance {
            return (candidate, true);
        }
        if tries >= SPAWN_RETRY_LIMIT {
            break;
        }
        tries = tries + 1;
        candidate = random_world_point();
    }
    (candidate, false)
}

/// Lower corner of the sampling square for fragment spawn points: the
/// destruction origin, pulled inward just enough that the whole square
/// stays inside the coordinate bound.
pub open spec fn near_base(v: int, proximity: int) -> int {
    if v + proximity <= MAX_COORD {
        v
    } else {
        MAX_COORD - proximity
    }
}

/// Draws points within `proximity` of `origin` (offset in `[0, proximity)`
/// on each axis, as the fragment rule prescribes) until one lies at least
/// `min_distance` from the player, with the same bounded retry and
/// fallback as `random_point_away_from_player`.
pub fn random_point_near_origin_avoiding_player(
    origin: WorldPoint,
    proximity: i64,
    player: WorldPoint,
    min_distance: i64,
) -> (r: (WorldPoint, bool))
    requires
        in_world(origin),
        in_world(player),
        0 < proximity <= 1000,
        0 <= min_distance <= 2 * MAX_COORD,
    ensures
        in_world(r.0),
        near_base(origin.x as int, proximity as int) <= r.0.x < near_base(
            origin.x as int,
            proximity as int,
        ) + proximity,
        near_base(origin.y as int, proximity as int) <= r.0.y < near_base(
            origin.y as int,
            proximity as int,
        ) + proximity,
        r.1 ==> spec_dist2(r.0, player) >= min_distance * min_distance,
{
    let base_x = if origin.x <= MAX_COORD - proximity {
        origin.x
    } else {
        MAX_COORD - proximity
    };
    let base_y = if origin.y <= MAX_COORD - proximity {
        origin.y
    } else {
        MAX_COORD - proximity
    };
    let mut tries: u32 = 0;
    let mut candidate = WorldPoint {
        x: random_in_range(base_x, base_x + proximity),
        y: random_in_range(base_y, base_y + proximity),
    };
    loop
        invariant
            in_world(origin),
            in_world(player),
            0 < proximity <= 1000,
            0 <= min_distance <= 2 * MAX_COORD,
            base_x == near_base(origin.x as int, proximity as int),
            base_y == near_base(origin.y as int, proximity as int),
            base_x <= candidate.x < base_x + proximity,
            base_y <= candidate.y < base_y + proximity,
            in_world(candidate),
            tries <= SPAWN_RETRY_LIMIT,
        ensures
            in_world(candidate),
            base_x <= candidate.x < base_x + proximity,
            base_y <= candidate.y < base_y + proximity,
        decreases SPAWN_RETRY_LIMIT - tries,
    {
        proof {
            assert(min_distance * min_distance <= 4 * MAX_COORD * MAX_COORD) by (nonlinear_arith)
                requires
                    0 <= min_distance <= 2 * MAX_COORD,
            ;
        }
        let d2 = crate::world::dist2(candidate, player);
        if d2 >= min_distance * min_distance {
            return (candidate, true);
        }
        if tries >= SPAWN_RETRY_LIMIT {
            break;
        }
        tries = tries + 1;
        candidate = WorldPoint {
            x: random_in_range(base_x, base_x + proximity),
            y: random_in_range(base_y, base_y + proximity),
        };
    }
    (candidate, false)
}

} // verus!
