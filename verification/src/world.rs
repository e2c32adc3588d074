//! World geometry as the simulation core sees it: integer coordinates.
//!
//! The physics collaborator owns continuous spatial state; the core only
//! reads positions to stamp event origins and to pick spawn points, so it
//! models a position as a pair of integer world units.

use vstd::prelude::*;

verus! {

/// Coordinates of live entities stay within this bound (the playfield plus
/// a generous margin); it keeps squared distances inside `i64`.
pub const MAX_COORD: i64 = 1_000_000;

/// Half the side length of the square playfield; fresh spawn points are
/// drawn from `[-WORLD_HALF_EXTENT, WORLD_HALF_EXTENT)`.
pub const WORLD_HALF_EXTENT: i64 = 500;

/// A point of the playfield, in integer world units.
#[derive(Clone, Copy, Debug, PartialEq, Eq, Structural)]
pub struct WorldPoint {
    pub x: i64,
    pub y: i64,
}

/// Whether a point lies within the coordinate bound the registry accepts.
pub open spec fn in_world(p: WorldPoint) -> bool {
    &&& -MAX_COORD <= p.x <= MAX_COORD
    &&& -MAX_COORD <= p.y <= MAX_COORD
}

/// Entities that drift past the playfield edge by more than this margin
/// reappear on the opposite side.
pub const WRAPAROUND_MARGIN: i64 = 25;

/// One coordinate after torus wraparound: past the far edge it jumps to
/// the near edge, and vice versa; in between it is untouched.
pub open spec fn spec_wrap_coord(v: int) -> int {
    if v > WORLD_HALF_EXTENT + WRAPAROUND_MARGIN {
        -WORLD_HALF_EXTENT - WRAPAROUND_MARGIN
    } else if v < -WORLD_HALF_EXTENT - WRAPAROUND_MARGIN {
        WORLD_HALF_EXTENT + WRAPAROUND_MARGIN
    } else {
        v
    }
}

/// Wraps a drifting entity's position around the playfield torus: each
/// coordinate that left the margin beyond one edge reappears at the
/// opposite edge.
pub fn wrap_position(p: WorldPoint) -> (r: WorldPoint)
    requires
        in_world(p),
    ensures
        r.x == spec_wrap_coord(p.x as int),
        r.y == spec_wrap_coord(p.y as int),
        in_world(r),
        -WORLD_HALF_EXTENT - WRAPAROUND_MARGIN <= r.x <= WORLD_HALF_EXTENT + WRAPAROUND_MARGIN
            || r.x == p.x,
        -WORLD_HALF_EXTENT - WRAPAROUND_MARGIN <= r.y <= WORLD_HALF_EXTENT + WRAPAROUND_MARGIN
            || r.y == p.y,
{
    let limit = WORLD_HALF_EXTENT + WRAPAROUND_MARGIN;
    let x = if p.x > limit {
        -limit
    } else if p.x < -limit {
        limit
    } else {
        p.x
    };
    let y = if p.y > limit {
        -limit
    } else if p.y < -limit {
        limit
    } else {
        p.y
    };
    WorldPoint { x, y }
}

/// Squared Euclidean distance between two points.
pub open spec fn spec_dist2(a: WorldPoint, b: WorldPoint) -> int {
    (a.x - b.x) * (a.x - b.x) + (a.y - b.y) * (a.y - b.y)
}

/// Squared distance between two in-bounds points; used for the
/// "spawn away from the player" checks, avoiding any square root.
pub fn dist2(a: WorldPoint, b: WorldPoint) -> (r: i64)
    requires
        in_world(a),
        in_world(b),
    ensures
        r == spec_dist2(a, b),
{
    let dx = a.x - b.x;
    let dy = a.y - b.y;
    proof {
        assert(dx * dx <= 4 * MAX_COORD * MAX_COORD && dx * dx >= 0) by (nonlinear_arith)
            requires
                -2 * MAX_COORD <= dx <= 2 * MAX_COORD,
        ;
        assert(dy * dy <= 4 * MAX_COORD * MAX_COORD && dy * dy >= 0) by (nonlinear_arith)
            requires
                -2 * MAX_COORD <= dy <= 2 * MAX_COORD,
        ;
    }
    dx * dx + dy * dy
}

} // verus!
