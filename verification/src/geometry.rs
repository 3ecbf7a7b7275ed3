//! Integer plane geometry. Positions and sizes are measured in
//! milli-units (one thousandth of a world unit), held in `i64` fields,
//! and kept within `COORD_LIMIT` so that the doubled comparisons of the
//! collision test cannot overflow.

use vstd::prelude::*;

verus! {

/// Largest magnitude a coordinate may take, generous enough for every
/// position the game produces.
pub const COORD_LIMIT: i64 = 1_000_000_000_000;

pub open spec fn coord_ok(c: i64) -> bool {
    -COORD_LIMIT <= c <= COORD_LIMIT
}

/// A point or extent in the plane, in milli-units.
#[derive(Clone, Copy, Debug, PartialEq, Eq, Structural)]
pub struct Vec2i {
    pub x: i64,
    pub y: i64,
}

impl Vec2i {
    pub open spec fn wf(self) -> bool {
        coord_ok(self.x) && coord_ok(self.y)
    }

    /// Both components non-negative: fit to serve as a width and height.
    pub open spec fn wf_size(self) -> bool {
        0 <= self.x <= COORD_LIMIT && 0 <= self.y <= COORD_LIMIT
    }

    pub fn new(x: i64, y: i64) -> (v: Vec2i)
        ensures
            v.x == x,
            v.y == y,
    {
        Vec2i { x, y }
    }
}

/// An axis-aligned box given by its centre and its full width and height.
pub open spec fn spec_collide(a_pos: Vec2i, a_size: Vec2i, b_pos: Vec2i, b_size: Vec2i) -> bool {
    &&& 2 * a_pos.x - a_size.x < 2 * b_pos.x + b_size.x
    &&& 2 * a_pos.x + a_size.x > 2 * b_pos.x - b_size.x
    &&& 2 * a_pos.y - a_size.y < 2 * b_pos.y + b_size.y
    &&& 2 * a_pos.y + a_size.y > 2 * b_pos.y - b_size.y
}

/// Axis-aligned overlap test between two boxes given by centre and size:
/// true exactly when the interiors intersect. Edges that only touch do
/// not count as a collision.
pub fn collide(a_pos: Vec2i, a_size: Vec2i, b_pos: Vec2i, b_size: Vec2i) -> (r: bool)
    requires
        a_pos.wf(),
        a_size.wf_size(),
        b_pos.wf(),
        b_size.wf_size(),
    ensures
        r == spec_collide(a_pos, a_size, b_pos, b_size),
{
    2 * a_pos.x - a_size.x < 2 * b_pos.x + b_size.x
        && 2 * a_pos.x + a_size.x > 2 * b_pos.x - b_size.x
        && 2 * a_pos.y - a_size.y < 2 * b_pos.y + b_size.y
        && 2 * a_pos.y + a_size.y > 2 * b_pos.y - b_size.y
}

/// Clamp `c` to the closed interval from `lo` to `hi`.
pub fn clamp_coord(c: i64, lo: i64, hi: i64) -> (r: i64)
    requires
        lo <= hi,
    ensures
        r == if c < lo { lo } else if c > hi { hi } else { c },
{
    if c < lo {
        lo
    } else if c > hi {
        hi
    } else {
        c
    }
}

/// Advance a position by one tick's displacement.
pub fn translate(pos: Vec2i, velocity: Vec2i) -> (r: Vec2i)
    requires
        pos.wf(),
        velocity.wf(),
    ensures
        r.x == pos.x + velocity.x,
        r.y == pos.y + velocity.y,
{
    Vec2i { x: pos.x + velocity.x, y: pos.y + velocity.y }
}

} // verus!

