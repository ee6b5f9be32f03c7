//! The motion integrator: purely kinematic, fixed-timestep advancement of a
//! position by velocity times elapsed time. No clamping, no collision
//! awareness.

use vstd::prelude::*;
use crate::geometry::Vec2i;

verus! {

/// Where a coordinate ends up after `elapsed` time units at constant
/// velocity `vel`.
pub open spec fn moved(p: int, vel: int, elapsed: int) -> int {
    p + vel * elapsed
}

/// Advance a position in place, exactly: `position += velocity * elapsed`,
/// independently on each axis.
pub fn apply_motion(pos: &mut Vec2i, vel: Vec2i, elapsed: i64)
    requires
        elapsed >= 0,
        i64::MIN <= vel.x * elapsed <= i64::MAX,
        i64::MIN <= vel.y * elapsed <= i64::MAX,
        i64::MIN <= old(pos).x + vel.x * elapsed <= i64::MAX,
        i64::MIN <= old(pos).y + vel.y * elapsed <= i64::MAX,
    ensures
        final(pos).x == moved(old(pos).x as int, vel.x as int, elapsed as int),
        final(pos).y == moved(old(pos).y as int, vel.y as int, elapsed as int),
{
    pos.x = pos.x + vel.x * elapsed;
    pos.y = pos.y + vel.y * elapsed;
}

/// Law (linearity of motion): at constant velocity, moving for `a` time
/// units and then for `b` more lands exactly where a single move of `a + b`
/// time units does.
pub proof fn lemma_motion_additive(p: int, vel: int, a: int, b: int)
    requires
        a >= 0,
        b >= 0,
    ensures
        moved(moved(p, vel, a), vel, b) == moved(p, vel, a + b),
{
    assert(vel * a + vel * b == vel * (a + b)) by (nonlinear_arith);
}

} // verus!
