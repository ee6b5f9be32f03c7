//! The paddle controller: maps the held direction keys to a horizontal
//! displacement and clamps the paddle to the arena bounds. The paddle's
//! y-coordinate and extents never change.

use vstd::prelude::*;
use crate::geometry::{Aabb, Vec2i, COORD_LIMIT};
use crate::collision::{Collider, ColliderKind};

verus! {

/// Net direction from the held keys: +1 for right, -1 for left; holding both
/// or neither cancels to zero.
pub open spec fn direction(left_held: bool, right_held: bool) -> int {
    (if right_held { 1int } else { 0int }) + (if left_held { -1int } else { 0int })
}

/// `x` clamped into `[lo, hi]`.
pub open spec fn clamped(x: int, lo: int, hi: int) -> int {
    if x < lo {
        lo
    } else if x > hi {
        hi
    } else {
        x
    }
}

/// Where the paddle's x-coordinate ends up after one tick: the candidate
/// `x + direction * speed * elapsed`, clamped into `[lo, hi]`.
pub open spec fn paddle_step(
    x: int,
    left_held: bool,
    right_held: bool,
    speed: int,
    elapsed: int,
    lo: int,
    hi: int,
) -> int {
    clamped(x + direction(left_held, right_held) * speed * elapsed, lo, hi)
}

/// One tick of paddle movement from the currently-held keys, clamped to the
/// arena bounds.
pub fn move_paddle(
    x: i64,
    left_held: bool,
    right_held: bool,
    speed: i64,
    elapsed: i64,
    left_bound: i64,
    right_bound: i64,
) -> (r: i64)
    requires
        left_bound <= right_bound,
        speed >= 0,
        elapsed >= 0,
        speed * elapsed <= COORD_LIMIT,
        -COORD_LIMIT <= x <= COORD_LIMIT,
    ensures
        r == paddle_step(x as int, left_held, right_held, speed as int, elapsed as int,
            left_bound as int, right_bound as int),
        left_bound <= r <= right_bound,
{
    let step = speed * elapsed;
    let candidate = if right_held && !left_held {
        x + step
    } else if left_held && !right_held {
        x - step
    } else {
        x
    };
    proof {
        let d = direction(left_held, right_held);
        let s = speed as int;
        let e = elapsed as int;
        assert(d * s * e == d * (s * e)) by (nonlinear_arith);
        if right_held && !left_held {
            assert(d * (s * e) == s * e) by (nonlinear_arith)
                requires d == 1;
        } else if left_held && !right_held {
            assert(d * (s * e) == -(s * e)) by (nonlinear_arith)
                requires d == -1;
        } else {
            assert(d * (s * e) == 0) by (nonlinear_arith)
                requires d == 0;
        }
    }
    if candidate < left_bound {
        left_bound
    } else if candidate > right_bound {
        right_bound
    } else {
        candidate
    }
}

/// One tick's worth of input: which keys were held, and the elapsed time.
pub struct PaddleInput {
    pub left_held: bool,
    pub right_held: bool,
    pub elapsed: int,
}

/// The paddle's x-coordinate after a whole sequence of per-tick inputs.
pub open spec fn paddle_after(
    x: int,
    inputs: Seq<PaddleInput>,
    speed: int,
    lo: int,
    hi: int,
) -> int
    decreases inputs.len(),
{
    if inputs.len() == 0 {
        x
    } else {
        let prev = paddle_after(x, inputs.drop_last(), speed, lo, hi);
        let last = inputs.last();
        paddle_step(prev, last.left_held, last.right_held, speed, last.elapsed, lo, hi)
    }
}

/// Law: from any starting x-coordinate, the paddle lies within
/// `[lo, hi]` after any non-empty sequence of inputs, whatever keys were held
/// and for however long each tick lasted.
pub proof fn lemma_paddle_always_in_bounds(
    x: int,
    inputs: Seq<PaddleInput>,
    speed: int,
    lo: int,
    hi: int,
)
    requires
        lo <= hi,
        inputs.len() > 0,
    ensures
        lo <= paddle_after(x, inputs, speed, lo, hi) <= hi,
    decreases inputs.len(),
{
    if inputs.len() > 1 {
        lemma_paddle_always_in_bounds(x, inputs.drop_last(), speed, lo, hi);
    }
}

/// Move every paddle collider to the given x-coordinate, in place, leaving
/// its y-coordinate and extents — and every non-paddle collider — unchanged.
pub fn update_paddle_collider(colliders: &mut Vec<Collider>, new_x: i64)
    ensures
        final(colliders)@.len() == old(colliders)@.len(),
        forall|i: int| 0 <= i < old(colliders)@.len()
            && !((#[trigger] old(colliders)@[i]).kind is Paddle)
            ==> final(colliders)@[i] == old(colliders)@[i],
        forall|i: int| 0 <= i < old(colliders)@.len()
            && (#[trigger] old(colliders)@[i]).kind is Paddle
            ==> final(colliders)@[i] == (Collider {
                kind: old(colliders)@[i].kind,
                body: Aabb {
                    center: Vec2i { x: new_x, y: old(colliders)@[i].body.center.y },
                    half: old(colliders)@[i].body.half,
                },
            }),
{
    let mut i: usize = 0;
    while i < colliders.len()
        invariant
            i <= colliders@.len(),
            colliders@.len() == old(colliders)@.len(),
            forall|j: int| i <= j < colliders@.len()
                ==> (#[trigger] colliders@[j]) == old(colliders)@[j],
            forall|j: int| 0 <= j < i && !((#[trigger] old(colliders)@[j]).kind is Paddle)
                ==> colliders@[j] == old(colliders)@[j],
            forall|j: int| 0 <= j < i && (#[trigger] old(colliders)@[j]).kind is Paddle
                ==> colliders@[j] == (Collider {
                    kind: old(colliders)@[j].kind,
                    body: Aabb {
                        center: Vec2i { x: new_x, y: old(colliders)@[j].body.center.y },
                        half: old(colliders)@[j].body.half,
                    },
                }),
        decreases colliders@.len() - i,
    {
        let c = colliders[i];
        if matches!(c.kind, ColliderKind::Paddle) {
            let updated = Collider {
                kind: c.kind,
                body: Aabb {
                    center: Vec2i { x: new_x, y: c.body.center.y },
                    half: c.body.half,
                },
            };
            colliders.set(i, updated);
        }
        i = i + 1;
    }
}

} // verus!
