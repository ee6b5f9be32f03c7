//! The collision resolver: each tick, test the ball against every live
//! collider, reflect the ball's velocity per struck side, emit one collision
//! event per overlap, and destroy (and score) every brick the ball overlaps.

use vstd::prelude::*;
use crate::geometry::{Aabb, Vec2i, overlaps, classify, reflected_velocity, boxes_overlap,
    classify_collision, reflect_velocity};
use crate::scoreboard::Scoreboard;
use crate::events::EventQueue;

verus! {

/// What a collider is attached to; only bricks are destructible and scorable.
#[derive(Clone, Copy, PartialEq, Eq, Structural, Debug)]
pub enum ColliderKind {
    Wall,
    Paddle,
    Brick,
}

/// One entity participating in overlap testing against the ball.
#[derive(Clone, Copy, PartialEq, Eq, Structural, Debug)]
pub struct Collider {
    pub kind: ColliderKind,
    pub body: Aabb,
}

impl Collider {
    pub open spec fn wf(self) -> bool {
        self.body.wf()
    }
}

/// The ball: center position, half-extents, and velocity in units per time
/// unit.
#[derive(Clone, Copy, PartialEq, Eq, Structural, Debug)]
pub struct BallState {
    pub pos: Vec2i,
    pub half: Vec2i,
    pub vel: Vec2i,
}

impl BallState {
    pub open spec fn aabb(self) -> Aabb {
        Aabb { center: self.pos, half: self.half }
    }

    pub open spec fn wf(self) -> bool {
        &&& self.aabb().wf()
        &&& self.vel.in_range()
    }

    /// The ball's current bounding box.
    pub fn bounding_box(&self) -> (b: Aabb)
        ensures
            b == self.aabb(),
    {
        Aabb { center: self.pos, half: self.half }
    }
}

/// A brick the ball overlaps: destroyed and worth one point this tick.
pub open spec fn brick_hit(ball: Aabb, c: Collider) -> bool {
    c.kind is Brick && overlaps(ball, c.body)
}

/// The colliders left alive after one resolution pass: every collider except
/// the bricks the ball overlaps, in their original order.
pub open spec fn survivors(ball: Aabb, cs: Seq<Collider>) -> Seq<Collider>
    decreases cs.len(),
{
    if cs.len() == 0 {
        Seq::empty()
    } else {
        let prev = survivors(ball, cs.drop_last());
        if brick_hit(ball, cs.last()) {
            prev
        } else {
            prev.push(cs.last())
        }
    }
}

/// How many bricks the ball overlaps: the score gained in one pass.
pub open spec fn bricks_destroyed(ball: Aabb, cs: Seq<Collider>) -> nat
    decreases cs.len(),
{
    if cs.len() == 0 {
        0
    } else {
        bricks_destroyed(ball, cs.drop_last()) + if brick_hit(ball, cs.last()) {
            1nat
        } else {
            0nat
        }
    }
}

/// How many colliders the ball overlaps: one collision event is emitted for
/// each.
pub open spec fn collisions_counted(ball: Aabb, cs: Seq<Collider>) -> nat
    decreases cs.len(),
{
    if cs.len() == 0 {
        0
    } else {
        collisions_counted(ball, cs.drop_last()) + if overlaps(ball, cs.last().body) {
            1nat
        } else {
            0nat
        }
    }
}

/// The ball's velocity after reflecting off every overlapped collider in
/// order: each overlap independently contributes its side's reflection, so
/// x and y reflections from different colliders can combine within one tick.
pub open spec fn velocity_after(ball: Aabb, vel: Vec2i, cs: Seq<Collider>) -> Vec2i
    decreases cs.len(),
{
    if cs.len() == 0 {
        vel
    } else {
        let v = velocity_after(ball, vel, cs.drop_last());
        if overlaps(ball, cs.last().body) {
            reflected_velocity(v, classify(ball, cs.last().body))
        } else {
            v
        }
    }
}

/// One resolution pass over all live colliders, in order: reflects the ball's
/// velocity off each overlapped collider (position is untouched), emits one
/// collision event per overlap, scores one point per overlapped brick, and
/// returns the surviving colliders with every overlapped brick removed.
pub fn resolve_collisions(
    ball: &mut BallState,
    colliders: &Vec<Collider>,
    score: &mut Scoreboard,
    events: &mut EventQueue,
) -> (live: Vec<Collider>)
    requires
        old(ball).wf(),
        forall|j: int| 0 <= j < colliders@.len() ==> (#[trigger] colliders@[j]).wf(),
        old(score).score + colliders@.len() <= u64::MAX,
        old(events).pending + colliders@.len() <= u64::MAX,
    ensures
        final(ball).pos == old(ball).pos,
        final(ball).half == old(ball).half,
        final(ball).vel == velocity_after(old(ball).aabb(), old(ball).vel, colliders@),
        final(ball).wf(),
        live@ == survivors(old(ball).aabb(), colliders@),
        forall|j: int| 0 <= j < live@.len() ==> (#[trigger] live@[j]).wf(),
        final(score).score == old(score).score + bricks_destroyed(old(ball).aabb(), colliders@),
        final(events).pending == old(events).pending
            + collisions_counted(old(ball).aabb(), colliders@),
{
    let ball_box = ball.bounding_box();
    let mut live: Vec<Collider> = Vec::new();
    let mut i: usize = 0;
    while i < colliders.len()
        invariant
            i <= colliders@.len(),
            ball.pos == old(ball).pos,
            ball.half == old(ball).half,
            ball_box == old(ball).aabb(),
            old(ball).wf(),
            ball.vel == velocity_after(old(ball).aabb(), old(ball).vel,
                colliders@.subrange(0, i as int)),
            ball.vel.in_range(),
            live@ == survivors(old(ball).aabb(), colliders@.subrange(0, i as int)),
            forall|j: int| 0 <= j < live@.len() ==> (#[trigger] live@[j]).wf(),
            score.score == old(score).score
                + bricks_destroyed(old(ball).aabb(), colliders@.subrange(0, i as int)),
            bricks_destroyed(old(ball).aabb(), colliders@.subrange(0, i as int)) <= i,
            events.pending == old(events).pending
                + collisions_counted(old(ball).aabb(), colliders@.subrange(0, i as int)),
            collisions_counted(old(ball).aabb(), colliders@.subrange(0, i as int)) <= i,
            forall|j: int| 0 <= j < colliders@.len() ==> (#[trigger] colliders@[j]).wf(),
            old(score).score + colliders@.len() <= u64::MAX,
            old(events).pending + colliders@.len() <= u64::MAX,
        decreases colliders@.len() - i,
    {
        let c = colliders[i];
        proof {
            assert(colliders@.subrange(0, i + 1 as int).drop_last()
                =~= colliders@.subrange(0, i as int));
            assert(colliders@.subrange(0, i + 1 as int).last() == colliders@[i as int]);
        }
        if boxes_overlap(&ball_box, &c.body) {
            events.emit();
            if matches!(c.kind, ColliderKind::Brick) {
                score.increment();
            } else {
                live.push(c);
            }
            let side = classify_collision(&ball_box, &c.body);
            ball.vel = reflect_velocity(ball.vel, side);
        } else {
            live.push(c);
        }
        i = i + 1;
    }
    proof {
        assert(colliders@.subrange(0, colliders@.len() as int) =~= colliders@);
    }
    live
}

/// Law: a ball whose bounding box overlaps no collider in the sequence keeps
/// its velocity unchanged through collision resolution.
pub proof fn lemma_no_overlap_keeps_velocity(ball: Aabb, vel: Vec2i, cs: Seq<Collider>)
    requires
        forall|j: int| 0 <= j < cs.len() ==> !overlaps(ball, (#[trigger] cs[j]).body),
    ensures
        velocity_after(ball, vel, cs) == vel,
    decreases cs.len(),
{
    if cs.len() > 0 {
        assert(cs.last() == cs[cs.len() - 1]);
        assert(forall|j: int| 0 <= j < cs.drop_last().len()
            ==> (#[trigger] cs.drop_last()[j]) == cs[j]);
        lemma_no_overlap_keeps_velocity(ball, vel, cs.drop_last());
    }
}

/// No surviving collider is a brick the ball still overlaps: every overlapped
/// brick was removed by the pass that scored it.
pub proof fn lemma_survivors_no_brick_hit(ball: Aabb, cs: Seq<Collider>)
    ensures
        forall|j: int| 0 <= j < survivors(ball, cs).len()
            ==> !brick_hit(ball, #[trigger] survivors(ball, cs)[j]),
    decreases cs.len(),
{
    if cs.len() > 0 {
        lemma_survivors_no_brick_hit(ball, cs.drop_last());
        let prev = survivors(ball, cs.drop_last());
        let s = survivors(ball, cs);
        if !brick_hit(ball, cs.last()) {
            assert(s == prev.push(cs.last()));
            assert forall|j: int| 0 <= j < s.len() implies !brick_hit(ball, s[j]) by {
                if j < prev.len() {
                    assert(s[j] == prev[j]);
                } else {
                    assert(s[j] == cs.last());
                }
            }
        }
    }
}

/// A sequence without any overlapped brick yields no points.
pub proof fn lemma_no_brick_hit_means_no_score(ball: Aabb, cs: Seq<Collider>)
    requires
        forall|j: int| 0 <= j < cs.len() ==> !brick_hit(ball, #[trigger] cs[j]),
    ensures
        bricks_destroyed(ball, cs) == 0,
    decreases cs.len(),
{
    if cs.len() > 0 {
        assert(cs.last() == cs[cs.len() - 1]);
        assert(forall|j: int| 0 <= j < cs.drop_last().len()
            ==> (#[trigger] cs.drop_last()[j]) == cs[j]);
        lemma_no_brick_hit_means_no_score(ball, cs.drop_last());
    }
}

/// Law: a brick is scored at most once, ever. One pass removes every brick it
/// scores, so a second pass at the same ball position over the survivors
/// destroys nothing and adds nothing to the score.
pub proof fn lemma_brick_scored_at_most_once(ball: Aabb, cs: Seq<Collider>)
    ensures
        bricks_destroyed(ball, survivors(ball, cs)) == 0,
{
    lemma_survivors_no_brick_hit(ball, cs);
    lemma_no_brick_hit_means_no_score(ball, survivors(ball, cs));
}

} // verus!
