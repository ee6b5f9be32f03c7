//! Axis-aligned bounding boxes, inclusive overlap testing, collision-side
//! classification by smallest penetration, and velocity reflection.

use vstd::prelude::*;

verus! {

/// Bound on every coordinate the library works with: positions, half-extents
/// and velocities all stay within it, so that any sum or difference of four
/// coordinates fits in an `i64` without overflow.
pub const COORD_LIMIT: i64 = 0x1000_0000_0000_0000;

/// A two-dimensional integer vector: a position, an extent or a velocity.
#[derive(Clone, Copy, PartialEq, Eq, Structural, Debug)]
pub struct Vec2i {
    pub x: i64,
    pub y: i64,
}

impl Vec2i {
    /// Both coordinates lie within the global coordinate bound.
    pub open spec fn in_range(self) -> bool {
        &&& -COORD_LIMIT <= self.x <= COORD_LIMIT
        &&& -COORD_LIMIT <= self.y <= COORD_LIMIT
    }
}

/// An axis-aligned bounding box: a center and half-extents.
#[derive(Clone, Copy, PartialEq, Eq, Structural, Debug)]
pub struct Aabb {
    pub center: Vec2i,
    pub half: Vec2i,
}

impl Aabb {
    /// Well-formed box: strictly positive half-extents, coordinates in range.
    pub open spec fn wf(self) -> bool {
        &&& self.half.x > 0
        &&& self.half.y > 0
        &&& self.center.in_range()
        &&& self.half.in_range()
    }

    pub open spec fn left(self) -> int {
        self.center.x - self.half.x
    }

    pub open spec fn right(self) -> int {
        self.center.x + self.half.x
    }

    pub open spec fn bottom(self) -> int {
        self.center.y - self.half.y
    }

    pub open spec fn top(self) -> int {
        self.center.y + self.half.y
    }
}

/// Inclusive AABB overlap: boxes that merely touch at an edge or a corner
/// count as overlapping, so a grazing contact still registers as a collision.
pub open spec fn overlaps(a: Aabb, b: Aabb) -> bool {
    &&& a.left() <= b.right()
    &&& b.left() <= a.right()
    &&& a.bottom() <= b.top()
    &&& b.bottom() <= a.top()
}

/// Executable inclusive overlap test.
pub fn boxes_overlap(a: &Aabb, b: &Aabb) -> (r: bool)
    requires
        a.wf(),
        b.wf(),
    ensures
        r == overlaps(*a, *b),
{
    a.center.x - a.half.x <= b.center.x + b.half.x
        && b.center.x - b.half.x <= a.center.x + a.half.x
        && a.center.y - a.half.y <= b.center.y + b.half.y
        && b.center.y - b.half.y <= a.center.y + a.half.y
}

/// The side of the ball at which a collision happened, seen from the ball:
/// `Bottom` means the struck collider lies below the ball, `Left` that it
/// lies to the ball's left, and so on. `Inside` means the ball's center lies
/// strictly inside the struck collider; an `Inside` hit never deflects.
#[derive(Clone, Copy, PartialEq, Eq, Structural, Debug)]
pub enum Side {
    Left,
    Right,
    Top,
    Bottom,
    Inside,
}

/// The ball's center lies strictly inside the other box on both axes.
pub open spec fn center_inside(ball: Aabb, other: Aabb) -> bool {
    &&& other.left() < ball.center.x < other.right()
    &&& other.bottom() < ball.center.y < other.top()
}

/// Classify which face of the other box the ball penetrates: the smallest of
/// the four penetration depths (the ball's edge past the opposing face of the
/// other box) decides the side; ties are broken in the order left, right,
/// bottom, top. A ball whose center is strictly inside the other box is
/// classified `Inside`. Meaningful when `overlaps(ball, other)` holds, where
/// all four depths are non-negative.
pub open spec fn classify(ball: Aabb, other: Aabb) -> Side {
    if center_inside(ball, other) {
        Side::Inside
    } else {
        let from_left = other.right() - ball.left();
        let from_right = ball.right() - other.left();
        let from_below = other.top() - ball.bottom();
        let from_above = ball.top() - other.bottom();
        if from_left <= from_right && from_left <= from_below && from_left <= from_above {
            Side::Left
        } else if from_right <= from_below && from_right <= from_above {
            Side::Right
        } else if from_below <= from_above {
            Side::Bottom
        } else {
            Side::Top
        }
    }
}

/// Executable collision-side classification.
pub fn classify_collision(ball: &Aabb, other: &Aabb) -> (s: Side)
    requires
        ball.wf(),
        other.wf(),
    ensures
        s == classify(*ball, *other),
{
    let inside_x = other.center.x - other.half.x < ball.center.x
        && ball.center.x < other.center.x + other.half.x;
    let inside_y = other.center.y - other.half.y < ball.center.y
        && ball.center.y < other.center.y + other.half.y;
    if inside_x && inside_y {
        Side::Inside
    } else {
        let from_left = (other.center.x + other.half.x) - (ball.center.x - ball.half.x);
        let from_right = (ball.center.x + ball.half.x) - (other.center.x - other.half.x);
        let from_below = (other.center.y + other.half.y) - (ball.center.y - ball.half.y);
        let from_above = (ball.center.y + ball.half.y) - (other.center.y - other.half.y);
        if from_left <= from_right && from_left <= from_below && from_left <= from_above {
            Side::Left
        } else if from_right <= from_below && from_right <= from_above {
            Side::Right
        } else if from_below <= from_above {
            Side::Bottom
        } else {
            Side::Top
        }
    }
}

/// The ball's velocity after striking a collider on `side`: the component
/// pointing toward the struck collider is negated; a component already moving
/// away from it is kept unchanged, which prevents re-reflecting a departing
/// ball when the same overlap persists across ticks. `Inside` never changes
/// the velocity.
pub open spec fn reflected_velocity(vel: Vec2i, side: Side) -> Vec2i {
    match side {
        Side::Left => if vel.x < 0 {
            (Vec2i { x: (-vel.x) as i64, y: vel.y })
        } else {
            vel
        },
        Side::Right => if vel.x > 0 {
            (Vec2i { x: (-vel.x) as i64, y: vel.y })
        } else {
            vel
        },
        Side::Bottom => if vel.y < 0 {
            (Vec2i { x: vel.x, y: (-vel.y) as i64 })
        } else {
            vel
        },
        Side::Top => if vel.y > 0 {
            (Vec2i { x: vel.x, y: (-vel.y) as i64 })
        } else {
            vel
        },
        Side::Inside => vel,
    }
}

/// Executable velocity reflection.
pub fn reflect_velocity(vel: Vec2i, side: Side) -> (r: Vec2i)
    requires
        vel.in_range(),
    ensures
        r == reflected_velocity(vel, side),
        r.in_range(),
{
    match side {
        Side::Left => if vel.x < 0 {
            Vec2i { x: -vel.x, y: vel.y }
        } else {
            vel
        },
        Side::Right => if vel.x > 0 {
            Vec2i { x: -vel.x, y: vel.y }
        } else {
            vel
        },
        Side::Bottom => if vel.y < 0 {
            Vec2i { x: vel.x, y: -vel.y }
        } else {
            vel
        },
        Side::Top => if vel.y > 0 {
            Vec2i { x: vel.x, y: -vel.y }
        } else {
            vel
        },
        Side::Inside => vel,
    }
}

} // verus!
