use breakout::collision::{BallState, Collider, ColliderKind, resolve_collisions};
use breakout::events::EventQueue;
use breakout::geometry::{Aabb, Side, Vec2i, classify_collision};
use breakout::motion::apply_motion;
use breakout::scoreboard::Scoreboard;

fn collider(kind: ColliderKind, cx: i64, cy: i64, hx: i64, hy: i64) -> Collider {
    Collider { kind, body: Aabb { center: Vec2i { x: cx, y: cy }, half: Vec2i { x: hx, y: hy } } }
}

#[test]
fn ball_bounces_off_the_bottom_wall() {
    // Positions in thousandths of a unit: the ball starts at (0, -50) with
    // extent 30 x 30, moving down-right at (0.5, -0.5) scaled to speed 400
    // (component 400 / sqrt(2), about 283 per unit time), toward the bottom
    // wall whose top surface lies at -295.
    let mut ball = BallState {
        pos: Vec2i { x: 0, y: -50_000 },
        half: Vec2i { x: 15_000, y: 15_000 },
        vel: Vec2i { x: 283, y: -283 },
    };
    let bottom_wall = collider(ColliderKind::Wall, 0, -300_000, 455_000, 5_000);
    let mut colliders = vec![bottom_wall];
    let mut score = Scoreboard::new();
    let mut events = EventQueue::new();
    let mut ticks = 0u64;
    while events.pending == 0 {
        apply_motion(&mut ball.pos, ball.vel, 1);
        let ball_box = ball.bounding_box();
        if ball.pos.y - ball.half.y <= bottom_wall.body.center.y + bottom_wall.body.half.y {
            assert_eq!(classify_collision(&ball_box, &bottom_wall.body), Side::Bottom);
        }
        colliders = resolve_collisions(&mut ball, &colliders, &mut score, &mut events);
        ticks += 1;
        assert!(ticks < 1_000_000, "ball never reached the bottom wall");
    }
    // The ball's lower edge just crossed the wall's surface at -295.
    assert!(ball.pos.y - ball.half.y <= -295_000);
    assert!(ball.pos.y - ball.half.y > -296_000);
    // The y-velocity flipped from negative to positive; x is unchanged.
    assert_eq!(ball.vel, Vec2i { x: 283, y: 283 });
    // Walls are never destroyed and never score.
    assert_eq!(colliders.len(), 1);
    assert_eq!(score.read(), 0);
    // The dispatcher consumes the event exactly once.
    assert!(events.drain());
    assert!(!events.drain());
}

#[test]
fn two_adjacent_bricks_both_score_and_vanish() {
    // Two bricks of one row, centers 105 apart; the ball straddles the gap
    // below them, moving up, so both are struck in the same tick.
    let brick_a = collider(ColliderKind::Brick, -315, 45, 50, 15);
    let brick_b = collider(ColliderKind::Brick, -210, 45, 50, 15);
    let mut ball = BallState {
        pos: Vec2i { x: -262, y: 22 },
        half: Vec2i { x: 15, y: 15 },
        vel: Vec2i { x: 50, y: 100 },
    };
    let colliders = vec![brick_a, brick_b];
    let mut score = Scoreboard::new();
    let mut events = EventQueue::new();
    let live = resolve_collisions(&mut ball, &colliders, &mut score, &mut events);
    assert_eq!(score.read(), 2);
    assert!(live.is_empty());
    assert_eq!(events.pending, 2);
    // Both bricks lie above the ball: the first flips the upward y-velocity,
    // the second finds the ball already departing and leaves it alone.
    assert_eq!(ball.vel, Vec2i { x: 50, y: -100 });
    // The ball's position is never touched by resolution.
    assert_eq!(ball.pos, Vec2i { x: -262, y: 22 });
}

#[test]
fn no_overlap_means_no_change_at_all() {
    let mut ball = BallState {
        pos: Vec2i { x: 0, y: 0 },
        half: Vec2i { x: 15, y: 15 },
        vel: Vec2i { x: 7, y: -9 },
    };
    let colliders = vec![
        collider(ColliderKind::Wall, -450, 0, 5, 305),
        collider(ColliderKind::Paddle, 0, -240, 60, 10),
        collider(ColliderKind::Brick, 100, 45, 50, 15),
    ];
    let mut score = Scoreboard::new();
    let mut events = EventQueue::new();
    let live = resolve_collisions(&mut ball, &colliders, &mut score, &mut events);
    assert_eq!(ball.vel, Vec2i { x: 7, y: -9 });
    assert_eq!(live, colliders);
    assert_eq!(score.read(), 0);
    assert_eq!(events.pending, 0);
    assert!(!events.drain());
}

#[test]
fn a_brick_is_never_scored_twice() {
    let brick = collider(ColliderKind::Brick, 0, 0, 50, 15);
    let mut ball = BallState {
        pos: Vec2i { x: 0, y: -20 },
        half: Vec2i { x: 15, y: 15 },
        vel: Vec2i { x: 0, y: 50 },
    };
    let colliders = vec![brick];
    let mut score = Scoreboard::new();
    let mut events = EventQueue::new();
    let live = resolve_collisions(&mut ball, &colliders, &mut score, &mut events);
    assert_eq!(score.read(), 1);
    assert!(live.is_empty());
    // A second pass from the same position finds the brick gone: the score
    // stays at 1 however often the overlap would have recurred.
    let live_again = resolve_collisions(&mut ball, &live, &mut score, &mut events);
    assert_eq!(score.read(), 1);
    assert!(live_again.is_empty());
}

#[test]
fn x_and_y_reflections_combine_in_one_tick() {
    // The ball grazes the arena's bottom-left corner: the left wall flips x,
    // the bottom wall flips y, within the same tick.
    let left_wall = collider(ColliderKind::Wall, -450, 0, 5, 305);
    let bottom_wall = collider(ColliderKind::Wall, 0, -300, 455, 5);
    let mut ball = BallState {
        pos: Vec2i { x: -430, y: -280 },
        half: Vec2i { x: 15, y: 15 },
        vel: Vec2i { x: -100, y: -100 },
    };
    let colliders = vec![left_wall, bottom_wall];
    let mut score = Scoreboard::new();
    let mut events = EventQueue::new();
    let live = resolve_collisions(&mut ball, &colliders, &mut score, &mut events);
    assert_eq!(ball.vel, Vec2i { x: 100, y: 100 });
    assert_eq!(live.len(), 2);
    assert_eq!(events.pending, 2);
    assert_eq!(score.read(), 0);
}

#[test]
fn walls_and_paddle_survive_being_struck() {
    let wall = collider(ColliderKind::Wall, 0, -300, 455, 5);
    let paddle = collider(ColliderKind::Paddle, 0, -280, 60, 10);
    let brick = collider(ColliderKind::Brick, 0, -270, 50, 15);
    let mut ball = BallState {
        pos: Vec2i { x: 0, y: -280 },
        half: Vec2i { x: 15, y: 15 },
        vel: Vec2i { x: 0, y: -50 },
    };
    let colliders = vec![wall, paddle, brick];
    let mut score = Scoreboard::new();
    let mut events = EventQueue::new();
    let live = resolve_collisions(&mut ball, &colliders, &mut score, &mut events);
    assert_eq!(live, vec![wall, paddle]);
    assert_eq!(score.read(), 1);
    assert_eq!(events.pending, 3);
}
