use breakout::geometry::{Aabb, Vec2i};
use breakout::motion::apply_motion;
use breakout::paddle::{move_paddle, update_paddle_collider};
use breakout::collision::{Collider, ColliderKind};

#[test]
fn motion_advances_position_by_velocity_times_elapsed() {
    let mut pos = Vec2i { x: 10, y: -20 };
    apply_motion(&mut pos, Vec2i { x: 3, y: -4 }, 5);
    assert_eq!(pos, Vec2i { x: 25, y: -40 });
    apply_motion(&mut pos, Vec2i { x: 3, y: -4 }, 0);
    assert_eq!(pos, Vec2i { x: 25, y: -40 });
}

#[test]
fn motion_is_linear_in_elapsed_time() {
    let vel = Vec2i { x: 17, y: -29 };
    let mut split = Vec2i { x: 1000, y: 2000 };
    apply_motion(&mut split, vel, 13);
    apply_motion(&mut split, vel, 29);
    let mut whole = Vec2i { x: 1000, y: 2000 };
    apply_motion(&mut whole, vel, 42);
    assert_eq!(split, whole);
}

#[test]
fn both_keys_held_cancel_to_zero_displacement() {
    let x = move_paddle(37, true, true, 500, 16, -375, 375);
    assert_eq!(x, 37);
    let still = move_paddle(37, false, false, 500, 16, -375, 375);
    assert_eq!(still, 37);
}

#[test]
fn held_key_moves_paddle_by_speed_times_elapsed() {
    assert_eq!(move_paddle(0, false, true, 500, 16, -10000, 10000), 8000);
    assert_eq!(move_paddle(0, true, false, 500, 16, -10000, 10000), -8000);
}

#[test]
fn paddle_is_clamped_to_the_arena_bounds() {
    assert_eq!(move_paddle(370, false, true, 500, 16, -375, 375), 375);
    assert_eq!(move_paddle(-370, true, false, 500, 16, -375, 375), -375);
    // Starting outside the bounds still lands inside them.
    assert_eq!(move_paddle(9999, false, false, 500, 16, -375, 375), 375);
}

#[test]
fn paddle_collider_follows_the_paddle_only() {
    let wall = Collider {
        kind: ColliderKind::Wall,
        body: Aabb { center: Vec2i { x: -450, y: 0 }, half: Vec2i { x: 5, y: 305 } },
    };
    let paddle = Collider {
        kind: ColliderKind::Paddle,
        body: Aabb { center: Vec2i { x: 0, y: -240 }, half: Vec2i { x: 60, y: 10 } },
    };
    let brick = Collider {
        kind: ColliderKind::Brick,
        body: Aabb { center: Vec2i { x: 100, y: 45 }, half: Vec2i { x: 50, y: 15 } },
    };
    let mut colliders = vec![wall, paddle, brick];
    update_paddle_collider(&mut colliders, 123);
    assert_eq!(colliders[0], wall);
    assert_eq!(colliders[2], brick);
    assert_eq!(colliders[1].body.center, Vec2i { x: 123, y: -240 });
    assert_eq!(colliders[1].body.half, Vec2i { x: 60, y: 10 });
    assert!(matches!(colliders[1].kind, ColliderKind::Paddle));
}
