use breakout::collision::{Collider, ColliderKind, resolve_collisions};
use breakout::events::EventQueue;
use breakout::geometry::Vec2i;
use breakout::layout::{Config, WallLocation, brick_grid, initial_ball, paddle_bounds,
    paddle_collider, wall_collider};
use breakout::scoreboard::Scoreboard;

/// The classic arena: 900 x 600, walls 10 thick, paddle 120 x 20 sitting 60
/// above the floor, bricks 100 x 30 with 5 gaps.
fn classic() -> Config {
    Config {
        left_wall: -450,
        right_wall: 450,
        bottom_wall: -300,
        top_wall: 300,
        wall_thickness: 10,
        paddle_width: 120,
        paddle_height: 20,
        paddle_speed: 500,
        paddle_padding: 10,
        gap_paddle_floor: 60,
        ball_width: 30,
        ball_height: 30,
        ball_start_x: 0,
        ball_start_y: -50,
        ball_vel_x: 283,
        ball_vel_y: -283,
        brick_width: 100,
        brick_height: 30,
        gap_between_bricks: 5,
        gap_paddle_bricks: 270,
        gap_bricks_ceiling: 20,
        gap_bricks_sides: 20,
    }
}

/// A narrower, shallower arena whose spans work out to exactly 7 brick
/// columns and 4 brick rows.
fn seven_by_four() -> Config {
    Config {
        left_wall: -400,
        right_wall: 400,
        top_wall: 300,
        gap_bricks_ceiling: 110,
        ..classic()
    }
}

#[test]
fn classic_configuration_is_valid() {
    assert!(classic().is_valid());
    assert!(seven_by_four().is_valid());
}

#[test]
fn degenerate_spans_are_rejected() {
    let flat = Config { top_wall: -300, ..classic() };
    assert!(!flat.is_valid());
    let thin = Config { left_wall: 440, ..classic() };
    assert!(!thin.is_valid());
    let no_room_for_bricks = Config { gap_paddle_bricks: 600, ..classic() };
    assert!(!no_room_for_bricks.is_valid());
    let odd_thickness = Config { wall_thickness: 9, ..classic() };
    assert!(!odd_thickness.is_valid());
    let no_column_fits = Config { brick_width: 900, ..classic() };
    assert!(!no_column_fits.is_valid());
}

#[test]
fn walls_are_placed_on_the_arena_edges() {
    let cfg = classic();
    assert_eq!(WallLocation::Left.position(&cfg), Vec2i { x: -450, y: 0 });
    assert_eq!(WallLocation::Right.position(&cfg), Vec2i { x: 450, y: 0 });
    assert_eq!(WallLocation::Bottom.position(&cfg), Vec2i { x: 0, y: -300 });
    assert_eq!(WallLocation::Top.position(&cfg), Vec2i { x: 0, y: 300 });
    assert_eq!(WallLocation::Left.size(&cfg), Vec2i { x: 10, y: 610 });
    assert_eq!(WallLocation::Top.size(&cfg), Vec2i { x: 910, y: 10 });
}

#[test]
fn wall_colliders_halve_the_sizes() {
    let cfg = classic();
    let bottom = wall_collider(WallLocation::Bottom, &cfg);
    assert!(matches!(bottom.kind, ColliderKind::Wall));
    assert_eq!(bottom.body.center, Vec2i { x: 0, y: -300 });
    assert_eq!(bottom.body.half, Vec2i { x: 455, y: 5 });
    let left = wall_collider(WallLocation::Left, &cfg);
    assert_eq!(left.body.half, Vec2i { x: 5, y: 305 });
}

#[test]
fn paddle_bounds_leave_room_for_wall_and_padding() {
    let cfg = classic();
    assert_eq!(paddle_bounds(&cfg), (-375, 375));
}

#[test]
fn paddle_collider_sits_above_the_floor() {
    let cfg = classic();
    let p = paddle_collider(&cfg, 42);
    assert!(matches!(p.kind, ColliderKind::Paddle));
    assert_eq!(p.body.center, Vec2i { x: 42, y: -240 });
    assert_eq!(p.body.half, Vec2i { x: 60, y: 10 });
}

#[test]
fn initial_ball_comes_from_the_configuration() {
    let b = initial_ball(&classic());
    assert_eq!(b.pos, Vec2i { x: 0, y: -50 });
    assert_eq!(b.half, Vec2i { x: 15, y: 15 });
    assert_eq!(b.vel, Vec2i { x: 283, y: -283 });
}

#[test]
fn classic_grid_is_eight_by_seven() {
    let cfg = classic();
    let bricks = brick_grid(&cfg);
    assert_eq!(bricks.len(), 56);
    // Bottom-left brick: the block of 8 columns (835 wide) centered on 0.
    assert_eq!(bricks[0].body.center, Vec2i { x: -367, y: 45 });
    assert_eq!(bricks[0].body.half, Vec2i { x: 50, y: 15 });
    // Top-right brick: 7 columns right, 6 rows up.
    assert_eq!(bricks[55].body.center, Vec2i { x: -367 + 7 * 105, y: 45 + 6 * 35 });
    for b in &bricks {
        assert!(matches!(b.kind, ColliderKind::Brick));
        // Every brick fits inside the walls, above the paddle.
        assert!(b.body.center.x - b.body.half.x >= -445);
        assert!(b.body.center.x + b.body.half.x <= 445);
        assert!(b.body.center.y + b.body.half.y <= 295);
        assert!(b.body.center.y - b.body.half.y >= -230);
    }
}

#[test]
fn destroying_all_twenty_eight_bricks_leaves_walls_and_paddle() {
    let cfg = seven_by_four();
    let bricks = brick_grid(&cfg);
    assert_eq!(bricks.len(), 28);

    let mut colliders: Vec<Collider> = vec![
        wall_collider(WallLocation::Left, &cfg),
        wall_collider(WallLocation::Right, &cfg),
        wall_collider(WallLocation::Bottom, &cfg),
        wall_collider(WallLocation::Top, &cfg),
        paddle_collider(&cfg, 0),
    ];
    colliders.extend(bricks.iter().copied());
    assert_eq!(colliders.len(), 33);

    let mut score = Scoreboard::new();
    let mut events = EventQueue::new();
    let mut ball = initial_ball(&cfg);
    // Teleport the ball onto each brick's center in turn and resolve.
    for target in &bricks {
        ball.pos = target.body.center;
        colliders = resolve_collisions(&mut ball, &colliders, &mut score, &mut events);
    }
    assert_eq!(score.read(), 28);
    assert_eq!(colliders.len(), 5);
    for c in &colliders {
        assert!(!matches!(c.kind, ColliderKind::Brick));
    }
}
