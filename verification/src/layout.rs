//! The geometry registry: static placement of walls, paddle and the brick
//! grid, computed from the configuration constants. Purely deterministic; a
//! degenerate configuration (a non-positive computed span) is rejected up
//! front by `Config::is_valid`, the startup configuration check.

use vstd::prelude::*;
use vstd::arithmetic::div_mod::{lemma_basic_div, lemma_div_by_self, lemma_div_is_ordered,
    lemma_div_multiples_vanish, lemma_div_nonincreasing, lemma_fundamental_div_mod,
    lemma_fundamental_div_mod_converse, lemma_div_pos_is_pos, lemma_mod_multiples_vanish};
use vstd::arithmetic::mul::{lemma_mul_inequality, lemma_mul_upper_bound};
use crate::geometry::{Aabb, Vec2i, COORD_LIMIT};
use crate::collision::{BallState, Collider, ColliderKind};

verus! {

/// Bound on the magnitude of every configuration constant, so that every
/// derived placement stays far inside the global coordinate bound.
pub const CONFIG_LIMIT: i64 = 0x10_0000;

/// The fixed numeric constants supplied at startup: arena bounds, wall
/// thickness, paddle, ball and brick extents, speeds and gaps. Extents are
/// full sizes (width and height), as even numbers so that half-extents are
/// exact; all lengths are in the same arbitrary integer unit.
#[derive(Clone, Copy, PartialEq, Eq, Structural, Debug)]
pub struct Config {
    pub left_wall: i64,
    pub right_wall: i64,
    pub bottom_wall: i64,
    pub top_wall: i64,
    pub wall_thickness: i64,
    pub paddle_width: i64,
    pub paddle_height: i64,
    pub paddle_speed: i64,
    pub paddle_padding: i64,
    pub gap_paddle_floor: i64,
    pub ball_width: i64,
    pub ball_height: i64,
    pub ball_start_x: i64,
    pub ball_start_y: i64,
    pub ball_vel_x: i64,
    pub ball_vel_y: i64,
    pub brick_width: i64,
    pub brick_height: i64,
    pub gap_between_bricks: i64,
    pub gap_paddle_bricks: i64,
    pub gap_bricks_ceiling: i64,
    pub gap_bricks_sides: i64,
}

impl Config {
    pub open spec fn arena_width(self) -> int {
        self.right_wall - self.left_wall
    }

    pub open spec fn arena_height(self) -> int {
        self.top_wall - self.bottom_wall
    }

    /// The paddle's fixed y-coordinate: a fixed gap above the bottom wall.
    pub open spec fn paddle_y(self) -> int {
        self.bottom_wall + self.gap_paddle_floor
    }

    /// Leftmost x-coordinate the paddle's center may take.
    pub open spec fn left_bound(self) -> int {
        self.left_wall + self.wall_thickness as int / 2 + self.paddle_width as int / 2
            + self.paddle_padding
    }

    /// Rightmost x-coordinate the paddle's center may take.
    pub open spec fn right_bound(self) -> int {
        self.right_wall - self.wall_thickness as int / 2 - self.paddle_width as int / 2
            - self.paddle_padding
    }

    /// Horizontal span available to the brick block.
    pub open spec fn bricks_total_width(self) -> int {
        self.arena_width() - 2 * self.gap_bricks_sides
    }

    /// Bottom edge of the brick region: a fixed gap above the paddle.
    pub open spec fn bricks_bottom(self) -> int {
        self.paddle_y() + self.gap_paddle_bricks
    }

    /// Vertical span available to the brick block.
    pub open spec fn bricks_total_height(self) -> int {
        self.top_wall - self.bricks_bottom() - self.gap_bricks_ceiling
    }

    /// Horizontal distance from one brick's center to the next column's.
    pub open spec fn column_pitch(self) -> int {
        self.brick_width + self.gap_between_bricks
    }

    /// Vertical distance from one brick's center to the next row's.
    pub open spec fn row_pitch(self) -> int {
        self.brick_height + self.gap_between_bricks
    }

    /// Number of brick columns: the floor of available span over pitch.
    pub open spec fn n_columns(self) -> int {
        self.bricks_total_width() / self.column_pitch()
    }

    /// Number of brick rows: the floor of available span over pitch.
    pub open spec fn n_rows(self) -> int {
        self.bricks_total_height() / self.row_pitch()
    }

    /// Full width of the brick block: all columns plus the gaps between.
    pub open spec fn bricks_block_width(self) -> int {
        self.n_columns() * self.brick_width + (self.n_columns() - 1) * self.gap_between_bricks
    }

    /// Horizontal center of the arena.
    pub open spec fn arena_center_x(self) -> int {
        (self.left_wall + self.right_wall) / 2
    }

    /// Center x-coordinate of the leftmost brick column: the block is
    /// centered horizontally (rounded down when the block width is odd).
    pub open spec fn brick_offset_x(self) -> int {
        self.arena_center_x() - self.bricks_block_width() / 2 + self.brick_width as int / 2
    }

    /// Center y-coordinate of the bottom brick row.
    pub open spec fn brick_offset_y(self) -> int {
        self.bricks_bottom() + self.brick_height as int / 2
    }

    /// Center of the brick in the given row (from the bottom) and column
    /// (from the left).
    pub open spec fn brick_center(self, row: int, col: int) -> Vec2i {
        Vec2i {
            x: (self.brick_offset_x() + col * self.column_pitch()) as i64,
            y: (self.brick_offset_y() + row * self.row_pitch()) as i64,
        }
    }

    /// The brick collider in the given row and column.
    pub open spec fn brick_collider_spec(self, row: int, col: int) -> Collider {
        Collider {
            kind: ColliderKind::Brick,
            body: Aabb {
                center: self.brick_center(row, col),
                half: Vec2i {
                    x: (self.brick_width as int / 2) as i64,
                    y: (self.brick_height as int / 2) as i64,
                },
            },
        }
    }

    /// Every constant lies within the configuration magnitude bound.
    pub open spec fn in_limits(self) -> bool {
        &&& -CONFIG_LIMIT <= self.left_wall <= CONFIG_LIMIT
        &&& -CONFIG_LIMIT <= self.right_wall <= CONFIG_LIMIT
        &&& -CONFIG_LIMIT <= self.bottom_wall <= CONFIG_LIMIT
        &&& -CONFIG_LIMIT <= self.top_wall <= CONFIG_LIMIT
        &&& -CONFIG_LIMIT <= self.wall_thickness <= CONFIG_LIMIT
        &&& -CONFIG_LIMIT <= self.paddle_width <= CONFIG_LIMIT
        &&& -CONFIG_LIMIT <= self.paddle_height <= CONFIG_LIMIT
        &&& -CONFIG_LIMIT <= self.paddle_speed <= CONFIG_LIMIT
        &&& -CONFIG_LIMIT <= self.paddle_padding <= CONFIG_LIMIT
        &&& -CONFIG_LIMIT <= self.gap_paddle_floor <= CONFIG_LIMIT
        &&& -CONFIG_LIMIT <= self.ball_width <= CONFIG_LIMIT
        &&& -CONFIG_LIMIT <= self.ball_height <= CONFIG_LIMIT
        &&& -CONFIG_LIMIT <= self.ball_start_x <= CONFIG_LIMIT
        &&& -CONFIG_LIMIT <= self.ball_start_y <= CONFIG_LIMIT
        &&& -CONFIG_LIMIT <= self.ball_vel_x <= CONFIG_LIMIT
        &&& -CONFIG_LIMIT <= self.ball_vel_y <= CONFIG_LIMIT
        &&& -CONFIG_LIMIT <= self.brick_width <= CONFIG_LIMIT
        &&& -CONFIG_LIMIT <= self.brick_height <= CONFIG_LIMIT
        &&& -CONFIG_LIMIT <= self.gap_between_bricks <= CONFIG_LIMIT
        &&& -CONFIG_LIMIT <= self.gap_paddle_bricks <= CONFIG_LIMIT
        &&& -CONFIG_LIMIT <= self.gap_bricks_ceiling <= CONFIG_LIMIT
        &&& -CONFIG_LIMIT <= self.gap_bricks_sides <= CONFIG_LIMIT
    }

    /// A usable startup configuration: extents positive and even (so that
    /// half-extents are exact), speeds and gaps non-negative, the arena spans
    /// positive and even, the paddle's range non-empty, the brick spans
    /// positive, and at least one brick column.
    pub open spec fn valid(self) -> bool {
        &&& self.in_limits()
        &&& self.wall_thickness >= 2 && self.wall_thickness % 2 == 0
        &&& self.paddle_width >= 2 && self.paddle_width % 2 == 0
        &&& self.paddle_height >= 2 && self.paddle_height % 2 == 0
        &&& self.brick_width >= 2 && self.brick_width % 2 == 0
        &&& self.brick_height >= 2 && self.brick_height % 2 == 0
        &&& self.ball_width >= 2 && self.ball_width % 2 == 0
        &&& self.ball_height >= 2 && self.ball_height % 2 == 0
        &&& self.paddle_speed >= 0
        &&& self.paddle_padding >= 0
        &&& self.gap_paddle_floor >= 0
        &&& self.gap_between_bricks >= 0
        &&& self.gap_paddle_bricks >= 0
        &&& self.gap_bricks_ceiling >= 0
        &&& self.gap_bricks_sides >= 0
        &&& self.arena_width() > 0 && self.arena_width() % 2 == 0
        &&& self.arena_height() > 0 && self.arena_height() % 2 == 0
        &&& self.left_bound() <= self.right_bound()
        &&& self.bricks_total_width() > 0
        &&& self.bricks_total_height() > 0
        &&& self.n_columns() >= 1
    }
}

/// Exact halving of an even value.
fn half_of(v: i64) -> (r: i64)
    requires
        v % 2 == 0,
        -COORD_LIMIT <= v <= COORD_LIMIT,
    ensures
        r == v as int / 2,
{
    proof {
        lemma_fundamental_div_mod(v as int, 2);
    }
    if v >= 0 {
        ((v as u64) / 2) as i64
    } else {
        let q = (((-v) as u64) / 2) as i64;
        proof {
            lemma_div_multiples_vanish(-(v as int / 2), 2);
        }
        -q
    }
}

/// Floor division of a non-negative value by a positive one.
fn div_pos(a: i64, b: i64) -> (r: i64)
    requires
        a >= 0,
        b > 0,
    ensures
        r == a as int / b as int,
{
    proof {
        lemma_div_nonincreasing(a as int, b as int);
        lemma_div_pos_is_pos(a as int, b as int);
    }
    ((a as u64) / (b as u64)) as i64
}

impl Config {
    /// The startup configuration check: accepts exactly the valid
    /// configurations. The surrounding program must abort on `false` before
    /// entering the tick loop.
    pub fn is_valid(&self) -> (b: bool)
        ensures
            b == self.valid(),
    {
        let lim_ok = -CONFIG_LIMIT <= self.left_wall && self.left_wall <= CONFIG_LIMIT
            && -CONFIG_LIMIT <= self.right_wall && self.right_wall <= CONFIG_LIMIT
            && -CONFIG_LIMIT <= self.bottom_wall && self.bottom_wall <= CONFIG_LIMIT
            && -CONFIG_LIMIT <= self.top_wall && self.top_wall <= CONFIG_LIMIT
            && -CONFIG_LIMIT <= self.wall_thickness && self.wall_thickness <= CONFIG_LIMIT
            && -CONFIG_LIMIT <= self.paddle_width && self.paddle_width <= CONFIG_LIMIT
            && -CONFIG_LIMIT <= self.paddle_height && self.paddle_height <= CONFIG_LIMIT
            && -CONFIG_LIMIT <= self.paddle_speed && self.paddle_speed <= CONFIG_LIMIT
            && -CONFIG_LIMIT <= self.paddle_padding && self.paddle_padding <= CONFIG_LIMIT
            && -CONFIG_LIMIT <= self.gap_paddle_floor && self.gap_paddle_floor <= CONFIG_LIMIT
            && -CONFIG_LIMIT <= self.ball_width && self.ball_width <= CONFIG_LIMIT
            && -CONFIG_LIMIT <= self.ball_height && self.ball_height <= CONFIG_LIMIT
            && -CONFIG_LIMIT <= self.ball_start_x && self.ball_start_x <= CONFIG_LIMIT
            && -CONFIG_LIMIT <= self.ball_start_y && self.ball_start_y <= CONFIG_LIMIT
            && -CONFIG_LIMIT <= self.ball_vel_x && self.ball_vel_x <= CONFIG_LIMIT
            && -CONFIG_LIMIT <= self.ball_vel_y && self.ball_vel_y <= CONFIG_LIMIT
            && -CONFIG_LIMIT <= self.brick_width && self.brick_width <= CONFIG_LIMIT
            && -CONFIG_LIMIT <= self.brick_height && self.brick_height <= CONFIG_LIMIT
            && -CONFIG_LIMIT <= self.gap_between_bricks && self.gap_between_bricks <= CONFIG_LIMIT
            && -CONFIG_LIMIT <= self.gap_paddle_bricks && self.gap_paddle_bricks <= CONFIG_LIMIT
            && -CONFIG_LIMIT <= self.gap_bricks_ceiling && self.gap_bricks_ceiling <= CONFIG_LIMIT
            && -CONFIG_LIMIT <= self.gap_bricks_sides && self.gap_bricks_sides <= CONFIG_LIMIT;
        if !lim_ok {
            return false;
        }
        let evens_ok = self.wall_thickness >= 2 && (self.wall_thickness as u64) % 2 == 0
            && self.paddle_width >= 2 && (self.paddle_width as u64) % 2 == 0
            && self.paddle_height >= 2 && (self.paddle_height as u64) % 2 == 0
            && self.brick_width >= 2 && (self.brick_width as u64) % 2 == 0
            && self.brick_height >= 2 && (self.brick_height as u64) % 2 == 0
            && self.ball_width >= 2 && (self.ball_width as u64) % 2 == 0
            && self.ball_height >= 2 && (self.ball_height as u64) % 2 == 0;
        if !evens_ok {
            return false;
        }
        let signs_ok = self.paddle_speed >= 0 && self.paddle_padding >= 0
            && self.gap_paddle_floor >= 0 && self.gap_between_bricks >= 0
            && self.gap_paddle_bricks >= 0 && self.gap_bricks_ceiling >= 0
            && self.gap_bricks_sides >= 0;
        if !signs_ok {
            return false;
        }
        let arena_w = self.right_wall - self.left_wall;
        let arena_h = self.top_wall - self.bottom_wall;
        if !(arena_w > 0 && (arena_w as u64) % 2 == 0 && arena_h > 0 && (arena_h as u64) % 2 == 0)
        {
            return false;
        }
        let half_t = half_of(self.wall_thickness);
        let half_pw = half_of(self.paddle_width);
        let lb = self.left_wall + half_t + half_pw + self.paddle_padding;
        let rb = self.right_wall - half_t - half_pw - self.paddle_padding;
        if !(lb <= rb) {
            return false;
        }
        let bricks_w = arena_w - 2 * self.gap_bricks_sides;
        let bricks_h = self.top_wall
            - (self.bottom_wall + self.gap_paddle_floor + self.gap_paddle_bricks)
            - self.gap_bricks_ceiling;
        if !(bricks_w > 0 && bricks_h > 0) {
            return false;
        }
        let pitch = self.brick_width + self.gap_between_bricks;
        if bricks_w < pitch {
            proof {
                lemma_basic_div(bricks_w as int, pitch as int);
            }
            return false;
        }
        proof {
            lemma_div_is_ordered(pitch as int, bricks_w as int, pitch as int);
            lemma_div_by_self(pitch as int);
        }
        true
    }
}

/// Which of the four arena walls; its placement is a pure function of the
/// configuration.
#[derive(Clone, Copy, PartialEq, Eq, Structural, Debug)]
pub enum WallLocation {
    Left,
    Right,
    Bottom,
    Top,
}

impl WallLocation {
    /// The wall's center.
    pub open spec fn position_spec(self, cfg: Config) -> Vec2i {
        match self {
            WallLocation::Left => Vec2i { x: cfg.left_wall, y: 0 },
            WallLocation::Right => Vec2i { x: cfg.right_wall, y: 0 },
            WallLocation::Bottom => Vec2i { x: 0, y: cfg.bottom_wall },
            WallLocation::Top => Vec2i { x: 0, y: cfg.top_wall },
        }
    }

    /// The wall's full size: side walls span the arena's height plus one
    /// thickness (filling the corners), floor and ceiling its width likewise.
    pub open spec fn size_spec(self, cfg: Config) -> Vec2i {
        match self {
            WallLocation::Left | WallLocation::Right => Vec2i {
                x: cfg.wall_thickness,
                y: (cfg.arena_height() + cfg.wall_thickness) as i64,
            },
            WallLocation::Bottom | WallLocation::Top => Vec2i {
                x: (cfg.arena_width() + cfg.wall_thickness) as i64,
                y: cfg.wall_thickness,
            },
        }
    }

    /// The wall's center.
    pub fn position(&self, cfg: &Config) -> (p: Vec2i)
        requires
            cfg.valid(),
        ensures
            p == self.position_spec(*cfg),
    {
        match self {
            WallLocation::Left => Vec2i { x: cfg.left_wall, y: 0 },
            WallLocation::Right => Vec2i { x: cfg.right_wall, y: 0 },
            WallLocation::Bottom => Vec2i { x: 0, y: cfg.bottom_wall },
            WallLocation::Top => Vec2i { x: 0, y: cfg.top_wall },
        }
    }

    /// The wall's full size.
    pub fn size(&self, cfg: &Config) -> (s: Vec2i)
        requires
            cfg.valid(),
        ensures
            s == self.size_spec(*cfg),
    {
        match self {
            WallLocation::Left | WallLocation::Right => Vec2i {
                x: cfg.wall_thickness,
                y: (cfg.top_wall - cfg.bottom_wall) + cfg.wall_thickness,
            },
            WallLocation::Bottom | WallLocation::Top => Vec2i {
                x: (cfg.right_wall - cfg.left_wall) + cfg.wall_thickness,
                y: cfg.wall_thickness,
            },
        }
    }
}

/// The wall's collider: its center with half its size as half-extents.
pub open spec fn wall_collider_spec(loc: WallLocation, cfg: Config) -> Collider {
    Collider {
        kind: ColliderKind::Wall,
        body: Aabb {
            center: loc.position_spec(cfg),
            half: Vec2i {
                x: (loc.size_spec(cfg).x as int / 2) as i64,
                y: (loc.size_spec(cfg).y as int / 2) as i64,
            },
        },
    }
}

/// Build the collider of one arena wall.
pub fn wall_collider(loc: WallLocation, cfg: &Config) -> (c: Collider)
    requires
        cfg.valid(),
    ensures
        c == wall_collider_spec(loc, *cfg),
        c.wf(),
{
    let position = loc.position(cfg);
    let size = loc.size(cfg);
    let half = Vec2i { x: half_of(size.x), y: half_of(size.y) };
    proof {
        lemma_div_is_ordered(2, size.x as int, 2);
        lemma_div_is_ordered(2, size.y as int, 2);
        lemma_div_by_self(2);
        lemma_div_nonincreasing(size.x as int, 2);
        lemma_div_nonincreasing(size.y as int, 2);
    }
    Collider { kind: ColliderKind::Wall, body: Aabb { center: position, half } }
}

/// The paddle's collider at the given x-coordinate: its y-coordinate and
/// extents are fixed by the configuration.
pub open spec fn paddle_collider_spec(cfg: Config, x: int) -> Collider {
    Collider {
        kind: ColliderKind::Paddle,
        body: Aabb {
            center: Vec2i { x: x as i64, y: cfg.paddle_y() as i64 },
            half: Vec2i {
                x: (cfg.paddle_width as int / 2) as i64,
                y: (cfg.paddle_height as int / 2) as i64,
            },
        },
    }
}

/// Build the paddle's collider at the given x-coordinate.
pub fn paddle_collider(cfg: &Config, x: i64) -> (c: Collider)
    requires
        cfg.valid(),
        -COORD_LIMIT <= x <= COORD_LIMIT,
    ensures
        c == paddle_collider_spec(*cfg, x as int),
        c.wf(),
{
    let half = Vec2i { x: half_of(cfg.paddle_width), y: half_of(cfg.paddle_height) };
    proof {
        lemma_div_is_ordered(2, cfg.paddle_width as int, 2);
        lemma_div_is_ordered(2, cfg.paddle_height as int, 2);
        lemma_div_by_self(2);
        lemma_div_nonincreasing(cfg.paddle_width as int, 2);
        lemma_div_nonincreasing(cfg.paddle_height as int, 2);
    }
    Collider {
        kind: ColliderKind::Paddle,
        body: Aabb { center: Vec2i { x, y: cfg.bottom_wall + cfg.gap_paddle_floor }, half },
    }
}

/// The paddle's admissible x-range, derived from the arena half-width, the
/// wall thickness, the paddle width and the padding constant.
pub fn paddle_bounds(cfg: &Config) -> (b: (i64, i64))
    requires
        cfg.valid(),
    ensures
        b.0 == cfg.left_bound(),
        b.1 == cfg.right_bound(),
        b.0 <= b.1,
{
    let half_t = half_of(cfg.wall_thickness);
    let half_pw = half_of(cfg.paddle_width);
    proof {
        lemma_div_nonincreasing(cfg.wall_thickness as int, 2);
        lemma_div_nonincreasing(cfg.paddle_width as int, 2);
        lemma_div_pos_is_pos(cfg.wall_thickness as int, 2);
        lemma_div_pos_is_pos(cfg.paddle_width as int, 2);
    }
    let lb = cfg.left_wall + half_t + half_pw + cfg.paddle_padding;
    let rb = cfg.right_wall - half_t - half_pw - cfg.paddle_padding;
    (lb, rb)
}

/// The ball's starting state as the configuration gives it: start position,
/// half the configured extent, and the configured velocity.
pub open spec fn initial_ball_spec(cfg: Config) -> BallState {
    BallState {
        pos: Vec2i { x: cfg.ball_start_x, y: cfg.ball_start_y },
        half: Vec2i {
            x: (cfg.ball_width as int / 2) as i64,
            y: (cfg.ball_height as int / 2) as i64,
        },
        vel: Vec2i { x: cfg.ball_vel_x, y: cfg.ball_vel_y },
    }
}

/// The ball's starting state, straight from the configuration.
pub fn initial_ball(cfg: &Config) -> (b: BallState)
    requires
        cfg.valid(),
    ensures
        b == initial_ball_spec(*cfg),
        b.wf(),
{
    let half = Vec2i { x: half_of(cfg.ball_width), y: half_of(cfg.ball_height) };
    proof {
        lemma_div_is_ordered(2, cfg.ball_width as int, 2);
        lemma_div_is_ordered(2, cfg.ball_height as int, 2);
        lemma_div_by_self(2);
        lemma_div_nonincreasing(cfg.ball_width as int, 2);
        lemma_div_nonincreasing(cfg.ball_height as int, 2);
    }
    BallState {
        pos: Vec2i { x: cfg.ball_start_x, y: cfg.ball_start_y },
        half,
        vel: Vec2i { x: cfg.ball_vel_x, y: cfg.ball_vel_y },
    }
}

/// Build the full brick grid: `n_rows * n_columns` brick colliders in
/// row-major order (rows bottom-up, columns left-to-right), the block
/// centered horizontally and anchored a fixed gap above the paddle region
/// and below the ceiling.
pub fn brick_grid(cfg: &Config) -> (bricks: Vec<Collider>)
    requires
        cfg.valid(),
    ensures
        bricks@.len() == cfg.n_rows() * cfg.n_columns(),
        forall|k: int| 0 <= k < bricks@.len() ==> (#[trigger] bricks@[k])
            == cfg.brick_collider_spec(k / cfg.n_columns(), k % cfg.n_columns()),
        forall|k: int| 0 <= k < bricks@.len() ==> (#[trigger] bricks@[k]).wf(),
{
    let arena_w = cfg.right_wall - cfg.left_wall;
    let bricks_w = arena_w - 2 * cfg.gap_bricks_sides;
    let bricks_bottom = cfg.bottom_wall + cfg.gap_paddle_floor + cfg.gap_paddle_bricks;
    let bricks_h = cfg.top_wall - bricks_bottom - cfg.gap_bricks_ceiling;
    let pitch_x = cfg.brick_width + cfg.gap_between_bricks;
    let pitch_y = cfg.brick_height + cfg.gap_between_bricks;
    let n_cols = div_pos(bricks_w, pitch_x);
    let n_rows = div_pos(bricks_h, pitch_y);
    proof {
        lemma_div_nonincreasing(bricks_w as int, pitch_x as int);
        lemma_div_nonincreasing(bricks_h as int, pitch_y as int);
        lemma_div_pos_is_pos(bricks_w as int, pitch_x as int);
        lemma_div_pos_is_pos(bricks_h as int, pitch_y as int);
        // The arena width is even, so the sum of the two wall coordinates is
        // even as well and the arena's center is exact.
        lemma_mod_multiples_vanish(cfg.left_wall as int, arena_w as int, 2);
        assert(2 * cfg.left_wall + arena_w == cfg.left_wall + cfg.right_wall);
    }
    let center_x = half_of(cfg.left_wall + cfg.right_wall);
    proof {
        lemma_mul_upper_bound(n_cols as int, 0x40_0000, cfg.brick_width as int, CONFIG_LIMIT as int);
        lemma_mul_upper_bound(n_cols as int - 1, 0x40_0000, cfg.gap_between_bricks as int,
            CONFIG_LIMIT as int);
        lemma_mul_inequality(0, n_cols as int, cfg.brick_width as int);
        lemma_mul_inequality(0, n_cols as int - 1, cfg.gap_between_bricks as int);
    }
    let block = n_cols * cfg.brick_width + (n_cols - 1) * cfg.gap_between_bricks;
    let block_half = div_pos(block, 2);
    proof {
        lemma_div_nonincreasing(block as int, 2);
        lemma_div_pos_is_pos(block as int, 2);
    }
    let half_bw = half_of(cfg.brick_width);
    let half_bh = half_of(cfg.brick_height);
    proof {
        lemma_div_is_ordered(2, cfg.brick_width as int, 2);
        lemma_div_is_ordered(2, cfg.brick_height as int, 2);
        lemma_div_by_self(2);
        lemma_div_nonincreasing(cfg.brick_width as int, 2);
        lemma_div_nonincreasing(cfg.brick_height as int, 2);
    }
    let offset_x = center_x - block_half + half_bw;
    let offset_y = bricks_bottom + half_bh;
    assert(offset_x == cfg.brick_offset_x());
    assert(offset_y == cfg.brick_offset_y());
    let mut bricks: Vec<Collider> = Vec::new();
    let mut row: i64 = 0;
    while row < n_rows
        invariant
            cfg.valid(),
            0 <= row <= n_rows,
            n_cols == cfg.n_columns(),
            n_rows == cfg.n_rows(),
            1 <= n_cols <= 0x40_0000,
            0 <= n_rows <= 0x40_0000,
            pitch_x == cfg.column_pitch(),
            pitch_y == cfg.row_pitch(),
            2 <= pitch_x <= 0x20_0000,
            2 <= pitch_y <= 0x20_0000,
            offset_x == cfg.brick_offset_x(),
            offset_y == cfg.brick_offset_y(),
            -0x1_0000_0000_0000 <= offset_x <= 0x1_0000_0000_0000,
            -0x40_0000 <= offset_y <= 0x40_0000,
            half_bw == cfg.brick_width as int / 2,
            half_bh == cfg.brick_height as int / 2,
            1 <= half_bw <= CONFIG_LIMIT,
            1 <= half_bh <= CONFIG_LIMIT,
            bricks@.len() == row * n_cols,
            forall|k: int| 0 <= k < bricks@.len() ==> (#[trigger] bricks@[k])
                == cfg.brick_collider_spec(k / cfg.n_columns(), k % cfg.n_columns()),
            forall|k: int| 0 <= k < bricks@.len() ==> (#[trigger] bricks@[k]).wf(),
        decreases n_rows - row,
    {
        let mut col: i64 = 0;
        proof {
            lemma_mul_upper_bound(row as int, 0x40_0000, n_cols as int, 0x40_0000);
            lemma_mul_inequality(0, row as int, n_cols as int);
        }
        while col < n_cols
            invariant
                cfg.valid(),
                0 <= row < n_rows,
                0 <= col <= n_cols,
                n_cols == cfg.n_columns(),
                n_rows == cfg.n_rows(),
                1 <= n_cols <= 0x40_0000,
                0 <= n_rows <= 0x40_0000,
                pitch_x == cfg.column_pitch(),
                pitch_y == cfg.row_pitch(),
                2 <= pitch_x <= 0x20_0000,
                2 <= pitch_y <= 0x20_0000,
                offset_x == cfg.brick_offset_x(),
                offset_y == cfg.brick_offset_y(),
                -0x1_0000_0000_0000 <= offset_x <= 0x1_0000_0000_0000,
                -0x40_0000 <= offset_y <= 0x40_0000,
                half_bw == cfg.brick_width as int / 2,
                half_bh == cfg.brick_height as int / 2,
                1 <= half_bw <= CONFIG_LIMIT,
                1 <= half_bh <= CONFIG_LIMIT,
                0 <= row * n_cols <= 0x1000_0000_0000,
                bricks@.len() == row * n_cols + col,
                forall|k: int| 0 <= k < bricks@.len() ==> (#[trigger] bricks@[k])
                    == cfg.brick_collider_spec(k / cfg.n_columns(), k % cfg.n_columns()),
                forall|k: int| 0 <= k < bricks@.len() ==> (#[trigger] bricks@[k]).wf(),
            decreases n_cols - col,
        {
            proof {
                lemma_mul_upper_bound(col as int, 0x40_0000, pitch_x as int, 0x20_0000);
                lemma_mul_inequality(0, col as int, pitch_x as int);
                lemma_mul_upper_bound(row as int, 0x40_0000, pitch_y as int, 0x20_0000);
                lemma_mul_inequality(0, row as int, pitch_y as int);
            }
            let cx = offset_x + col * pitch_x;
            let cy = offset_y + row * pitch_y;
            let brick = Collider {
                kind: ColliderKind::Brick,
                body: Aabb {
                    center: Vec2i { x: cx, y: cy },
                    half: Vec2i { x: half_bw, y: half_bh },
                },
            };
            proof {
                let k = row as int * n_cols as int + col as int;
                lemma_fundamental_div_mod_converse(k, n_cols as int, row as int, col as int);
                assert(brick == cfg.brick_collider_spec(row as int, col as int));
            }
            bricks.push(brick);
            col = col + 1;
        }
        proof {
            assert((row as int + 1) * n_cols as int == row as int * n_cols as int + n_cols as int)
                by (nonlinear_arith);
        }
        row = row + 1;
    }
    bricks
}

} // verus!
