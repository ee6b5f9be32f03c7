//! The simulation context: all mutable game state in one place, advanced one
//! fixed-timestep tick at a time in the fixed stage order — motion
//! integration, paddle control, collision resolution, effects dispatch.

use vstd::prelude::*;
use vstd::arithmetic::div_mod::lemma_div_pos_is_pos;
use crate::geometry::{Aabb, Vec2i, COORD_LIMIT};
use crate::collision::{BallState, Collider, bricks_destroyed, collisions_counted,
    resolve_collisions, survivors, velocity_after};
use crate::events::EventQueue;
use crate::layout::{Config, WallLocation, brick_grid, initial_ball, initial_ball_spec,
    paddle_bounds, paddle_collider, paddle_collider_spec, wall_collider, wall_collider_spec};
use crate::motion::apply_motion;
use crate::paddle::{move_paddle, paddle_step, update_paddle_collider};
use crate::scoreboard::Scoreboard;

verus! {

/// The collider sequence with every paddle entry moved to x-coordinate `x`,
/// everything else unchanged.
pub open spec fn with_paddle_at(cs: Seq<Collider>, x: int) -> Seq<Collider> {
    cs.map(|i: int, c: Collider| if c.kind is Paddle {
        Collider {
            kind: c.kind,
            body: Aabb {
                center: Vec2i { x: x as i64, y: c.body.center.y },
                half: c.body.half,
            },
        }
    } else {
        c
    })
}

/// The ball after one motion step of `elapsed` time units.
pub open spec fn ball_after_motion(b: BallState, elapsed: int) -> BallState {
    BallState {
        pos: Vec2i {
            x: (b.pos.x + b.vel.x * elapsed) as i64,
            y: (b.pos.y + b.vel.y * elapsed) as i64,
        },
        half: b.half,
        vel: b.vel,
    }
}

/// The paddle's x-coordinate after one tick under this configuration's speed
/// and bounds.
pub open spec fn paddle_x_after(
    cfg: Config,
    x: int,
    left_held: bool,
    right_held: bool,
    elapsed: int,
) -> int {
    paddle_step(x, left_held, right_held, cfg.paddle_speed as int, elapsed, cfg.left_bound(),
        cfg.right_bound())
}

/// All mutable state of one game: the ball, the paddle's x-coordinate, the
/// live colliders (walls, paddle, remaining bricks), the score, and the
/// per-tick event queue.
pub struct GameState {
    pub ball: BallState,
    pub paddle_x: i64,
    pub colliders: Vec<Collider>,
    pub score: Scoreboard,
    pub events: EventQueue,
}

impl GameState {
    /// Well-formed state: the ball and every collider are well-formed boxes
    /// and the paddle's coordinate is in range.
    pub open spec fn wf(self) -> bool {
        &&& self.ball.wf()
        &&& -COORD_LIMIT <= self.paddle_x <= COORD_LIMIT
        &&& forall|i: int| 0 <= i < self.colliders@.len() ==> (#[trigger] self.colliders@[i]).wf()
    }

    /// The world at startup: the four walls, the paddle centered at zero, the
    /// full brick grid, a zero score and an empty event queue.
    pub fn new(cfg: &Config) -> (s: GameState)
        requires
            cfg.valid(),
        ensures
            s.wf(),
            s.ball == initial_ball_spec(*cfg),
            s.paddle_x == 0,
            s.score.score == 0,
            s.events.pending == 0,
            s.colliders@.len() == 5 + cfg.n_rows() * cfg.n_columns(),
            s.colliders@[0] == wall_collider_spec(WallLocation::Left, *cfg),
            s.colliders@[1] == wall_collider_spec(WallLocation::Right, *cfg),
            s.colliders@[2] == wall_collider_spec(WallLocation::Bottom, *cfg),
            s.colliders@[3] == wall_collider_spec(WallLocation::Top, *cfg),
            s.colliders@[4] == paddle_collider_spec(*cfg, 0),
            forall|k: int| 5 <= k < s.colliders@.len() ==> (#[trigger] s.colliders@[k])
                == cfg.brick_collider_spec((k - 5) / cfg.n_columns(), (k - 5) % cfg.n_columns()),
    {
        let ball = initial_ball(cfg);
        let mut colliders: Vec<Collider> = Vec::new();
        colliders.push(wall_collider(WallLocation::Left, cfg));
        colliders.push(wall_collider(WallLocation::Right, cfg));
        colliders.push(wall_collider(WallLocation::Bottom, cfg));
        colliders.push(wall_collider(WallLocation::Top, cfg));
        colliders.push(paddle_collider(cfg, 0));
        let bricks = brick_grid(cfg);
        let mut i: usize = 0;
        while i < bricks.len()
            invariant
                cfg.valid(),
                0 <= i <= bricks@.len(),
                bricks@.len() == cfg.n_rows() * cfg.n_columns(),
                forall|k: int| 0 <= k < bricks@.len() ==> (#[trigger] bricks@[k])
                    == cfg.brick_collider_spec(k / cfg.n_columns(), k % cfg.n_columns()),
                forall|k: int| 0 <= k < bricks@.len() ==> (#[trigger] bricks@[k]).wf(),
                colliders@.len() == 5 + i,
                colliders@[0] == wall_collider_spec(WallLocation::Left, *cfg),
                colliders@[1] == wall_collider_spec(WallLocation::Right, *cfg),
                colliders@[2] == wall_collider_spec(WallLocation::Bottom, *cfg),
                colliders@[3] == wall_collider_spec(WallLocation::Top, *cfg),
                colliders@[4] == paddle_collider_spec(*cfg, 0),
                forall|k: int| 5 <= k < colliders@.len() ==> (#[trigger] colliders@[k])
                    == bricks@[k - 5],
                forall|k: int| 0 <= k < colliders@.len() ==> (#[trigger] colliders@[k]).wf(),
            decreases bricks@.len() - i,
        {
            colliders.push(bricks[i]);
            i = i + 1;
        }
        GameState {
            ball,
            paddle_x: 0,
            colliders,
            score: Scoreboard::new(),
            events: EventQueue::new(),
        }
    }

    /// One full simulation tick, in the fixed order: integrate the ball's
    /// motion, move the paddle from the held keys, resolve collisions
    /// (reflecting the ball, scoring and despawning struck bricks, emitting
    /// events), then dispatch the effects. The result says whether the
    /// collision sound plays this tick: exactly when any collider was struck.
    pub fn tick(&mut self, cfg: &Config, left_held: bool, right_held: bool, elapsed: i64)
        -> (sound: bool)
        requires
            cfg.valid(),
            old(self).wf(),
            old(self).events.pending == 0,
            elapsed >= 0,
            cfg.paddle_speed * elapsed <= COORD_LIMIT,
            -COORD_LIMIT <= old(self).ball.pos.x + old(self).ball.vel.x * elapsed <= COORD_LIMIT,
            -COORD_LIMIT <= old(self).ball.pos.y + old(self).ball.vel.y * elapsed <= COORD_LIMIT,
            old(self).score.score + old(self).colliders@.len() <= u64::MAX,
            old(self).colliders@.len() <= u64::MAX,
        ensures
            final(self).wf(),
            final(self).ball.pos == ball_after_motion(old(self).ball, elapsed as int).pos,
            final(self).ball.half == old(self).ball.half,
            final(self).paddle_x == paddle_x_after(*cfg, old(self).paddle_x as int, left_held,
                right_held, elapsed as int),
            final(self).colliders@ == survivors(
                ball_after_motion(old(self).ball, elapsed as int).aabb(),
                with_paddle_at(old(self).colliders@, final(self).paddle_x as int)),
            final(self).ball.vel == velocity_after(
                ball_after_motion(old(self).ball, elapsed as int).aabb(),
                old(self).ball.vel,
                with_paddle_at(old(self).colliders@, final(self).paddle_x as int)),
            final(self).score.score == old(self).score.score + bricks_destroyed(
                ball_after_motion(old(self).ball, elapsed as int).aabb(),
                with_paddle_at(old(self).colliders@, final(self).paddle_x as int)),
            sound == (collisions_counted(
                ball_after_motion(old(self).ball, elapsed as int).aabb(),
                with_paddle_at(old(self).colliders@, final(self).paddle_x as int)) > 0),
            final(self).events.pending == 0,
    {
        let ghost cs0 = self.colliders@;
        // Motion integration.
        let mut pos = self.ball.pos;
        apply_motion(&mut pos, self.ball.vel, elapsed);
        self.ball = BallState { pos, half: self.ball.half, vel: self.ball.vel };
        assert(self.ball == ball_after_motion(old(self).ball, elapsed as int));
        // Paddle control.
        let bounds = paddle_bounds(cfg);
        proof {
            lemma_div_pos_is_pos(cfg.wall_thickness as int, 2);
            lemma_div_pos_is_pos(cfg.paddle_width as int, 2);
        }
        self.paddle_x = move_paddle(self.paddle_x, left_held, right_held, cfg.paddle_speed,
            elapsed, bounds.0, bounds.1);
        update_paddle_collider(&mut self.colliders, self.paddle_x);
        proof {
            let moved = with_paddle_at(cs0, self.paddle_x as int);
            assert forall|i: int| 0 <= i < self.colliders@.len()
                implies self.colliders@[i] == moved[i] by {
                assert(cs0[i].wf());
            }
            assert(self.colliders@ =~= moved);
            assert forall|i: int| 0 <= i < self.colliders@.len()
                implies (#[trigger] self.colliders@[i]).wf() by {
                assert(cs0[i].wf());
            }
        }
        // Collision resolution.
        let mut ball = self.ball;
        let mut score = self.score;
        let mut events = self.events;
        let live = resolve_collisions(&mut ball, &self.colliders, &mut score, &mut events);
        self.ball = ball;
        self.score = score;
        self.colliders = live;
        // Effects dispatch: consume this tick's events, play at most one
        // sound.
        self.events = events;
        let sound = self.events.drain();
        sound
    }
}

} // verus!
