//! The paddle: moved by the player, clamped to the screen.
use vstd::prelude::*;
use crate::ball::Ball;
use crate::geometry::{clamp, hit_spec, hit_test, HitBy, Rect};
use crate::motion::travel;
use crate::{Vec2, PADDLE_HEIGHT, PADDLE_SPEED, PADDLE_WIDTH, SCREEN_HEIGHT, SCREEN_WIDTH, MICROS_PER_SECOND};

verus! {

/// The largest horizontal position of the paddle's left edge.
pub const PADDLE_MAX_X: i64 = 720000;

/// The paddle: its top-left corner, and the direction of its last move
/// (-1 left, 0 still, +1 right).
#[derive(Clone, Copy, Debug, PartialEq, Eq, Structural)]
pub struct Paddle {
    pub pos: Vec2,
    pub direction: i32,
}

/// Distance the paddle covers in `dt` microseconds.
pub open spec fn step_len(dt: u32) -> int {
    travel(PADDLE_SPEED as int, dt as int)
}

impl Paddle {
    pub open spec fn wf(self) -> bool {
        0 <= self.pos.x <= PADDLE_MAX_X && -1 <= self.direction <= 1
    }

    pub open spec fn spec_rect(self) -> Rect {
        Rect { x: self.pos.x, y: self.pos.y, w: PADDLE_WIDTH, h: PADDLE_HEIGHT }
    }

    pub open spec fn spec_move_right(self, dt: u32) -> Paddle {
        Paddle {
            pos: Vec2 { x: clamp(self.pos.x + step_len(dt), 0, PADDLE_MAX_X as int) as i64, y: self.pos.y },
            direction: 1,
        }
    }

    pub open spec fn spec_move_left(self, dt: u32) -> Paddle {
        Paddle {
            pos: Vec2 { x: clamp(self.pos.x - step_len(dt), 0, PADDLE_MAX_X as int) as i64, y: self.pos.y },
            direction: -1i32,
        }
    }

    pub open spec fn spec_stop(self) -> Paddle {
        Paddle { direction: 0, ..self }
    }

    pub open spec fn spec_check_hit(self, ball: Ball) -> Option<HitBy> {
        hit_spec(ball.spec_circle(), self.spec_rect())
    }

    /// Centred horizontally, resting on the bottom edge of the screen.
    pub open spec fn new_spec() -> Paddle {
        Paddle {
            pos: Vec2 {
                x: (SCREEN_WIDTH / 2 - PADDLE_WIDTH / 2) as i64,
                y: (SCREEN_HEIGHT - PADDLE_HEIGHT) as i64,
            },
            direction: 0,
        }
    }

    pub fn new() -> (p: Paddle)
        ensures
            p == Paddle::new_spec(),
            p.wf(),
    {
        Paddle {
            pos: Vec2 { x: SCREEN_WIDTH / 2 - PADDLE_WIDTH / 2, y: SCREEN_HEIGHT - PADDLE_HEIGHT },
            direction: 0,
        }
    }

    pub fn rect(&self) -> (r: Rect)
        ensures
            r == self.spec_rect(),
    {
        Rect { x: self.pos.x, y: self.pos.y, w: PADDLE_WIDTH, h: PADDLE_HEIGHT }
    }

    fn step_len_exec(dt: u32) -> (d: i64)
        ensures
            d == step_len(dt),
            0 <= d < 0x1_0000_0000,
    {
        proof {
            assert(100000 * (dt as int) / 1000000 <= dt) by (nonlinear_arith)
                requires
                    dt >= 0,
            ;
        }
        let d = (PADDLE_SPEED as u64 * dt as u64) / (MICROS_PER_SECOND as u64);
        d as i64
    }

    /// Moves right by the distance of one frame of `dt` microseconds, kept
    /// on the screen.
    pub fn move_right(&mut self, dt: u32)
        ensures
            *final(self) == old(self).spec_move_right(dt),
            final(self).wf(),
    {
        let x = self.pos.x as i128 + Self::step_len_exec(dt) as i128;
        self.pos.x = if x < 0 {
            0
        } else if x > PADDLE_MAX_X as i128 {
            PADDLE_MAX_X
        } else {
            x as i64
        };
        self.direction = 1;
    }

    /// Moves left by the distance of one frame of `dt` microseconds, kept on
    /// the screen.
    pub fn move_left(&mut self, dt: u32)
        ensures
            *final(self) == old(self).spec_move_left(dt),
            final(self).wf(),
    {
        let x = self.pos.x as i128 - Self::step_len_exec(dt) as i128;
        self.pos.x = if x < 0 {
            0
        } else if x > PADDLE_MAX_X as i128 {
            PADDLE_MAX_X
        } else {
            x as i64
        };
        self.direction = -1;
    }

    pub fn stop(&mut self)
        ensures
            *final(self) == old(self).spec_stop(),
    {
        self.direction = 0;
    }

    /// Tests the ball against the paddle, which stays live after a hit.
    pub fn check_hit(&self, ball: &Ball) -> (res: Option<HitBy>)
        ensures
            res == self.spec_check_hit(*ball),
    {
        hit_test(&ball.circle(), &self.rect())
    }
}

/// The paddle after a sequence of moves, each one to the right (`true`) or
/// to the left (`false`), lasting the given microseconds.
pub open spec fn after_moves(paddle: Paddle, moves: Seq<(bool, u32)>) -> Paddle
    decreases moves.len(),
{
    if moves.len() == 0 {
        paddle
    } else {
        let next = if moves[0].0 {
            paddle.spec_move_right(moves[0].1)
        } else {
            paddle.spec_move_left(moves[0].1)
        };
        after_moves(next, moves.drop_first())
    }
}

/// After any sequence of moves the paddle lies wholly on the screen.
pub proof fn lemma_moves_stay_on_screen(paddle: Paddle, moves: Seq<(bool, u32)>)
    requires
        moves.len() > 0 || paddle.wf(),
    ensures
        0 <= after_moves(paddle, moves).pos.x <= SCREEN_WIDTH - PADDLE_WIDTH,
        after_moves(paddle, moves).wf(),
    decreases moves.len(),
{
    if moves.len() > 0 {
        let next = if moves[0].0 {
            paddle.spec_move_right(moves[0].1)
        } else {
            paddle.spec_move_left(moves[0].1)
        };
        lemma_moves_stay_on_screen(next, moves.drop_first());
    }
}

} // verus!
