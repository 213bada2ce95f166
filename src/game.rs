//! The game state and one frame of play: blocks, paddle, launch, paddle
//! deflection, then the ball's own motion.
use vstd::prelude::*;
use crate::ball::{Ball, Status};
use crate::block::Block;
use crate::geometry::HitBy;
use crate::motion::{saturate, saturate_i128};
use crate::paddle::Paddle;
use crate::{Vec2, BLOCK_HEIGHT, BLOCK_WIDTH, PADDLE_SPEED};

verus! {

pub const GRID_COLUMNS: u32 = 20;

pub const GRID_ROWS: u32 = 5;

/// The buttons held during a frame.
#[derive(Clone, Copy, Debug, PartialEq, Eq, Structural)]
pub struct Input {
    pub left: bool,
    pub right: bool,
    pub launch: bool,
}

/// Everything in play: the paddle, the ball and the blocks.
#[derive(Clone, Debug)]
pub struct Game {
    pub paddle: Paddle,
    pub ball: Ball,
    pub blocks: Vec<Block>,
}

/// Block `i` of a grid with `rows` rows, laid out column by column.
pub open spec fn grid_block(i: int, rows: int) -> Block {
    Block {
        pos: Vec2 { x: ((i / rows) * BLOCK_WIDTH) as i64, y: ((i % rows) * BLOCK_HEIGHT) as i64 },
        visible: true,
    }
}

/// The ball after a block was struck: the top or bottom face reflects the
/// vertical velocity, a side the horizontal one, a corner both.
pub open spec fn block_react(ball: Ball, hit: Option<HitBy>) -> Ball {
    match hit {
        Some(HitBy::X) => ball.spec_bounce_y(),
        Some(HitBy::Y) => ball.spec_bounce_x(),
        Some(HitBy::XY) => ball.spec_bounce_x().spec_bounce_y(),
        None => ball,
    }
}

/// The blocks and the ball after each block, in order, was tested against
/// the ball.
pub open spec fn blocks_phase(blocks: Seq<Block>, ball: Ball) -> (Seq<Block>, Ball)
    decreases blocks.len(),
{
    if blocks.len() == 0 {
        (blocks, ball)
    } else {
        let (done, b) = blocks_phase(blocks.drop_last(), ball);
        let last = blocks.last();
        (done.push(last.spec_after_hit(b)), block_react(b, last.spec_hit(b)))
    }
}

/// Right takes precedence over left; with neither, the paddle stops.
pub open spec fn drive(paddle: Paddle, input: Input, dt: u32) -> Paddle {
    if input.right {
        paddle.spec_move_right(dt)
    } else if input.left {
        paddle.spec_move_left(dt)
    } else {
        paddle.spec_stop()
    }
}

/// A stuck ball is released upward, drifting in the paddle's direction.
pub open spec fn launch(ball: Ball, input: Input, direction: i32) -> Ball {
    if input.launch && ball.stuck {
        Ball {
            vel: Vec2 { x: (direction * PADDLE_SPEED) as i64, y: PADDLE_SPEED },
            stuck: false,
            ..ball
        }
    } else {
        ball
    }
}

/// The paddle's motion is added to the ball's horizontal velocity.
pub open spec fn boost(ball: Ball, direction: i32) -> Ball {
    Ball {
        vel: Vec2 { x: saturate(ball.vel.x + direction * PADDLE_SPEED) as i64, y: ball.vel.y },
        ..ball
    }
}

/// The ball after the paddle test: a hit on the top face or a corner
/// reflects and boosts it; a hit on a side leaves it as it is.
pub open spec fn paddle_react(ball: Ball, hit: Option<HitBy>, direction: i32) -> Ball {
    match hit {
        Some(HitBy::X) => boost(ball.spec_bounce_y(), direction),
        Some(HitBy::XY) => boost(ball.spec_bounce_x().spec_bounce_y(), direction),
        _ => ball,
    }
}

/// One frame of `dt` microseconds: the new paddle, ball and blocks, and
/// whether the game goes on.
pub open spec fn spec_step(paddle: Paddle, ball: Ball, blocks: Seq<Block>, input: Input, dt: u32) -> (
    Paddle,
    Ball,
    Seq<Block>,
    Status,
) {
    let (blocks1, ball1) = blocks_phase(blocks, ball);
    let paddle1 = drive(paddle, input, dt);
    let ball2 = launch(ball1, input, paddle1.direction);
    let ball3 = paddle_react(ball2, paddle1.spec_check_hit(ball2), paddle1.direction);
    let ball4 = if ball3.stuck {
        ball3.spec_stick_to(paddle1)
    } else {
        ball3
    };
    let (ball5, status) = ball4.spec_update(dt);
    (paddle1, ball5, blocks1, status)
}

proof fn lemma_blocks_phase_len(blocks: Seq<Block>, ball: Ball)
    ensures
        blocks_phase(blocks, ball).0.len() == blocks.len(),
    decreases blocks.len(),
{
    if blocks.len() > 0 {
        lemma_blocks_phase_len(blocks.drop_last(), ball);
    }
}

proof fn lemma_blocks_phase_keeps_gone(blocks: Seq<Block>, ball: Ball)
    ensures
        blocks_phase(blocks, ball).0.len() == blocks.len(),
        forall|i: int|
            0 <= i < blocks.len() && !blocks[i].visible ==> #[trigger] blocks_phase(blocks, ball).0[i]
                == blocks[i],
    decreases blocks.len(),
{
    if blocks.len() > 0 {
        lemma_blocks_phase_keeps_gone(blocks.drop_last(), ball);
    }
}

/// A frame leaves every block that is out of play as it was: such a block
/// never returns and is never hit again.
pub proof fn lemma_step_keeps_gone_blocks(paddle: Paddle, ball: Ball, blocks: Seq<Block>, input: Input, dt: u32)
    ensures
        spec_step(paddle, ball, blocks, input, dt).2.len() == blocks.len(),
        forall|i: int|
            0 <= i < blocks.len() && !blocks[i].visible ==> #[trigger] spec_step(paddle, ball, blocks, input, dt).2[i]
                == blocks[i],
{
    lemma_blocks_phase_keeps_gone(blocks, ball);
}

/// `cols` columns of `rows` blocks each, all in play, laid out column by
/// column from the top-left corner of the screen, one block per cell.
pub fn block_grid(cols: u32, rows: u32) -> (v: Vec<Block>)
    requires
        cols * rows <= usize::MAX,
    ensures
        v@.len() == cols * rows,
        forall|i: int| 0 <= i < v@.len() ==> #[trigger] v@[i] == grid_block(i, rows as int),
{
    let mut v: Vec<Block> = Vec::new();
    let mut c: u32 = 0;
    while c < cols
        invariant
            c <= cols,
            cols * rows <= usize::MAX,
            v@.len() == c * rows,
            forall|i: int| 0 <= i < v@.len() ==> #[trigger] v@[i] == grid_block(i, rows as int),
        decreases cols - c,
    {
        let mut r: u32 = 0;
        while r < rows
            invariant
                c < cols,
                r <= rows,
                cols * rows <= usize::MAX,
                v@.len() == c * rows + r,
                forall|i: int| 0 <= i < v@.len() ==> #[trigger] v@[i] == grid_block(i, rows as int),
            decreases rows - r,
        {
            proof {
                vstd::arithmetic::div_mod::lemma_fundamental_div_mod_converse(
                    (c * rows + r) as int,
                    rows as int,
                    c as int,
                    r as int,
                );
                assert(c * rows + r < cols * rows) by (nonlinear_arith)
                    requires
                        c < cols,
                        r < rows,
                ;
            }
            let x = c as i64 * BLOCK_WIDTH;
            let y = r as i64 * BLOCK_HEIGHT;
            v.push(Block::new(x, y));
            r = r + 1;
        }
        proof {
            assert(c * rows + rows == (c + 1) * rows) by (nonlinear_arith);
        }
        c = c + 1;
    }
    v
}

impl Game {
    pub open spec fn wf(self) -> bool {
        self.paddle.wf() && self.ball.wf()
    }

    /// A game with the standard grid of blocks.
    pub fn new() -> (g: Game)
        ensures
            g.wf(),
            g.paddle == Paddle::new_spec(),
            g.ball == (Ball { pos: Vec2 { x: 400000, y: 569000 }, vel: Vec2 { x: 0, y: 0 }, stuck: true }),
            g.blocks@.len() == GRID_COLUMNS * GRID_ROWS,
            forall|i: int| 0 <= i < g.blocks@.len() ==> #[trigger] g.blocks@[i] == grid_block(i, GRID_ROWS as int),
    {
        Self::with_grid(GRID_COLUMNS, GRID_ROWS)
    }

    /// A game with a grid of `cols` by `rows` blocks; the paddle at the
    /// bottom centre and the ball stuck to it.
    pub fn with_grid(cols: u32, rows: u32) -> (g: Game)
        requires
            cols * rows <= usize::MAX,
        ensures
            g.wf(),
            g.paddle == Paddle::new_spec(),
            g.ball == (Ball { pos: Vec2 { x: 400000, y: 569000 }, vel: Vec2 { x: 0, y: 0 }, stuck: true }),
            g.blocks@.len() == cols * rows,
            forall|i: int| 0 <= i < g.blocks@.len() ==> #[trigger] g.blocks@[i] == grid_block(i, rows as int),
    {
        let paddle = Paddle::new();
        let mut ball = Ball::new();
        ball.stick_to(&paddle);
        Game { paddle, ball, blocks: block_grid(cols, rows) }
    }

    /// One frame of `dt` microseconds with the buttons in `input`.
    pub fn step(&mut self, input: Input, dt: u32) -> (status: Status)
        requires
            old(self).wf(),
        ensures
            final(self).wf(),
            ({
                let (p, b, bl, s) = spec_step(old(self).paddle, old(self).ball, old(self).blocks@, input, dt);
                final(self).paddle == p && final(self).ball == b && final(self).blocks@ == bl && status == s
            }),
    {
        let ghost blocks0 = self.blocks@;
        let ghost ball0 = self.ball;
        let n = self.blocks.len();
        let mut i: usize = 0;
        while i < n
            invariant
                i <= n,
                n == self.blocks@.len(),
                n == blocks0.len(),
                self.ball.wf(),
                self.paddle == old(self).paddle,
                self.paddle.wf(),
                self.blocks@.subrange(0, i as int) == blocks_phase(blocks0.subrange(0, i as int), ball0).0,
                self.blocks@.subrange(i as int, n as int) == blocks0.subrange(i as int, n as int),
                self.ball == blocks_phase(blocks0.subrange(0, i as int), ball0).1,
            decreases n - i,
        {
            let ghost before = self.blocks@;
            let ghost ball_before = self.ball;
            let mut blk = self.blocks[i];
            proof {
                assert(blk == before.subrange(i as int, n as int)[0]);
            }
            let hit = blk.check_hit(&self.ball);
            match hit {
                Some(HitBy::X) => self.ball.bounce_y(),
                Some(HitBy::Y) => self.ball.bounce_x(),
                Some(HitBy::XY) => {
                    self.ball.bounce_x();
                    self.ball.bounce_y();
                },
                None => {},
            }
            self.blocks.set(i, blk);
            proof {
                let prefix = blocks0.subrange(0, i + 1);
                assert(prefix.drop_last() =~= blocks0.subrange(0, i as int));
                assert(prefix.last() == blocks0[i as int]);
                lemma_blocks_phase_len(blocks0.subrange(0, i as int), ball0);
                assert(self.blocks@.subrange(0, i + 1) =~= before.subrange(0, i as int).push(blk));
                assert(self.blocks@.subrange(i + 1, n as int) =~= before.subrange(i + 1, n as int));
                assert(before.subrange(i + 1, n as int) =~= before.subrange(i as int, n as int).drop_first());
                assert(blocks0.subrange(i + 1, n as int) =~= blocks0.subrange(i as int, n as int).drop_first());
            }
            i = i + 1;
        }
        proof {
            assert(blocks0.subrange(0, n as int) =~= blocks0);
            assert(self.blocks@.subrange(0, n as int) =~= self.blocks@);
        }
        if input.right {
            self.paddle.move_right(dt);
        } else if input.left {
            self.paddle.move_left(dt);
        } else {
            self.paddle.stop();
        }
        let direction = self.paddle.direction;
        if input.launch && self.ball.stuck {
            self.ball.vel = Vec2 { x: direction as i64 * PADDLE_SPEED, y: PADDLE_SPEED };
            self.ball.stuck = false;
        }
        match self.paddle.check_hit(&self.ball) {
            Some(HitBy::X) => {
                self.ball.bounce_y();
                self.ball.vel.x = saturate_i128(
                    self.ball.vel.x as i128 + direction as i128 * PADDLE_SPEED as i128,
                );
            },
            Some(HitBy::XY) => {
                self.ball.bounce_x();
                self.ball.bounce_y();
                self.ball.vel.x = saturate_i128(
                    self.ball.vel.x as i128 + direction as i128 * PADDLE_SPEED as i128,
                );
            },
            _ => {},
        }
        if self.ball.stuck {
            self.ball.stick_to(&self.paddle);
        }
        self.ball.update(dt)
    }
}

} // verus!
