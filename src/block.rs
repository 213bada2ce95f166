//! A destructible block of the grid.
use vstd::prelude::*;
use crate::ball::Ball;
use crate::geometry::{hit_spec, hit_test, HitBy, Rect};
use crate::{Vec2, BLOCK_HEIGHT, BLOCK_WIDTH};

verus! {

/// A block: its top-left corner, and whether it is still in play.
#[derive(Clone, Copy, Debug, PartialEq, Eq, Structural)]
pub struct Block {
    pub pos: Vec2,
    pub visible: bool,
}

impl Block {
    pub open spec fn spec_rect(self) -> Rect {
        Rect { x: self.pos.x, y: self.pos.y, w: BLOCK_WIDTH, h: BLOCK_HEIGHT }
    }

    /// What `check_hit` returns: nothing once the block is gone.
    pub open spec fn spec_hit(self, ball: Ball) -> Option<HitBy> {
        if self.visible {
            hit_spec(ball.spec_circle(), self.spec_rect())
        } else {
            None
        }
    }

    /// The block after `check_hit`: gone once hit.
    pub open spec fn spec_after_hit(self, ball: Ball) -> Block {
        if self.spec_hit(ball) is Some {
            Block { visible: false, ..self }
        } else {
            self
        }
    }

    pub fn new(x: i64, y: i64) -> (b: Block)
        ensures
            b == (Block { pos: Vec2 { x, y }, visible: true }),
    {
        Block { pos: Vec2 { x, y }, visible: true }
    }

    pub fn rect(&self) -> (r: Rect)
        ensures
            r == self.spec_rect(),
    {
        Rect { x: self.pos.x, y: self.pos.y, w: BLOCK_WIDTH, h: BLOCK_HEIGHT }
    }

    /// Tests the ball against a block still in play; a block that is hit
    /// leaves play for good.
    pub fn check_hit(&mut self, ball: &Ball) -> (res: Option<HitBy>)
        ensures
            res == old(self).spec_hit(*ball),
            *final(self) == old(self).spec_after_hit(*ball),
            !old(self).visible ==> res is None,
            res is Some ==> !final(self).visible,
    {
        if !self.visible {
            return None;
        }
        let res = hit_test(&ball.circle(), &self.rect());
        if res.is_some() {
            self.visible = false;
        }
        res
    }
}

/// What successive calls of `check_hit` on one block return, for the balls
/// in `balls`, in order.
pub open spec fn hits_over(block: Block, balls: Seq<Ball>) -> Seq<Option<HitBy>>
    decreases balls.len(),
{
    if balls.len() == 0 {
        Seq::empty()
    } else {
        seq![block.spec_hit(balls[0])] + hits_over(block.spec_after_hit(balls[0]), balls.drop_first())
    }
}

/// A block out of play is never hit again.
pub proof fn lemma_gone_block_never_hit(block: Block, balls: Seq<Ball>)
    requires
        !block.visible,
    ensures
        hits_over(block, balls).len() == balls.len(),
        forall|j: int| 0 <= j < balls.len() ==> #[trigger] hits_over(block, balls)[j] is None,
    decreases balls.len(),
{
    if balls.len() > 0 {
        lemma_gone_block_never_hit(block, balls.drop_first());
        assert forall|j: int| 0 <= j < balls.len() implies #[trigger] hits_over(block, balls)[j] is None by {
            if j > 0 {
                assert(hits_over(block, balls)[j] == hits_over(block, balls.drop_first())[j - 1]);
            }
        }
    }
}

/// A block is hit at most once: after its first hit, every later call of
/// `check_hit` returns no hit, wherever the ball is.
pub proof fn lemma_block_hit_at_most_once(block: Block, balls: Seq<Ball>)
    ensures
        hits_over(block, balls).len() == balls.len(),
        forall|i: int, j: int|
            0 <= i < j < balls.len() && (#[trigger] hits_over(block, balls)[i]) is Some
                ==> (#[trigger] hits_over(block, balls)[j]) is None,
    decreases balls.len(),
{
    if balls.len() > 0 {
        let next = block.spec_after_hit(balls[0]);
        let rest = balls.drop_first();
        lemma_block_hit_at_most_once(next, rest);
        if block.spec_hit(balls[0]) is Some {
            lemma_gone_block_never_hit(next, rest);
        }
        assert forall|i: int, j: int|
            0 <= i < j < balls.len() && (#[trigger] hits_over(block, balls)[i]) is Some
                implies (#[trigger] hits_over(block, balls)[j]) is None by {
            assert(hits_over(block, balls)[j] == hits_over(next, rest)[j - 1]);
            if i > 0 {
                assert(hits_over(block, balls)[i] == hits_over(next, rest)[i - 1]);
            }
        }
    }
}

} // verus!
