//! The ball: position, velocity, and whether it still rides the paddle.
use vstd::prelude::*;
use crate::geometry::Circle;
use crate::motion::{in_range, saturate, travel, saturate_i128, travel_i128};
use crate::paddle::Paddle;
use crate::{Vec2, BALL_RADIUS, PADDLE_WIDTH, SCREEN_HEIGHT, SCREEN_WIDTH, UNIT};

verus! {

/// Whether the game goes on after a frame, or has ended because the ball
/// fell past the bottom of the screen.
#[derive(Clone, Copy, Debug, PartialEq, Eq, Structural)]
pub enum Status {
    Running,
    Over,
}

/// The ball. A positive vertical velocity moves it up the screen, whose `y`
/// grows downward.
#[derive(Clone, Copy, Debug, PartialEq, Eq, Structural)]
pub struct Ball {
    pub pos: Vec2,
    pub vel: Vec2,
    pub stuck: bool,
}

impl Ball {
    /// Both velocity components can be negated.
    pub open spec fn wf(self) -> bool {
        in_range(self.vel.x as int) && in_range(self.vel.y as int)
    }

    pub open spec fn spec_circle(self) -> Circle {
        Circle { x: self.pos.x, y: self.pos.y, r: BALL_RADIUS }
    }

    pub open spec fn spec_bounce_x(self) -> Ball {
        Ball { vel: Vec2 { x: (-self.vel.x) as i64, y: self.vel.y }, ..self }
    }

    pub open spec fn spec_bounce_y(self) -> Ball {
        Ball { vel: Vec2 { x: self.vel.x, y: (-self.vel.y) as i64 }, ..self }
    }

    /// Centred over the paddle, one unit clear of its top edge.
    pub open spec fn spec_stick_to(self, paddle: Paddle) -> Ball {
        Ball {
            pos: Vec2 {
                x: saturate(paddle.pos.x + PADDLE_WIDTH / 2) as i64,
                y: saturate(paddle.pos.y - BALL_RADIUS - UNIT) as i64,
            },
            ..self
        }
    }

    /// Horizontal velocity after the side walls: reflected when the centre
    /// lies beyond a wall by less than a radius.
    pub open spec fn reflected_vx(self) -> int {
        if self.pos.x > SCREEN_WIDTH - BALL_RADIUS || self.pos.x < BALL_RADIUS {
            -self.vel.x
        } else {
            self.vel.x as int
        }
    }

    /// Vertical velocity after the top wall.
    pub open spec fn reflected_vy(self) -> int {
        if self.pos.y < BALL_RADIUS {
            -self.vel.y
        } else {
            self.vel.y as int
        }
    }

    /// One frame of `dt` microseconds: reflect off the walls, then either end
    /// the game (centre below the screen; vertical velocity set to zero) or
    /// move by the velocity.
    pub open spec fn spec_update(self, dt: u32) -> (Ball, Status) {
        let vx = self.reflected_vx();
        let vy = self.reflected_vy();
        if self.pos.y > SCREEN_HEIGHT {
            (Ball { vel: Vec2 { x: vx as i64, y: 0 }, ..self }, Status::Over)
        } else {
            (
                Ball {
                    pos: Vec2 {
                        x: saturate(self.pos.x + travel(vx, dt as int)) as i64,
                        y: saturate(self.pos.y - travel(vy, dt as int)) as i64,
                    },
                    vel: Vec2 { x: vx as i64, y: vy as i64 },
                    ..self
                },
                Status::Running,
            )
        }
    }

    /// At rest at the origin, stuck until launched.
    pub fn new() -> (b: Ball)
        ensures
            b == (Ball { pos: Vec2 { x: 0, y: 0 }, vel: Vec2 { x: 0, y: 0 }, stuck: true }),
            b.wf(),
    {
        Ball { pos: Vec2 { x: 0, y: 0 }, vel: Vec2 { x: 0, y: 0 }, stuck: true }
    }

    pub fn circle(&self) -> (c: Circle)
        ensures
            c == self.spec_circle(),
    {
        Circle { x: self.pos.x, y: self.pos.y, r: BALL_RADIUS }
    }

    /// Negates the horizontal velocity.
    pub fn bounce_x(&mut self)
        requires
            in_range(old(self).vel.x as int),
        ensures
            *final(self) == old(self).spec_bounce_x(),
    {
        self.vel.x = -self.vel.x;
    }

    /// Negates the vertical velocity.
    pub fn bounce_y(&mut self)
        requires
            in_range(old(self).vel.y as int),
        ensures
            *final(self) == old(self).spec_bounce_y(),
    {
        self.vel.y = -self.vel.y;
    }

    pub fn stick_to(&mut self, paddle: &Paddle)
        ensures
            *final(self) == old(self).spec_stick_to(*paddle),
    {
        self.pos.x = saturate_i128(paddle.pos.x as i128 + (PADDLE_WIDTH / 2) as i128);
        self.pos.y = saturate_i128(paddle.pos.y as i128 - BALL_RADIUS as i128 - UNIT as i128);
    }

    pub fn update(&mut self, dt: u32) -> (status: Status)
        requires
            old(self).wf(),
        ensures
            (*final(self), status) == old(self).spec_update(dt),
            final(self).wf(),
            final(self).vel.x == if old(self).pos.x < BALL_RADIUS || old(self).pos.x > SCREEN_WIDTH
                - BALL_RADIUS {
                -old(self).vel.x
            } else {
                old(self).vel.x as int
            },
            status == Status::Running ==> final(self).vel.y == if old(self).pos.y < BALL_RADIUS {
                -old(self).vel.y
            } else {
                old(self).vel.y as int
            },
            status == Status::Over <==> old(self).pos.y > SCREEN_HEIGHT,
    {
        if self.pos.x > SCREEN_WIDTH - BALL_RADIUS || self.pos.x < BALL_RADIUS {
            self.vel.x = -self.vel.x;
        }
        if self.pos.y < BALL_RADIUS {
            self.vel.y = -self.vel.y;
        }
        if self.pos.y > SCREEN_HEIGHT {
            self.vel.y = 0;
            return Status::Over;
        }
        let dx = travel_i128(self.vel.x, dt);
        let dy = travel_i128(self.vel.y, dt);
        self.pos.x = saturate_i128(self.pos.x as i128 + dx);
        self.pos.y = saturate_i128(self.pos.y as i128 - dy);
        Status::Running
    }
}

/// Reflecting twice restores the ball exactly.
pub proof fn lemma_bounce_x_twice(b: Ball)
    requires
        in_range(b.vel.x as int),
    ensures
        b.spec_bounce_x().spec_bounce_x() == b,
{
}

/// Reflecting twice restores the ball exactly.
pub proof fn lemma_bounce_y_twice(b: Ball)
    requires
        in_range(b.vel.y as int),
    ensures
        b.spec_bounce_y().spec_bounce_y() == b,
{
}

/// In a frame, the horizontal velocity changes sign exactly when the centre
/// lies beyond a side wall by less than a radius; while the ball is in play,
/// the vertical velocity changes sign exactly when it lies above the top
/// wall by less than a radius.
pub proof fn lemma_update_reflects(b: Ball, dt: u32)
    requires
        b.wf(),
    ensures
        b.vel.x != 0 ==> ((b.spec_update(dt).0.vel.x < 0) != (b.vel.x < 0) <==> (b.pos.x < BALL_RADIUS
            || b.pos.x > SCREEN_WIDTH - BALL_RADIUS)),
        b.vel.y != 0 && b.pos.y <= SCREEN_HEIGHT ==> ((b.spec_update(dt).0.vel.y < 0) != (b.vel.y < 0)
            <==> b.pos.y < BALL_RADIUS),
        b.spec_update(dt).1 == Status::Over <==> b.pos.y > SCREEN_HEIGHT,
{
}

} // verus!
