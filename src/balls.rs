use vstd::prelude::*;

use crate::pong::{Ball, Point, Pong, LIMIT};

verus! {

/// The ball moved by one whole velocity vector.
pub open spec fn ball_moved(ball: Ball) -> Ball {
    Ball {
        position: Point {
            x: (ball.position.x + ball.velocity_x) as i64,
            y: (ball.position.y + ball.velocity_y) as i64,
        },
        ..ball
    }
}

/// The state after ball motion: only the ball's position changes.
pub open spec fn moved(p: Pong) -> Pong {
    Pong { ball: ball_moved(p.ball), ..p }
}

/// Ball motion: adds the velocity to the position, once per frame.
pub struct MoveBallsSystem;

impl MoveBallsSystem {
    pub fn run(&mut self, pong: &mut Pong)
        requires
            -2 * LIMIT <= old(pong).ball.position.x <= 2 * LIMIT,
            -2 * LIMIT <= old(pong).ball.position.y <= 2 * LIMIT,
            -LIMIT <= old(pong).ball.velocity_x <= LIMIT,
            -LIMIT <= old(pong).ball.velocity_y <= LIMIT,
        ensures
            *final(pong) == moved(*old(pong)),
            final(pong).ball.position.x == old(pong).ball.position.x + old(pong).ball.velocity_x,
            final(pong).ball.position.y == old(pong).ball.position.y + old(pong).ball.velocity_y,
    {
        pong.ball.position.x = pong.ball.position.x + pong.ball.velocity_x;
        pong.ball.position.y = pong.ball.position.y + pong.ball.velocity_y;
    }
}

} // verus!
