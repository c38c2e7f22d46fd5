use vstd::prelude::*;

use crate::pong::{abs, Ball, Paddle, Pong, Side};

verus! {

/// Whether the ball touches the bottom wall while moving down, or the top wall
/// while moving up.
pub open spec fn hits_wall(ball: Ball, arena_height: int) -> bool {
    let y = ball.position.y as int;
    let r = ball.radius as int;
    ||| y - r <= 0 && ball.velocity_y < 0
    ||| y + r >= arena_height && ball.velocity_y > 0
}

/// Whether the ball's bounding square meets the paddle's rectangle.
pub open spec fn overlaps(ball: Ball, paddle: Paddle) -> bool {
    &&& abs(ball.position.x - paddle.position.x) <= paddle.width / 2 + ball.radius
    &&& abs(ball.position.y - paddle.position.y) <= paddle.height / 2 + ball.radius
}

/// Whether the ball moves horizontally towards the paddle on `side`.
pub open spec fn moving_toward(ball: Ball, side: Side) -> bool {
    match side {
        Side::Left => ball.velocity_x < 0,
        Side::Right => ball.velocity_x > 0,
    }
}

/// The ball after the wall test: vertical velocity negated on a hit.
pub open spec fn wall_bounced(ball: Ball, arena_height: int) -> Ball {
    if hits_wall(ball, arena_height) {
        Ball { velocity_y: (-ball.velocity_y) as i64, ..ball }
    } else {
        ball
    }
}

/// The ball after the test against one paddle: horizontal velocity negated
/// when it overlaps the paddle and moves towards it.
pub open spec fn paddle_bounced(ball: Ball, paddle: Paddle) -> Ball {
    if overlaps(ball, paddle) && moving_toward(ball, paddle.side) {
        Ball { velocity_x: (-ball.velocity_x) as i64, ..ball }
    } else {
        ball
    }
}

/// The ball after bounce resolution: walls, then the left paddle, then the
/// right one.
pub open spec fn ball_bounced(ball: Ball, left: Paddle, right: Paddle, arena_height: int) -> Ball {
    paddle_bounced(paddle_bounced(wall_bounced(ball, arena_height), left), right)
}

/// The state after bounce resolution: only the ball's velocity changes.
pub open spec fn bounced(p: Pong) -> Pong {
    Pong { ball: ball_bounced(p.ball, p.left, p.right, p.arena.height as int), ..p }
}

fn bounce_off_walls(ball: &mut Ball, arena_height: i64)
    requires
        0 <= arena_height <= crate::pong::LIMIT,
        0 <= old(ball).radius <= crate::pong::LIMIT,
        -crate::pong::LIMIT <= old(ball).velocity_y <= crate::pong::LIMIT,
        -3 * crate::pong::LIMIT <= old(ball).position.y <= 3 * crate::pong::LIMIT,
    ensures
        *final(ball) == wall_bounced(*old(ball), arena_height as int),
{
    let y = ball.position.y;
    let r = ball.radius;
    if (y - r <= 0 && ball.velocity_y < 0) || (y + r >= arena_height && ball.velocity_y > 0) {
        ball.velocity_y = -ball.velocity_y;
    }
}

fn bounce_off_paddle(ball: &mut Ball, paddle: &Paddle)
    requires
        0 <= old(ball).radius <= crate::pong::LIMIT,
        -crate::pong::LIMIT <= old(ball).velocity_x <= crate::pong::LIMIT,
        -3 * crate::pong::LIMIT <= old(ball).position.x <= 3 * crate::pong::LIMIT,
        -3 * crate::pong::LIMIT <= old(ball).position.y <= 3 * crate::pong::LIMIT,
        0 <= paddle.width <= crate::pong::LIMIT,
        0 <= paddle.height <= crate::pong::LIMIT,
        -2 * crate::pong::LIMIT <= paddle.position.x <= 2 * crate::pong::LIMIT,
        -2 * crate::pong::LIMIT <= paddle.position.y <= 2 * crate::pong::LIMIT,
    ensures
        *final(ball) == paddle_bounced(*old(ball), *paddle),
{
    let dx = ball.position.x - paddle.position.x;
    let dy = ball.position.y - paddle.position.y;
    let dx_abs = if dx < 0 { -dx } else { dx };
    let dy_abs = if dy < 0 { -dy } else { dy };
    let overlap = dx_abs <= paddle.width / 2 + ball.radius && dy_abs <= paddle.height / 2
        + ball.radius;
    let toward = match paddle.side {
        Side::Left => ball.velocity_x < 0,
        Side::Right => ball.velocity_x > 0,
    };
    if overlap && toward {
        ball.velocity_x = -ball.velocity_x;
    }
}

/// Bounce resolution: flips the ball's velocity off the walls and paddles.
pub struct BounceSystem;

impl BounceSystem {
    pub fn run(&mut self, pong: &mut Pong)
        requires
            old(pong).in_range(),
        ensures
            *final(pong) == bounced(*old(pong)),
            final(pong).in_range(),
            abs(final(pong).ball.velocity_x as int) == abs(old(pong).ball.velocity_x as int),
            abs(final(pong).ball.velocity_y as int) == abs(old(pong).ball.velocity_y as int),
    {
        let height = pong.arena.height;
        bounce_off_walls(&mut pong.ball, height);
        let left = pong.left;
        bounce_off_paddle(&mut pong.ball, &left);
        let right = pong.right;
        bounce_off_paddle(&mut pong.ball, &right);
    }
}

} // verus!
