use vstd::prelude::*;

use crate::pong::{Arena, Ball, Point, Pong, Side};

verus! {

/// The side that scores with the ball where it is: the right side when it has
/// passed the left wall, the left side when it has passed the right wall.
pub open spec fn scorer(ball: Ball, arena: Arena) -> Option<Side> {
    if ball.position.x < 0 {
        Some(Side::Right)
    } else if ball.position.x > arena.width {
        Some(Side::Left)
    } else {
        None
    }
}

/// The ball put back in play after `side` scored: at the centre of the arena,
/// with the initial speeds, moving away from the wall it passed.
pub open spec fn served(ball: Ball, arena: Arena, side: Side) -> Ball {
    Ball {
        velocity_x: match side {
            Side::Right => arena.ball_speed_x,
            Side::Left => (-arena.ball_speed_x) as i64,
        },
        velocity_y: arena.ball_speed_y,
        radius: ball.radius,
        position: Point { x: (arena.width / 2) as i64, y: (arena.height / 2) as i64 },
    }
}

/// The state after round outcome: reset when a side scored, else unchanged.
pub open spec fn round_outcome(p: Pong) -> Pong {
    match scorer(p.ball, p.arena) {
        Some(side) => Pong { ball: served(p.ball, p.arena, side), ..p },
        None => p,
    }
}

/// Round outcome: resets the ball once it has left the arena on either side.
pub struct WinnerSystem;

impl WinnerSystem {
    /// Returns the side that scored this frame, if any.
    pub fn run(&mut self, pong: &mut Pong) -> (r: Option<Side>)
        requires
            old(pong).arena.wf(),
        ensures
            r == scorer(old(pong).ball, old(pong).arena),
            *final(pong) == round_outcome(*old(pong)),
    {
        let arena = pong.arena;
        let side = if pong.ball.position.x < 0 {
            Some(Side::Right)
        } else if pong.ball.position.x > arena.width {
            Some(Side::Left)
        } else {
            None
        };
        if let Some(s) = side {
            pong.ball.velocity_x = match s {
                Side::Right => arena.ball_speed_x,
                Side::Left => -arena.ball_speed_x,
            };
            pong.ball.velocity_y = arena.ball_speed_y;
            pong.ball.position = Point { x: arena.width / 2, y: arena.height / 2 };
        }
        side
    }
}

} // verus!
