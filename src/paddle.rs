use vstd::prelude::*;

use crate::pong::{clamp, paddle_high, paddle_low, Paddle, Point, Pong, Side, LIMIT};

verus! {

/// One frame's input: the axis value of each paddle's control, in thousandths
/// (`AXIS_FULL` is full deflection), or `None` where the axis is unbound or
/// its device absent.
#[derive(PartialEq, Eq, Structural, Clone, Copy, Debug)]
pub struct PaddleInput {
    pub left: Option<i64>,
    pub right: Option<i64>,
}

impl PaddleInput {
    pub open spec fn axis_for(&self, side: Side) -> Option<i64> {
        match side {
            Side::Left => self.left,
            Side::Right => self.right,
        }
    }

    /// The axis value that controls the paddle on `side`.
    pub fn axis_value(&self, side: Side) -> (r: Option<i64>)
        ensures
            r == self.axis_for(side),
    {
        match side {
            Side::Left => self.left,
            Side::Right => self.right,
        }
    }
}

/// Centre height of `paddle` after a frame with input `axis`: moved by
/// `scale * axis` and clamped to its range, or unchanged without input.
pub open spec fn controlled_y(paddle: Paddle, arena_height: int, scale: int, axis: Option<i64>) -> int {
    match axis {
        Some(a) => clamp(
            paddle.position.y + scale * a,
            paddle_low(paddle.height as int),
            paddle_high(arena_height, paddle.height as int),
        ),
        None => paddle.position.y as int,
    }
}

pub open spec fn controlled(paddle: Paddle, arena_height: int, scale: int, axis: Option<i64>) -> Paddle {
    Paddle {
        position: Point {
            x: paddle.position.x,
            y: controlled_y(paddle, arena_height, scale, axis) as i64,
        },
        ..paddle
    }
}

/// Whether the paddle's centre lies within its range in an arena of height
/// `arena_height`.
pub open spec fn within_range(paddle: Paddle, arena_height: int) -> bool {
    paddle_low(paddle.height as int) <= paddle.position.y <= paddle_high(
        arena_height,
        paddle.height as int,
    )
}

/// The state after paddle control: each paddle follows the axis of its side.
pub open spec fn paddles_controlled(p: Pong, input: PaddleInput) -> Pong {
    let h = p.arena.height as int;
    let s = p.arena.movement_scale as int;
    Pong {
        left: controlled(p.left, h, s, input.axis_for(p.left.side)),
        right: controlled(p.right, h, s, input.axis_for(p.right.side)),
        ..p
    }
}

fn control_paddle(paddle: &mut Paddle, arena_height: i64, scale: i64, axis: Option<i64>)
    requires
        0 <= old(paddle).height <= LIMIT,
        0 <= arena_height <= LIMIT,
        0 <= scale <= LIMIT,
    ensures
        *final(paddle) == controlled(*old(paddle), arena_height as int, scale as int, axis),
        axis.is_some() ==> LIMIT >= final(paddle).position.y >= 0,
{
    if let Some(a) = axis {
        proof {
            assert(-(LIMIT as int) * 0x8000_0000_0000_0000 <= (scale as int) * (a as int)
                <= (LIMIT as int) * 0x8000_0000_0000_0000) by (nonlinear_arith)
                requires
                    0 <= scale <= LIMIT,
                    -0x8000_0000_0000_0000 <= a < 0x8000_0000_0000_0000,
            ;
        }
        let target: i128 = paddle.position.y as i128 + (scale as i128) * (a as i128);
        let lo: i128 = (paddle.height / 2) as i128;
        let hi: i128 = (arena_height - paddle.height / 2) as i128;
        let y: i128 = if target > hi {
            if hi < lo { lo } else { hi }
        } else if target < lo {
            lo
        } else {
            target
        };
        paddle.position.y = y as i64;
    }
}

/// Paddle control: moves each paddle by its side's axis value.
pub struct PaddleSystem;

impl PaddleSystem {
    pub fn run(&mut self, pong: &mut Pong, input: &PaddleInput)
        requires
            old(pong).in_range(),
        ensures
            *final(pong) == paddles_controlled(*old(pong), *input),
            final(pong).in_range(),
            within_range(old(pong).left, old(pong).arena.height as int) ==> within_range(
                final(pong).left,
                old(pong).arena.height as int,
            ),
            within_range(old(pong).right, old(pong).arena.height as int) ==> within_range(
                final(pong).right,
                old(pong).arena.height as int,
            ),
    {
        let height = pong.arena.height;
        let scale = pong.arena.movement_scale;
        let left_axis = input.axis_value(pong.left.side);
        control_paddle(&mut pong.left, height, scale, left_axis);
        let right_axis = input.axis_value(pong.right.side);
        control_paddle(&mut pong.right, height, scale, right_axis);
    }
}

} // verus!
