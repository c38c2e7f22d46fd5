use vstd::prelude::*;

use crate::balls::{moved, MoveBallsSystem};
use crate::bounce::{bounced, BounceSystem};
use crate::paddle::{paddles_controlled, PaddleInput, PaddleSystem};
use crate::pong::{Pong, Side, LIMIT};
use crate::winner::{round_outcome, scorer, WinnerSystem};

verus! {

/// One frame: paddle control, ball motion, bounce resolution, round outcome.
pub open spec fn frame(p: Pong, input: PaddleInput) -> Pong {
    round_outcome(bounced(moved(paddles_controlled(p, input))))
}

/// The state after one frame for each input in turn.
pub open spec fn frames(p: Pong, inputs: Seq<PaddleInput>) -> Pong
    decreases inputs.len(),
{
    if inputs.len() == 0 {
        p
    } else {
        frames(frame(p, inputs[0]), inputs.drop_first())
    }
}

/// Paddle control keeps a well-formed state's paddles well formed.
proof fn lemma_control_wf(p: Pong, input: PaddleInput)
    requires
        p.wf(),
    ensures
        paddles_controlled(p, input).wf(),
        paddles_controlled(p, input).in_range(),
{
}

/// Motion, then bounce resolution, then round outcome take a state whose
/// paddles and arena are well formed and whose ball is well formed to one that
/// is well formed throughout.
proof fn lemma_ball_phases_wf(p: Pong)
    requires
        p.wf(),
    ensures
        moved(p).in_range(),
        round_outcome(bounced(moved(p))).wf(),
{
    let m = moved(p);
    let b = bounced(m);
    assert(m.in_range());
    assert(b.in_range());
    let r = round_outcome(b);
    let h = p.arena.height as int;
    let rad = p.arena.ball_radius as int;
    let s = p.arena.ball_speed_y as int;
    let y = p.ball.position.y as int;
    let vy = p.ball.velocity_y as int;
    assert(m.ball.position.y == y + vy);
    assert(-s <= y + vy <= h + s) by {
        if y - rad <= 0 {
            assert(vy >= 0);
        } else if y + rad >= h {
            assert(vy <= 0);
        }
    }
    assert(b.ball.contained(b.arena));
    assert(r.wf());
}

/// A frame takes a well-formed state to a well-formed state.
pub proof fn lemma_frame_wf(p: Pong, input: PaddleInput)
    requires
        p.wf(),
    ensures
        frame(p, input).wf(),
{
    lemma_control_wf(p, input);
    lemma_ball_phases_wf(paddles_controlled(p, input));
}

impl Pong {
    /// Runs one frame with `input`; returns the side that scored, if any.
    pub fn frame(&mut self, input: &PaddleInput) -> (r: Option<Side>)
        requires
            old(self).wf(),
        ensures
            *final(self) == frame(*old(self), *input),
            final(self).wf(),
            r == scorer(bounced(moved(paddles_controlled(*old(self), *input))).ball, old(self).arena),
    {
        proof {
            lemma_control_wf(*self, *input);
            lemma_ball_phases_wf(paddles_controlled(*self, *input));
        }
        let mut paddles = PaddleSystem;
        paddles.run(self, input);
        let mut balls = MoveBallsSystem;
        balls.run(self);
        let mut bounce = BounceSystem;
        bounce.run(self);
        let mut winner = WinnerSystem;
        winner.run(self)
    }
}

} // verus!
