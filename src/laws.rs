use vstd::prelude::*;

use crate::bounce::{bounced, hits_wall};
use crate::frame::{frame, frames, lemma_frame_wf};
use crate::paddle::{paddles_controlled, PaddleInput};
use crate::pong::{abs, paddle_high, paddle_low, Pong};
use crate::winner::round_outcome;

verus! {

/// After paddle control, each paddle's centre lies within
/// `[height/2, arena_height - height/2]`, whatever the input.
pub proof fn law_paddles_clamped(p: Pong, input: PaddleInput)
    requires
        p.wf(),
    ensures
        ({
            let q = paddles_controlled(p, input);
            let h = p.arena.height as int;
            &&& paddle_low(q.left.height as int) <= q.left.position.y
            &&& q.left.position.y <= paddle_high(h, q.left.height as int)
            &&& paddle_low(q.right.height as int) <= q.right.position.y
            &&& q.right.position.y <= paddle_high(h, q.right.height as int)
        }),
{
}

/// Every frame keeps the state well formed: paddles clamped to their range,
/// the ball contained at the walls and its speed magnitudes fixed.
pub proof fn law_frames_wf(p: Pong, inputs: Seq<PaddleInput>)
    requires
        p.wf(),
    ensures
        frames(p, inputs).wf(),
        frames(p, inputs).arena == p.arena,
    decreases inputs.len(),
{
    if inputs.len() > 0 {
        lemma_frame_wf(p, inputs[0]);
        law_frames_wf(frame(p, inputs[0]), inputs.drop_first());
    }
}

/// Bounce resolution negates the vertical velocity exactly when the ball
/// touches a wall while moving into it, and resolving again at the same
/// position does not flip it back.
pub proof fn law_wall_bounce(p: Pong)
    requires
        p.in_range(),
        p.ball.radius == p.arena.ball_radius,
    ensures
        hits_wall(p.ball, p.arena.height as int) ==> bounced(p).ball.velocity_y
            == -p.ball.velocity_y,
        !hits_wall(p.ball, p.arena.height as int) ==> bounced(p).ball.velocity_y
            == p.ball.velocity_y,
        bounced(bounced(p)).ball.velocity_y == bounced(p).ball.velocity_y,
{
}

/// Over any number of frames, and so of bounces, the ball's speed does not
/// change: each velocity component keeps its magnitude.
pub proof fn law_speed_invariant(p: Pong, inputs: Seq<PaddleInput>)
    requires
        p.wf(),
    ensures
        ({
            let b = frames(p, inputs).ball;
            &&& abs(b.velocity_x as int) == abs(p.ball.velocity_x as int)
            &&& abs(b.velocity_y as int) == abs(p.ball.velocity_y as int)
            &&& b.velocity_x * b.velocity_x + b.velocity_y * b.velocity_y
                == p.ball.velocity_x * p.ball.velocity_x + p.ball.velocity_y * p.ball.velocity_y
        }),
{
    law_frames_wf(p, inputs);
    let b = frames(p, inputs).ball;
    assert(b.velocity_x * b.velocity_x == p.ball.velocity_x * p.ball.velocity_x) by (nonlinear_arith)
        requires
            b.velocity_x == p.ball.velocity_x || b.velocity_x == -p.ball.velocity_x,
    ;
    assert(b.velocity_y * b.velocity_y == p.ball.velocity_y * p.ball.velocity_y) by (nonlinear_arith)
        requires
            b.velocity_y == p.ball.velocity_y || b.velocity_y == -p.ball.velocity_y,
    ;
}

/// Round outcome leaves the state unchanged while the ball is within
/// `[0, width]`.
pub proof fn law_round_outcome_in_arena(p: Pong)
    requires
        0 <= p.ball.position.x <= p.arena.width,
    ensures
        round_outcome(p) == p,
{
}

/// Round outcome applied twice is round outcome applied once.
pub proof fn law_round_outcome_idempotent(p: Pong)
    requires
        p.arena.wf(),
    ensures
        round_outcome(round_outcome(p)) == round_outcome(p),
{
}

} // verus!
