use vstd::prelude::*;

verus! {

/// Position units in one arena unit: coordinates are fixed-point millionths.
pub const UNIT: i64 = 1_000_000;

/// Axis value of a fully deflected control; axis values are thousandths.
pub const AXIS_FULL: i64 = 1000;

/// Largest dimension, speed or movement scale an arena may be configured with.
pub const LIMIT: i64 = 1_000_000_000_000;

pub const ARENA_HEIGHT: i64 = 100_000_000;
pub const ARENA_WIDTH: i64 = 100_000_000;
pub const PADDLE_HEIGHT: i64 = 16_000_000;
pub const PADDLE_WIDTH: i64 = 4_000_000;
pub const BALL_VELOCITY_X: i64 = 75_000_000;
pub const BALL_VELOCITY_Y: i64 = 50_000_000;
pub const BALL_RADIUS: i64 = 2_000_000;

/// Paddle movement per frame at full deflection, in thousandths of an axis
/// unit: position change = `movement_scale * axis`, both in thousandths.
pub const MOVEMENT_SCALE: i64 = 1200;

#[derive(PartialEq, Eq, Structural, Clone, Copy, Debug)]
pub enum Side {
    Left,
    Right,
}

#[derive(PartialEq, Eq, Structural, Clone, Copy, Debug)]
pub struct Point {
    pub x: i64,
    pub y: i64,
}

/// The fixed configuration of a game: arena spans `[0, width] x [0, height]`.
#[derive(PartialEq, Eq, Structural, Clone, Copy, Debug)]
pub struct Arena {
    pub width: i64,
    pub height: i64,
    pub paddle_width: i64,
    pub paddle_height: i64,
    pub ball_radius: i64,
    pub ball_speed_x: i64,
    pub ball_speed_y: i64,
    pub movement_scale: i64,
}

#[derive(PartialEq, Eq, Structural, Clone, Copy, Debug)]
pub struct Paddle {
    pub side: Side,
    pub width: i64,
    pub height: i64,
    pub position: Point,
}

#[derive(PartialEq, Eq, Structural, Clone, Copy, Debug)]
pub struct Ball {
    pub velocity_x: i64,
    pub velocity_y: i64,
    pub radius: i64,
    pub position: Point,
}

/// The whole simulation state, passed through the phases of each frame.
#[derive(PartialEq, Eq, Structural, Clone, Copy, Debug)]
pub struct Pong {
    pub arena: Arena,
    pub left: Paddle,
    pub right: Paddle,
    pub ball: Ball,
}

pub open spec fn abs(v: int) -> int {
    if v < 0 { -v } else { v }
}

/// `v` limited above by `hi`, then below by `lo`.
pub open spec fn clamp(v: int, lo: int, hi: int) -> int {
    if v > hi {
        if hi < lo { lo } else { hi }
    } else if v < lo {
        lo
    } else {
        v
    }
}

/// Lowest centre height a paddle of height `h` may take.
pub open spec fn paddle_low(h: int) -> int {
    h / 2
}

/// Highest centre height a paddle of height `h` may take in an arena of
/// height `arena_height`.
pub open spec fn paddle_high(arena_height: int, h: int) -> int {
    arena_height - h / 2
}

impl Arena {
    /// Positive dimensions within `LIMIT`, paddles that fit the arena, and a
    /// ball narrower than the gap between the walls.
    pub open spec fn wf(&self) -> bool {
        &&& 0 < self.width <= LIMIT
        &&& 0 < self.height <= LIMIT
        &&& 0 < self.paddle_width <= self.width
        &&& 0 < self.paddle_height <= self.height
        &&& 0 < self.ball_radius
        &&& 2 * self.ball_radius < self.height
        &&& 0 <= self.ball_speed_x <= LIMIT
        &&& 0 <= self.ball_speed_y <= LIMIT
        &&& 0 <= self.movement_scale <= LIMIT
    }

    /// The standard 100 x 100 arena.
    pub fn standard() -> (r: Arena)
        ensures
            r.wf(),
            r.width == ARENA_WIDTH,
            r.height == ARENA_HEIGHT,
            r.paddle_width == PADDLE_WIDTH,
            r.paddle_height == PADDLE_HEIGHT,
            r.ball_radius == BALL_RADIUS,
            r.ball_speed_x == BALL_VELOCITY_X,
            r.ball_speed_y == BALL_VELOCITY_Y,
            r.movement_scale == MOVEMENT_SCALE,
    {
        Arena {
            width: ARENA_WIDTH,
            height: ARENA_HEIGHT,
            paddle_width: PADDLE_WIDTH,
            paddle_height: PADDLE_HEIGHT,
            ball_radius: BALL_RADIUS,
            ball_speed_x: BALL_VELOCITY_X,
            ball_speed_y: BALL_VELOCITY_Y,
            movement_scale: MOVEMENT_SCALE,
        }
    }
}

impl Paddle {
    /// The x of a paddle's centre on `side`: against its wall.
    pub open spec fn home_x(side: Side, arena: Arena) -> int {
        match side {
            Side::Left => arena.paddle_width / 2,
            Side::Right => arena.width - arena.paddle_width / 2,
        }
    }

    /// A paddle on `side`, against its wall and vertically centred.
    pub fn new(side: Side, arena: &Arena) -> (r: Paddle)
        requires
            arena.wf(),
        ensures
            r.side == side,
            r.width == arena.paddle_width,
            r.height == arena.paddle_height,
            r.position.x == Paddle::home_x(side, *arena),
            r.position.y == arena.height / 2,
    {
        let x = match side {
            Side::Left => arena.paddle_width / 2,
            Side::Right => arena.width - arena.paddle_width / 2,
        };
        Paddle {
            side,
            width: arena.paddle_width,
            height: arena.paddle_height,
            position: Point { x, y: arena.height / 2 },
        }
    }

    /// The paddle keeps its side, size and column, and its centre lies within
    /// `[height/2, arena_height - height/2]`.
    pub open spec fn wf(&self, side: Side, arena: Arena) -> bool {
        &&& self.side == side
        &&& self.width == arena.paddle_width
        &&& self.height == arena.paddle_height
        &&& self.position.x == Paddle::home_x(side, arena)
        &&& paddle_low(self.height as int) <= self.position.y
        &&& self.position.y <= paddle_high(arena.height as int, self.height as int)
    }
}

impl Ball {
    /// Containment at the walls: the ball's centre is at most one vertical
    /// step past a wall, and where it touches a wall it is not moving into it.
    pub open spec fn contained(&self, arena: Arena) -> bool {
        let y = self.position.y as int;
        let r = self.radius as int;
        &&& -arena.ball_speed_y <= y <= arena.height + arena.ball_speed_y
        &&& y - r <= 0 ==> self.velocity_y >= 0
        &&& y + r >= arena.height ==> self.velocity_y <= 0
    }

    /// The ball keeps its radius and speed magnitudes, lies horizontally
    /// within the arena and is contained at the walls.
    pub open spec fn wf(&self, arena: Arena) -> bool {
        &&& self.radius == arena.ball_radius
        &&& abs(self.velocity_x as int) == arena.ball_speed_x
        &&& abs(self.velocity_y as int) == arena.ball_speed_y
        &&& 0 <= self.position.x <= arena.width
        &&& self.contained(arena)
    }
}

impl Pong {
    /// The state between frames.
    pub open spec fn wf(&self) -> bool {
        &&& self.arena.wf()
        &&& self.left.wf(Side::Left, self.arena)
        &&& self.right.wf(Side::Right, self.arena)
        &&& self.ball.wf(self.arena)
    }

    /// Every quantity small enough for one phase of a frame to compute
    /// without overflow.
    pub open spec fn in_range(&self) -> bool {
        &&& self.arena.wf()
        &&& 0 <= self.left.width <= LIMIT && 0 <= self.left.height <= LIMIT
        &&& 0 <= self.right.width <= LIMIT && 0 <= self.right.height <= LIMIT
        &&& -2 * LIMIT <= self.left.position.x <= 2 * LIMIT
        &&& -2 * LIMIT <= self.left.position.y <= 2 * LIMIT
        &&& -2 * LIMIT <= self.right.position.x <= 2 * LIMIT
        &&& -2 * LIMIT <= self.right.position.y <= 2 * LIMIT
        &&& 0 <= self.ball.radius <= LIMIT
        &&& -LIMIT <= self.ball.velocity_x <= LIMIT
        &&& -LIMIT <= self.ball.velocity_y <= LIMIT
        &&& -3 * LIMIT <= self.ball.position.x <= 3 * LIMIT
        &&& -3 * LIMIT <= self.ball.position.y <= 3 * LIMIT
    }

    /// The state a game starts in: paddles centred at their walls, the ball at
    /// the centre of the arena with the initial velocity.
    pub fn new(arena: Arena) -> (r: Pong)
        requires
            arena.wf(),
        ensures
            r.wf(),
            r.arena == arena,
            r.left.position.x == arena.paddle_width / 2,
            r.left.position.y == arena.height / 2,
            r.right.position.x == arena.width - arena.paddle_width / 2,
            r.right.position.y == arena.height / 2,
            r.ball.position.x == arena.width / 2,
            r.ball.position.y == arena.height / 2,
            r.ball.velocity_x == arena.ball_speed_x,
            r.ball.velocity_y == arena.ball_speed_y,
            r.ball.radius == arena.ball_radius,
    {
        let left = Paddle::new(Side::Left, &arena);
        let right = Paddle::new(Side::Right, &arena);
        let ball = Ball {
            velocity_x: arena.ball_speed_x,
            velocity_y: arena.ball_speed_y,
            radius: arena.ball_radius,
            position: Point { x: arena.width / 2, y: arena.height / 2 },
        };
        Pong { arena, left, right, ball }
    }
}

} // verus!
