//! Where the pieces stand and how large they are.
//!
//! Lengths are whole pixels. The origin is the middle of the court, `x` grows
//! to the right and `y` upwards.

use vstd::prelude::*;
use crate::bounce::Velocity;
use crate::item::GameItem;

verus! {

/// Distance of a paddle's centre from the middle of the court.
pub const PADDLE_OFFSET: i32 = 250;

/// Distance of a boundary's centre line from the middle of the court.
pub const BOUNDARY_OFFSET: i32 = 250;

/// Distance of a wall's centre line from the middle of the court.
pub const WALL_OFFSET: i32 = 400;

/// Radius of the ball.
pub const BALL_RADIUS: u32 = 20;

/// Speed at which a fresh ball leaves the middle of the court.
pub const SERVE_SPEED: i32 = 500;

/// A place on the court.
#[derive(Clone, Copy, Debug, PartialEq, Eq, Structural)]
pub struct Point {
    pub x: i32,
    pub y: i32,
}

/// The size of a rectangle.
#[derive(Clone, Copy, Debug, PartialEq, Eq, Structural)]
pub struct Extent {
    pub width: u32,
    pub height: u32,
}

/// The centre of `item` when the game starts. Boundaries and walls stay
/// there; a paddle keeps its `x` and moves along `y`.
pub open spec fn home(item: GameItem) -> Point {
    match item {
        GameItem::RightPaddle => Point { x: PADDLE_OFFSET, y: 0 },
        GameItem::LeftPaddle => Point { x: (-PADDLE_OFFSET) as i32, y: 0 },
        GameItem::UpperBoundary => Point { x: 0, y: BOUNDARY_OFFSET },
        GameItem::LowerBoundary => Point { x: 0, y: (-BOUNDARY_OFFSET) as i32 },
        GameItem::RightWall => Point { x: WALL_OFFSET, y: 0 },
        GameItem::LeftWall => Point { x: (-WALL_OFFSET) as i32, y: 0 },
    }
}

/// Width and height of `item`.
pub open spec fn size(item: GameItem) -> Extent {
    match item {
        GameItem::RightPaddle | GameItem::LeftPaddle => Extent { width: 20, height: 100 },
        GameItem::UpperBoundary | GameItem::LowerBoundary => Extent { width: 800, height: 10 },
        GameItem::RightWall | GameItem::LeftWall => Extent { width: 5, height: 500 },
    }
}

/// The velocity of a fresh ball: straight towards the right paddle.
pub open spec fn serve_velocity() -> Velocity {
    Velocity { x: SERVE_SPEED, y: 0 }
}

impl GameItem {
    /// The centre of this piece when the game starts.
    pub fn center(self) -> (at: Point)
        ensures
            at == home(self),
    {
        match self {
            GameItem::RightPaddle => Point { x: PADDLE_OFFSET, y: 0 },
            GameItem::LeftPaddle => Point { x: -PADDLE_OFFSET, y: 0 },
            GameItem::UpperBoundary => Point { x: 0, y: BOUNDARY_OFFSET },
            GameItem::LowerBoundary => Point { x: 0, y: -BOUNDARY_OFFSET },
            GameItem::RightWall => Point { x: WALL_OFFSET, y: 0 },
            GameItem::LeftWall => Point { x: -WALL_OFFSET, y: 0 },
        }
    }

    /// Width and height of this piece.
    pub fn extent(self) -> (of: Extent)
        ensures
            of == size(self),
    {
        match self {
            GameItem::RightPaddle | GameItem::LeftPaddle => Extent { width: 20, height: 100 },
            GameItem::UpperBoundary | GameItem::LowerBoundary => Extent {
                width: 800,
                height: 10,
            },
            GameItem::RightWall | GameItem::LeftWall => Extent { width: 5, height: 500 },
        }
    }
}

/// Where a fresh ball is put: the middle of the court.
pub fn ball_start() -> (at: Point)
    ensures
        at == (Point { x: 0, y: 0 }),
{
    Point { x: 0, y: 0 }
}

/// The velocity with which a fresh ball is served.
pub fn serve() -> (v: Velocity)
    ensures
        v == serve_velocity(),
{
    Velocity { x: SERVE_SPEED, y: 0 }
}

/// The piece that mirrors `item` on the other side of the court.
pub open spec fn opposite(item: GameItem) -> GameItem {
    match item {
        GameItem::RightPaddle => GameItem::LeftPaddle,
        GameItem::LeftPaddle => GameItem::RightPaddle,
        GameItem::UpperBoundary => GameItem::LowerBoundary,
        GameItem::LowerBoundary => GameItem::UpperBoundary,
        GameItem::RightWall => GameItem::LeftWall,
        GameItem::LeftWall => GameItem::RightWall,
    }
}

/// The court is symmetric about its middle: opposite pieces have the same
/// size and stand at mirrored places.
pub proof fn lemma_court_is_symmetric(item: GameItem)
    ensures
        size(opposite(item)) == size(item),
        home(opposite(item)).x == -home(item).x,
        home(opposite(item)).y == -home(item).y,
{
}

/// Each wall stands wholly behind the paddles, and the ball starts clear
/// of both paddles. Lengths are doubled to stay whole.
pub proof fn lemma_walls_stand_behind_paddles(wall: GameItem, paddle: GameItem)
    requires
        wall.wall(),
        paddle.paddle(),
    ensures
        2 * vstd::math::abs(home(paddle).x as int) + size(paddle).width < 2 * vstd::math::abs(
            home(wall).x as int,
        ) - size(wall).width,
        2 * BALL_RADIUS < 2 * vstd::math::abs(home(paddle).x as int) - size(paddle).width,
{
}

} // verus!
