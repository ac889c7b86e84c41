//! The fixed pieces of the court and the two players.

use vstd::prelude::*;

verus! {

/// One of the two players.
#[derive(Clone, Copy, Debug, PartialEq, Eq, Structural)]
pub enum Player {
    One,
    Two,
}

/// A fixed piece of the court that the ball can touch.
#[derive(Clone, Copy, Debug, PartialEq, Eq, Structural)]
pub enum GameItem {
    RightPaddle,
    LeftPaddle,
    UpperBoundary,
    LowerBoundary,
    LeftWall,
    RightWall,
}

impl GameItem {
    /// A paddle is the piece a player moves.
    pub open spec fn paddle(self) -> bool {
        self is RightPaddle || self is LeftPaddle
    }

    /// A boundary closes the court above or below.
    pub open spec fn boundary(self) -> bool {
        self is UpperBoundary || self is LowerBoundary
    }

    /// A wall stands behind a paddle. It does not stop the ball: a ball that
    /// reaches it is out of play.
    pub open spec fn wall(self) -> bool {
        self is LeftWall || self is RightWall
    }

    /// The player who moves this piece, if it is a paddle: player one has the
    /// paddle on the right, player two the one on the left.
    pub open spec fn owner(self) -> Option<Player> {
        match self {
            GameItem::RightPaddle => Some(Player::One),
            GameItem::LeftPaddle => Some(Player::Two),
            _ => None,
        }
    }

    /// Whether this piece is one of the two paddles.
    pub fn is_paddle(self) -> (b: bool)
        ensures
            b == self.paddle(),
    {
        match self {
            GameItem::RightPaddle | GameItem::LeftPaddle => true,
            _ => false,
        }
    }

    /// Whether this piece is the upper or the lower boundary.
    pub fn is_boundary(self) -> (b: bool)
        ensures
            b == self.boundary(),
    {
        match self {
            GameItem::UpperBoundary | GameItem::LowerBoundary => true,
            _ => false,
        }
    }

    /// Whether this piece is one of the two walls.
    pub fn is_wall(self) -> (b: bool)
        ensures
            b == self.wall(),
    {
        match self {
            GameItem::LeftWall | GameItem::RightWall => true,
            _ => false,
        }
    }

    /// The player who moves this piece, or `None` if it is no paddle.
    pub fn moved_by(self) -> (p: Option<Player>)
        ensures
            p == self.owner(),
    {
        match self {
            GameItem::RightPaddle => Some(Player::One),
            GameItem::LeftPaddle => Some(Player::Two),
            _ => None,
        }
    }
}

/// All the pieces of the court, each once: the paddles first, then the
/// boundaries, then the walls.
pub fn pieces() -> (all: [GameItem; 6])
    ensures
        all@.no_duplicates(),
        forall|item: GameItem| all@.contains(item),
{
    let all = [
        GameItem::RightPaddle,
        GameItem::LeftPaddle,
        GameItem::LowerBoundary,
        GameItem::UpperBoundary,
        GameItem::RightWall,
        GameItem::LeftWall,
    ];
    assert forall|item: GameItem| all@.contains(item) by {
        let at: int = match item {
            GameItem::RightPaddle => 0,
            GameItem::LeftPaddle => 1,
            GameItem::LowerBoundary => 2,
            GameItem::UpperBoundary => 3,
            GameItem::RightWall => 4,
            GameItem::LeftWall => 5,
        };
        assert(all@[at] == item);
    }
    all
}

/// Every piece is of exactly one sort: paddle, boundary or wall.
pub proof fn lemma_one_sort(item: GameItem)
    ensures
        item.paddle() || item.boundary() || item.wall(),
        !(item.paddle() && item.boundary()),
        !(item.paddle() && item.wall()),
        !(item.boundary() && item.wall()),
        item.owner() is Some <==> item.paddle(),
{
}

} // verus!
