//! How a paddle travels.
//!
//! A paddle moves up and down along its own line, five pixels for each
//! frame in which its key is held, and stops 200 pixels from the middle of
//! the court.

use vstd::prelude::*;
use crate::court::{size, BOUNDARY_OFFSET};
use crate::item::GameItem;

verus! {

/// How far a paddle moves in one frame.
pub const PADDLE_STEP: i32 = 5;

/// How far from the middle of the court a paddle's centre may get.
pub const PADDLE_REACH: i32 = 200;

/// The height of a paddle's centre after one frame, given the height
/// before and which of its keys are held. The key for up is served first:
/// it raises the paddle by a step, but not beyond the reach. The key for
/// down then lowers it by a step, but not beyond the reach below.
pub open spec fn steered(y: int, up: bool, down: bool) -> int {
    let raised = if up {
        vstd::math::min(y + PADDLE_STEP, PADDLE_REACH as int)
    } else {
        y
    };
    if down {
        vstd::math::max(raised - PADDLE_STEP, -PADDLE_REACH)
    } else {
        raised
    }
}

/// Moves a paddle for one frame: `y` is the height of its centre, `up` and
/// `down` tell which of its keys are held. Returns the new height.
pub fn steer(y: i32, up: bool, down: bool) -> (moved: i32)
    ensures
        moved == steered(y as int, up, down),
{
    let mut at: i32 = y;
    if up {
        at = if at < PADDLE_REACH - PADDLE_STEP {
            at + PADDLE_STEP
        } else {
            PADDLE_REACH
        };
    }
    if down {
        at = if at > PADDLE_STEP - PADDLE_REACH {
            at - PADDLE_STEP
        } else {
            -PADDLE_REACH
        };
    }
    at
}

/// A paddle within reach stays within reach, whatever keys are held, and
/// so never pokes beyond the centre line of a boundary.
pub proof fn lemma_paddle_stays_in_reach(y: int, up: bool, down: bool)
    requires
        -PADDLE_REACH <= y <= PADDLE_REACH,
    ensures
        -PADDLE_REACH <= steered(y, up, down) <= PADDLE_REACH,
        2 * steered(y, up, down) + size(GameItem::RightPaddle).height <= 2 * BOUNDARY_OFFSET,
        2 * steered(y, up, down) - size(GameItem::RightPaddle).height >= -2 * BOUNDARY_OFFSET,
{
}

/// A paddle that stands a whole number of steps from the middle of the
/// court keeps doing so: it starts in the middle, so its height is always a
/// whole number of pixels.
pub proof fn lemma_paddle_stays_on_the_grid(y: int, up: bool, down: bool)
    requires
        y % (PADDLE_STEP as int) == 0,
    ensures
        steered(y, up, down) % (PADDLE_STEP as int) == 0,
{
}

/// One frame moves a paddle by at most one step. With no key held it
/// rests; with both held, a paddle that has room above ends where it was.
pub proof fn lemma_paddle_moves_by_steps(y: int, up: bool, down: bool)
    requires
        -PADDLE_REACH <= y <= PADDLE_REACH,
    ensures
        y - PADDLE_STEP <= steered(y, up, down) <= y + PADDLE_STEP,
        steered(y, false, false) == y,
        up && !down ==> steered(y, up, down) >= y,
        down && !up ==> steered(y, up, down) <= y,
        y + PADDLE_STEP <= PADDLE_REACH ==> steered(y, true, true) == y,
{
}

} // verus!
