//! How the ball leaves a paddle or a boundary.
//!
//! A bounce replaces the ball's velocity outright. The horizontal part is
//! fixed by the piece that was hit; the vertical part is drawn at random from
//! a table of speeds, so that two rallies seldom look alike.

use vstd::prelude::*;
use vstd::slice::slice_subrange;
use rand::rngs::ThreadRng;
use rand::seq::IndexedRandom;
use crate::item::GameItem;

verus! {

/// Horizontal speed of the ball after any bounce, in pixels per second.
pub const RALLY_SPEED: i32 = 200;

/// The vertical speeds a bounce can give the ball, lowest first.
/// Negative speeds point down, positive ones up.
pub const SPEEDS: [i32; 8] = [-200, -150, -100, -50, 50, 100, 150, 200];

/// A velocity in whole pixels per second; `x` grows to the right, `y` upwards.
#[derive(Clone, Copy, Debug, PartialEq, Eq, Structural)]
pub struct Velocity {
    pub x: i32,
    pub y: i32,
}

/// The vertical speeds among which a bounce off `item` draws: a paddle may
/// send the ball anywhere, the upper boundary only down, the lower boundary
/// only up. A wall gives no bounce at all.
pub open spec fn speeds_for(item: GameItem) -> Seq<i32> {
    match item {
        GameItem::RightPaddle | GameItem::LeftPaddle => SPEEDS@,
        GameItem::UpperBoundary => SPEEDS@.subrange(0, 4),
        GameItem::LowerBoundary => SPEEDS@.subrange(4, 8),
        GameItem::LeftWall | GameItem::RightWall => Seq::empty(),
    }
}

/// The horizontal speed after a bounce off `item`. A paddle sends the ball
/// back towards the other side; a boundary keeps the ball's direction, where
/// `rightward` says that the ball was not moving to the left.
pub open spec fn horizontal_after(item: GameItem, rightward: bool) -> int {
    match item {
        GameItem::RightPaddle => -RALLY_SPEED,
        GameItem::LeftPaddle => RALLY_SPEED as int,
        _ => if rightward { RALLY_SPEED as int } else { -RALLY_SPEED },
    }
}

/// The velocity of a ball that has hit `item`, once `drawn` has been picked
/// as its vertical speed. `None` means that the ball keeps the velocity it
/// has, which is the case at a wall.
pub open spec fn deflection(item: GameItem, rightward: bool, drawn: i32) -> Option<Velocity> {
    if item.wall() {
        None
    } else {
        Some(Velocity { x: horizontal_after(item, rightward) as i32, y: drawn })
    }
}

/// `rand::rngs::ThreadRng`, the handle to a thread's random number
/// generator. Nothing inside it is looked at.
#[verifier::external_type_specification]
#[verifier::external_body]
pub struct ExThreadRng(ThreadRng);

/// `rand::rng`: a handle to the calling thread's random number generator.
/// Nothing is claimed of the handle. The call panics only where the
/// operating system cannot seed the generator.
#[verifier::external_body]
fn thread_rng() -> ThreadRng {
    rand::rng()
}

/// `IndexedRandom::choose` on a slice: one element of `pool`, picked at
/// random, or `None` if `pool` is empty. Which element comes back is left
/// open; that it is one of the pool's is all that is claimed. The call
/// panics only where the operating system refuses the generator new seed.
#[verifier::external_body]
fn choose_speed(pool: &[i32], rng: &mut ThreadRng) -> (picked: Option<i32>)
    ensures
        picked is Some <==> pool@.len() > 0,
        picked matches Some(speed) ==> pool@.contains(speed),
{
    pool.choose(rng).copied()
}

/// Gives the ball that has hit `item` its new velocity, with `drawn` as the
/// vertical speed. `rightward` tells whether the ball's horizontal velocity
/// was zero or positive at the moment of the hit.
pub fn deflect(item: GameItem, rightward: bool, drawn: i32) -> (after: Option<Velocity>)
    ensures
        after == deflection(item, rightward, drawn),
{
    match item {
        GameItem::RightPaddle => Some(Velocity { x: -RALLY_SPEED, y: drawn }),
        GameItem::LeftPaddle => Some(Velocity { x: RALLY_SPEED, y: drawn }),
        GameItem::UpperBoundary | GameItem::LowerBoundary => {
            let x: i32 = if rightward { RALLY_SPEED } else { -RALLY_SPEED };
            Some(Velocity { x, y: drawn })
        },
        GameItem::LeftWall | GameItem::RightWall => None,
    }
}

/// Bounces the ball off `item`: draws a vertical speed among those that
/// `item` allows and returns the ball's new velocity. At a wall nothing is
/// drawn and the result is `None`: the ball keeps its velocity.
pub fn bounce(item: GameItem, rightward: bool) -> (after: Option<Velocity>)
    ensures
        after is Some <==> !item.wall(),
        after matches Some(v) ==> v.x == horizontal_after(item, rightward) && speeds_for(
            item,
        ).contains(v.y),
{
    let table = SPEEDS;
    let every = table.as_slice();
    let pool = match item {
        GameItem::RightPaddle | GameItem::LeftPaddle => every,
        GameItem::UpperBoundary => slice_subrange(every, 0, 4),
        GameItem::LowerBoundary => slice_subrange(every, 4, 8),
        GameItem::LeftWall | GameItem::RightWall => {
            return None;
        },
    };
    assert(pool@ == speeds_for(item));
    let mut rng = thread_rng();
    match choose_speed(pool, &mut rng) {
        Some(speed) => deflect(item, rightward, speed),
        None => None,
    }
}

/// Every speed that a bounce can draw is a multiple of fifty between -200
/// and 200 and is never zero, so a ball that has bounced never travels
/// level. Off the upper boundary it falls, off the lower one it rises.
pub proof fn lemma_drawn_speeds(item: GameItem, speed: i32)
    requires
        speeds_for(item).contains(speed),
    ensures
        !item.wall(),
        -200 <= speed <= 200,
        speed != 0,
        speed % 50 == 0,
        item is UpperBoundary ==> speed < 0,
        item is LowerBoundary ==> speed > 0,
{
    let pool = speeds_for(item);
    let i = choose|i: int| 0 <= i < pool.len() && pool[i] == speed;
    assert(0 <= i < pool.len() && pool[i] == speed);
}

/// After any bounce the ball crosses the court at exactly `RALLY_SPEED`,
/// and a paddle always sends it back towards the other paddle.
pub proof fn lemma_bounce_heads_back(item: GameItem, rightward: bool, drawn: i32)
    requires
        !item.wall(),
    ensures
        deflection(item, rightward, drawn) matches Some(v) && (v.x == RALLY_SPEED || v.x
            == -RALLY_SPEED) && v.y == drawn,
        item is RightPaddle ==> deflection(item, rightward, drawn)->0.x < 0,
        item is LeftPaddle ==> deflection(item, rightward, drawn)->0.x > 0,
        (item is UpperBoundary || item is LowerBoundary) ==> (deflection(
            item,
            rightward,
            drawn,
        )->0.x > 0 <==> rightward),
{
}

} // verus!
