//! When a lost ball is replaced.
//!
//! While no ball is in play a clock runs, and each time it completes five
//! seconds a fresh ball is served. While a ball is in play the clock stands
//! still; what it had counted is kept for the next wait.

use vstd::prelude::*;
use bevy::time::{Timer, TimerMode};
use std::time::Duration;

verus! {

/// How long the court stays empty before a fresh ball is served, in
/// nanoseconds.
pub const RESPAWN_NANOS: u64 = 5_000_000_000;

/// Whether a frame of `delta` nanoseconds completes the wait when `elapsed`
/// nanoseconds were counted before it.
pub open spec fn due(elapsed: int, delta: int) -> bool {
    elapsed + delta >= RESPAWN_NANOS
}

/// What is counted after a frame of `delta` nanoseconds when `elapsed`
/// nanoseconds were counted before it: the sum, less every wait that the
/// sum completes.
pub open spec fn counted(elapsed: int, delta: int) -> int {
    (elapsed + delta) % (RESPAWN_NANOS as int)
}

/// The clock that times the wait for a fresh ball.
#[derive(Clone, Copy, Debug)]
pub struct BallSpawnTimer {
    elapsed_nanos: u64,
}

/// One tick of a repeating `bevy::time::Timer` with the given period that
/// has `elapsed_nanos` on it: the timer is built by `Timer::new`, set by
/// `Timer::set_elapsed` and advanced by `Timer::tick`. The first result is
/// `Timer::is_finished` after the tick, the second `Timer::elapsed`.
/// The tick adds `delta_nanos` to the elapsed time. The timer is finished
/// if the sum has reached the period, and then keeps of the sum only what
/// is left over after whole periods.
#[verifier::external_body]
fn tick_repeating(period_nanos: u64, elapsed_nanos: u64, delta_nanos: u64) -> (after: (bool, u64))
    requires
        period_nanos > 0,
    ensures
        after.0 == (elapsed_nanos + delta_nanos >= period_nanos),
        after.1 == if after.0 {
            (elapsed_nanos + delta_nanos) % (period_nanos as int)
        } else {
            elapsed_nanos + delta_nanos
        },
{
    let mut timer = Timer::new(Duration::from_nanos(period_nanos), TimerMode::Repeating);
    timer.set_elapsed(Duration::from_nanos(elapsed_nanos));
    timer.tick(Duration::from_nanos(delta_nanos));
    (timer.is_finished(), timer.elapsed().as_nanos() as u64)
}

impl BallSpawnTimer {
    #[verifier::type_invariant]
    spec fn within_period(self) -> bool {
        self.elapsed_nanos < RESPAWN_NANOS
    }

    /// The time counted towards the next serve, in nanoseconds.
    pub closed spec fn elapsed(self) -> nat {
        self.elapsed_nanos as nat
    }

    /// A clock that has counted nothing yet.
    pub fn new() -> (clock: BallSpawnTimer)
        ensures
            clock.elapsed() == 0,
    {
        BallSpawnTimer { elapsed_nanos: 0 }
    }

    /// The time counted towards the next serve, in nanoseconds. It is
    /// always less than `RESPAWN_NANOS`.
    pub fn elapsed_nanos(&self) -> (nanos: u64)
        ensures
            nanos == self.elapsed(),
            nanos < RESPAWN_NANOS,
    {
        proof {
            use_type_invariant(self);
        }
        self.elapsed_nanos
    }

    /// Lets one frame of `delta_nanos` nanoseconds pass and tells whether a
    /// fresh ball is to be served now. With a ball in play nothing happens.
    /// Otherwise the frame is added to the time counted; a ball is served
    /// if that completes the wait, and what goes beyond whole waits is kept.
    pub fn advance(&mut self, ball_in_play: bool, delta_nanos: u64) -> (serve: bool)
        ensures
            ball_in_play ==> !serve && final(self).elapsed() == old(self).elapsed(),
            !ball_in_play ==> serve == due(old(self).elapsed() as int, delta_nanos as int),
            !ball_in_play ==> final(self).elapsed() == counted(
                old(self).elapsed() as int,
                delta_nanos as int,
            ),
    {
        proof {
            use_type_invariant(&*self);
        }
        if ball_in_play {
            false
        } else {
            let (finished, left) = tick_repeating(RESPAWN_NANOS, self.elapsed_nanos, delta_nanos);
            self.elapsed_nanos = left;
            finished
        }
    }
}

/// What the clock has counted is always short of a full wait, and a frame
/// that does not complete the wait is counted in full.
pub proof fn lemma_clock_is_short_of_a_wait(elapsed: int, delta: int)
    requires
        0 <= elapsed,
        0 <= delta,
    ensures
        0 <= counted(elapsed, delta) < RESPAWN_NANOS,
        !due(elapsed, delta) ==> counted(elapsed, delta) == elapsed + delta,
{
}

/// The clock goes by the time waited, not by how the frames fall: two
/// frames in a row count as one frame of their joint length, and a ball is
/// served in one of the two exactly if the joint frame completes the wait.
pub proof fn lemma_frames_add_up(elapsed: int, first: int, second: int)
    requires
        0 <= elapsed < RESPAWN_NANOS,
        0 <= first,
        0 <= second,
    ensures
        counted(counted(elapsed, first), second) == counted(elapsed, first + second),
        due(elapsed, first) || due(counted(elapsed, first), second) <==> due(
            elapsed,
            first + second,
        ),
{
}

} // verus!
