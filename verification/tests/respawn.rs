use pong_rules::respawn::{BallSpawnTimer, RESPAWN_NANOS};

const SECOND: u64 = 1_000_000_000;

#[test]
fn the_wait_is_five_seconds() {
    assert_eq!(RESPAWN_NANOS, 5 * SECOND);
}

#[test]
fn a_new_clock_has_counted_nothing() {
    assert_eq!(BallSpawnTimer::new().elapsed_nanos(), 0);
}

#[test]
fn the_clock_stands_while_a_ball_is_in_play() {
    let mut clock = BallSpawnTimer::new();
    assert!(!clock.advance(true, 3 * SECOND));
    assert_eq!(clock.elapsed_nanos(), 0);
    assert!(!clock.advance(false, 2 * SECOND));
    assert!(!clock.advance(true, 60 * SECOND));
    assert!(!clock.advance(true, u64::MAX));
    assert_eq!(clock.elapsed_nanos(), 2 * SECOND);
}

#[test]
fn a_ball_is_served_when_the_wait_is_over() {
    let mut clock = BallSpawnTimer::new();
    assert!(!clock.advance(false, 2 * SECOND));
    assert_eq!(clock.elapsed_nanos(), 2 * SECOND);
    assert!(!clock.advance(false, 2 * SECOND));
    assert_eq!(clock.elapsed_nanos(), 4 * SECOND);
    assert!(!clock.advance(false, SECOND - 1));
    assert_eq!(clock.elapsed_nanos(), 5 * SECOND - 1);
    assert!(clock.advance(false, 1));
    assert_eq!(clock.elapsed_nanos(), 0);
}

#[test]
fn what_goes_beyond_the_wait_is_kept() {
    let mut clock = BallSpawnTimer::new();
    assert!(!clock.advance(false, 2 * SECOND));
    assert!(clock.advance(false, 3 * SECOND + 500));
    assert_eq!(clock.elapsed_nanos(), 500);
    assert!(clock.advance(false, 12 * SECOND));
    assert_eq!(clock.elapsed_nanos(), 2 * SECOND + 500);
}

#[test]
fn a_frame_of_no_length_changes_nothing() {
    let mut clock = BallSpawnTimer::new();
    assert!(!clock.advance(false, 0));
    assert_eq!(clock.elapsed_nanos(), 0);
    assert!(!clock.advance(false, 4 * SECOND));
    assert!(!clock.advance(false, 0));
    assert_eq!(clock.elapsed_nanos(), 4 * SECOND);
}

#[test]
fn the_longest_frame_is_counted_exactly() {
    let mut clock = BallSpawnTimer::new();
    assert!(!clock.advance(false, 4 * SECOND + 999_999_999));
    assert!(clock.advance(false, u64::MAX));
    let sum = (4 * SECOND + 999_999_999) as u128 + u64::MAX as u128;
    assert_eq!(clock.elapsed_nanos() as u128, sum % (RESPAWN_NANOS as u128));
}

#[test]
fn sixty_frames_a_second_serve_after_three_hundred_frames() {
    let frame = SECOND / 60;
    let mut clock = BallSpawnTimer::new();
    let mut frames = 0;
    while !clock.advance(false, frame) {
        frames += 1;
        assert!(clock.elapsed_nanos() < RESPAWN_NANOS);
    }
    assert_eq!(frames + 1, 301);
    assert_eq!(clock.elapsed_nanos(), 301 * frame - RESPAWN_NANOS);
}

#[test]
fn two_frames_count_as_one_of_their_joint_length() {
    for (first, second) in [(SECOND, 2 * SECOND), (3 * SECOND, 4 * SECOND), (7 * SECOND, 9 * SECOND)] {
        let mut split = BallSpawnTimer::new();
        let served_first = split.advance(false, first);
        let served_second = split.advance(false, second);
        let mut joint = BallSpawnTimer::new();
        let served = joint.advance(false, first + second);
        assert_eq!(split.elapsed_nanos(), joint.elapsed_nanos());
        assert_eq!(served_first || served_second, served);
    }
}
