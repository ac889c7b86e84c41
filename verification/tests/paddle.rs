use pong_rules::paddle::{steer, PADDLE_REACH, PADDLE_STEP};

#[test]
fn paddle_constants() {
    assert_eq!(PADDLE_STEP, 5);
    assert_eq!(PADDLE_REACH, 200);
}

#[test]
fn idle_paddle_rests() {
    for y in [-200, -5, 0, 35, 200] {
        assert_eq!(steer(y, false, false), y);
    }
}

#[test]
fn up_raises_by_one_step() {
    assert_eq!(steer(0, true, false), 5);
    assert_eq!(steer(-200, true, false), -195);
    assert_eq!(steer(190, true, false), 195);
}

#[test]
fn down_lowers_by_one_step() {
    assert_eq!(steer(0, false, true), -5);
    assert_eq!(steer(200, false, true), 195);
    assert_eq!(steer(-190, false, true), -195);
}

#[test]
fn paddle_stops_at_its_reach() {
    assert_eq!(steer(195, true, false), 200);
    assert_eq!(steer(198, true, false), 200);
    assert_eq!(steer(200, true, false), 200);
    assert_eq!(steer(-195, false, true), -200);
    assert_eq!(steer(-198, false, true), -200);
    assert_eq!(steer(-200, false, true), -200);
}

#[test]
fn both_keys_serve_up_before_down() {
    assert_eq!(steer(0, true, true), 0);
    assert_eq!(steer(195, true, true), 195);
    assert_eq!(steer(198, true, true), 195);
    assert_eq!(steer(200, true, true), 195);
    assert_eq!(steer(-200, true, true), -200);
}

#[test]
fn a_paddle_beyond_its_reach_is_brought_back() {
    assert_eq!(steer(300, true, false), 200);
    assert_eq!(steer(300, false, true), 295);
    assert_eq!(steer(-300, false, true), -200);
    assert_eq!(steer(-300, true, false), -295);
    assert_eq!(steer(i32::MAX, true, false), 200);
    assert_eq!(steer(i32::MIN, false, true), -200);
    assert_eq!(steer(i32::MAX, true, true), 195);
}

#[test]
fn a_paddle_in_reach_stays_in_reach() {
    for y in -200..=200 {
        for (up, down) in [(false, false), (true, false), (false, true), (true, true)] {
            let moved = steer(y, up, down);
            assert!((-200..=200).contains(&moved));
            assert!((moved - y).abs() <= 5);
        }
    }
}

#[test]
fn holding_up_walks_to_the_top_in_forty_frames() {
    let mut y = 0;
    for _ in 0..40 {
        y = steer(y, true, false);
    }
    assert_eq!(y, 200);
    assert_eq!(steer(y, true, false), 200);
}
