use pong_rules::bounce::{bounce, deflect, Velocity, RALLY_SPEED, SPEEDS};
use pong_rules::item::GameItem;

#[test]
fn speed_table_is_the_eight_multiples_of_fifty() {
    assert_eq!(SPEEDS, [-200, -150, -100, -50, 50, 100, 150, 200]);
    assert_eq!(RALLY_SPEED, 200);
}

#[test]
fn right_paddle_sends_the_ball_left() {
    assert_eq!(
        deflect(GameItem::RightPaddle, true, 150),
        Some(Velocity { x: -200, y: 150 })
    );
    assert_eq!(
        deflect(GameItem::RightPaddle, false, -50),
        Some(Velocity { x: -200, y: -50 })
    );
}

#[test]
fn left_paddle_sends_the_ball_right() {
    assert_eq!(
        deflect(GameItem::LeftPaddle, false, -200),
        Some(Velocity { x: 200, y: -200 })
    );
    assert_eq!(
        deflect(GameItem::LeftPaddle, true, 100),
        Some(Velocity { x: 200, y: 100 })
    );
}

#[test]
fn boundary_keeps_the_direction_of_travel() {
    assert_eq!(
        deflect(GameItem::UpperBoundary, true, -100),
        Some(Velocity { x: 200, y: -100 })
    );
    assert_eq!(
        deflect(GameItem::UpperBoundary, false, -100),
        Some(Velocity { x: -200, y: -100 })
    );
    assert_eq!(
        deflect(GameItem::LowerBoundary, true, 50),
        Some(Velocity { x: 200, y: 50 })
    );
    assert_eq!(
        deflect(GameItem::LowerBoundary, false, 200),
        Some(Velocity { x: -200, y: 200 })
    );
}

#[test]
fn wall_leaves_the_velocity_alone() {
    assert_eq!(deflect(GameItem::LeftWall, true, 50), None);
    assert_eq!(deflect(GameItem::RightWall, false, -150), None);
    assert_eq!(bounce(GameItem::LeftWall, true), None);
    assert_eq!(bounce(GameItem::RightWall, false), None);
}

#[test]
fn deflect_takes_the_drawn_speed_as_given() {
    assert_eq!(
        deflect(GameItem::LeftPaddle, true, 7),
        Some(Velocity { x: 200, y: 7 })
    );
    assert_eq!(
        deflect(GameItem::LowerBoundary, false, i32::MIN),
        Some(Velocity { x: -200, y: i32::MIN })
    );
}

#[test]
fn paddle_bounce_draws_from_the_whole_table() {
    for _ in 0..500 {
        let right = bounce(GameItem::RightPaddle, true).unwrap();
        assert_eq!(right.x, -200);
        assert!(SPEEDS.contains(&right.y));
        let left = bounce(GameItem::LeftPaddle, true).unwrap();
        assert_eq!(left.x, 200);
        assert!(SPEEDS.contains(&left.y));
    }
}

#[test]
fn upper_boundary_bounce_goes_down() {
    for _ in 0..500 {
        let v = bounce(GameItem::UpperBoundary, true).unwrap();
        assert_eq!(v.x, 200);
        assert!(SPEEDS[..4].contains(&v.y));
        assert!(v.y < 0);
        let w = bounce(GameItem::UpperBoundary, false).unwrap();
        assert_eq!(w.x, -200);
        assert!(w.y < 0);
    }
}

#[test]
fn lower_boundary_bounce_goes_up() {
    for _ in 0..500 {
        let v = bounce(GameItem::LowerBoundary, false).unwrap();
        assert_eq!(v.x, -200);
        assert!(SPEEDS[4..].contains(&v.y));
        assert!(v.y > 0);
        let w = bounce(GameItem::LowerBoundary, true).unwrap();
        assert_eq!(w.x, 200);
        assert!(w.y > 0);
    }
}

#[test]
fn bounces_do_not_all_draw_the_same_speed() {
    let first = bounce(GameItem::RightPaddle, true).unwrap().y;
    let mut other = false;
    for _ in 0..2000 {
        if bounce(GameItem::RightPaddle, true).unwrap().y != first {
            other = true;
        }
    }
    assert!(other);
}
