use red_room::camera::follow_player;
use red_room::point::Point;

#[test]
fn player_within_dead_zone_keeps_camera_still() {
    let eye = Point::new(100, 200, 300);
    let player = Point::new(100, 200, 600);
    assert_eq!(follow_player(eye, player, 16_667), Some(eye));
}

#[test]
fn dead_zone_edge_is_inclusive() {
    let eye = Point::new(0, 0, 0);
    assert_eq!(follow_player(eye, Point::new(400, 0, 0), 500_000), Some(eye));
    assert_eq!(
        follow_player(eye, Point::new(401, 0, 0), 500_000),
        Some(Point::new(401, 0, 0))
    );
}

#[test]
fn one_frame_from_start_position() {
    let eye = Point::new(0, 15_000, 25_000);
    let player = Point::new(0, 1_500, 0);
    assert_eq!(
        follow_player(eye, player, 16_667),
        Some(Point::new(0, 14_549, 24_166))
    );
}

#[test]
fn camera_moves_by_speed_times_elapsed_time() {
    let eye = Point::new(0, 0, 0);
    let player = Point::new(10_000, -2_000, 0);
    assert_eq!(
        follow_player(eye, player, 100_000),
        Some(Point::new(2_000, -400, 0))
    );
}

#[test]
fn steps_round_away_from_zero() {
    let eye = Point::new(0, 0, 0);
    let player = Point::new(-3, 0, 1_000);
    assert_eq!(
        follow_player(eye, player, 250_000),
        Some(Point::new(-2, 0, 500))
    );
}

#[test]
fn zero_elapsed_time_keeps_camera_still() {
    let eye = Point::new(5, 6, 7);
    let player = Point::new(5_000, 6_000, 7_000);
    assert_eq!(follow_player(eye, player, 0), Some(eye));
}

#[test]
fn long_frame_overshoots_the_player() {
    let eye = Point::new(0, 0, 0);
    let player = Point::new(1_000, 0, 0);
    assert_eq!(
        follow_player(eye, player, 1_000_000),
        Some(Point::new(2_000, 0, 0))
    );
}

#[test]
fn half_second_frame_reaches_far_player_exactly() {
    let eye = Point::new(0, 0, 0);
    let player = Point::new(2_000_000_000, 0, -2_000_000_000);
    assert_eq!(follow_player(eye, player, 500_000), Some(player));
}

#[test]
fn position_out_of_range_is_none() {
    let eye = Point::new(0, 0, 0);
    let player = Point::new(2_000_000_000, 0, 0);
    assert_eq!(follow_player(eye, player, 1_000_000), None);
    let player_below = Point::new(0, -2_000_000_000, 0);
    assert_eq!(follow_player(eye, player_below, 1_000_000), None);
}

#[test]
fn distance_squared_of_offsets() {
    let a = Point::new(1, 2, 3);
    let b = Point::new(4, 6, 3);
    assert_eq!(a.distance_squared(&b), 25);
    let lo = Point::new(i32::MIN, i32::MIN, i32::MIN);
    let hi = Point::new(i32::MAX, i32::MAX, i32::MAX);
    let d: i128 = (i32::MAX as i128) - (i32::MIN as i128);
    assert_eq!(lo.distance_squared(&hi), 3 * d * d);
}

#[test]
fn short_frame_still_moves_camera() {
    let eye = Point::new(0, 0, 0);
    let player = Point::new(450, 0, 0);
    assert_eq!(follow_player(eye, player, 1_000), Some(Point::new(1, 0, 0)));
}

#[test]
fn following_reaches_the_dead_zone() {
    let player = Point::new(450, 0, 0);
    let mut eye = Point::new(0, 0, 0);
    let mut frames: u32 = 0;
    while eye.distance_squared(&player) > 400 * 400 {
        let next = follow_player(eye, player, 1_000).unwrap();
        assert!(next.distance_squared(&player) < eye.distance_squared(&player));
        eye = next;
        frames += 1;
        assert!(frames <= 1_000);
    }
    assert_eq!(frames, 50);
    assert_eq!(eye, Point::new(50, 0, 0));
    assert_eq!(follow_player(eye, player, 1_000), Some(eye));
}
