use infinite_runner::constants::{
    OBSTACLE_SPEED_INCREASE_RATE, OBSTACLE_VELOCITY, PLAYER_SIZE,
};
use infinite_runner::{Obstacle, Player, Vector2};

#[test]
fn new_player_is_at_the_origin_at_rest_and_airborne() {
    let player = Player::new();
    assert_eq!(player.get_location(), Vector2 { x: 0, y: 0 });
    assert_eq!(player.get_velocity(), Vector2 { x: 0, y: 0 });
    assert_eq!(player.get_acceleration(), Vector2 { x: 0, y: 0 });
    assert_eq!(player.get_size(), (128_000, 128_000));
    assert_eq!(PLAYER_SIZE, 128_000);
    assert!(player.is_jumping());
}

#[test]
fn player_set_location_moves_only_the_location() {
    let mut player = Player::new();
    player.apply_force(&Vector2 { x: 1, y: 2 });
    player.set_location(50_000, 60_000);
    assert_eq!(player.get_location(), Vector2 { x: 50_000, y: 60_000 });
    assert_eq!(player.get_acceleration(), Vector2 { x: 1, y: 2 });
    assert_eq!(player.get_velocity(), Vector2 { x: 0, y: 0 });
    assert!(player.is_jumping());
}

#[test]
fn apply_force_accumulates_in_the_acceleration() {
    let mut player = Player::new();
    player.apply_force(&Vector2 { x: 0, y: 500 });
    player.apply_force(&Vector2 { x: 3, y: -14_000 });
    assert_eq!(player.get_acceleration(), Vector2 { x: 3, y: -13_500 });
    assert_eq!(player.get_velocity(), Vector2 { x: 0, y: 0 });
    assert_eq!(player.get_location(), Vector2 { x: 0, y: 0 });
}

#[test]
fn run_updates_velocity_before_location_and_spends_the_acceleration() {
    let mut player = Player::new();
    player.set_location(10, 20);
    player.apply_force(&Vector2 { x: 2, y: 500 });
    player.run();
    assert_eq!(player.get_velocity(), Vector2 { x: 2, y: 500 });
    assert_eq!(player.get_location(), Vector2 { x: 12, y: 520 });
    assert_eq!(player.get_acceleration(), Vector2 { x: 0, y: 0 });
    player.run();
    assert_eq!(player.get_velocity(), Vector2 { x: 2, y: 500 });
    assert_eq!(player.get_location(), Vector2 { x: 14, y: 1_020 });
}

#[test]
fn hit_ground_clamps_a_player_below_the_floor() {
    let mut player = Player::new();
    player.set_location(50_000, 872_001);
    player.apply_force(&Vector2 { x: 7, y: 900 });
    player.run();
    player.hit_ground(1_000_000);
    assert_eq!(player.get_location(), Vector2 { x: 50_007, y: 872_000 });
    assert_eq!(player.get_velocity(), Vector2 { x: 7, y: 0 });
    assert!(!player.is_jumping());
}

#[test]
fn hit_ground_leaves_a_player_at_or_above_the_floor_alone() {
    let mut player = Player::new();
    player.set_location(50_000, 872_000);
    player.hit_ground(1_000_000);
    assert_eq!(player.get_location(), Vector2 { x: 50_000, y: 872_000 });
    assert!(player.is_jumping());
    player.set_location(50_000, 100);
    player.hit_ground(1_000_000);
    assert_eq!(player.get_location(), Vector2 { x: 50_000, y: 100 });
    assert!(player.is_jumping());
}

#[test]
fn hit_ground_twice_is_hit_ground_once() {
    let mut player = Player::new();
    player.set_location(0, 999_999);
    player.hit_ground(1_000_000);
    let once = (player.get_location(), player.get_velocity(), player.is_jumping());
    player.hit_ground(1_000_000);
    let twice = (player.get_location(), player.get_velocity(), player.is_jumping());
    assert_eq!(once, twice);
    assert_eq!(once.0, Vector2 { x: 0, y: 872_000 });
}

#[test]
fn hit_ground_saturates_when_the_floor_is_out_of_reach() {
    let mut player = Player::new();
    player.set_location(0, 0);
    player.hit_ground(i64::MIN);
    assert_eq!(player.get_location(), Vector2 { x: 0, y: i64::MIN });
    assert!(!player.is_jumping());
}

#[test]
fn jump_from_the_ground_applies_the_impulse_once() {
    let mut player = Player::new();
    player.set_location(50_000, 900_000);
    player.hit_ground(1_000_000);
    assert!(!player.is_jumping());
    player.jump(&Vector2 { x: 0, y: -14_000 });
    assert!(player.is_jumping());
    assert_eq!(player.get_acceleration(), Vector2 { x: 0, y: -14_000 });
    assert_eq!(player.get_velocity(), Vector2 { x: 0, y: 0 });
    player.jump(&Vector2 { x: 0, y: -14_000 });
    player.jump(&Vector2 { x: 5, y: -1 });
    assert_eq!(player.get_acceleration(), Vector2 { x: 0, y: -14_000 });
}

#[test]
fn jump_in_the_air_is_ignored() {
    let mut player = Player::new();
    assert!(player.is_jumping());
    player.jump(&Vector2 { x: 0, y: -14_000 });
    assert_eq!(player.get_acceleration(), Vector2 { x: 0, y: 0 });
    assert!(player.is_jumping());
}

#[test]
fn player_bounds_are_its_location_and_size() {
    let mut player = Player::new();
    player.set_location(50_000, 872_000);
    let b = player.bounds();
    assert_eq!((b.x, b.y, b.width, b.height), (50_000, 872_000, 128_000, 128_000));
}

#[test]
fn new_obstacle_spawns_offset_to_the_right() {
    let obstacle = Obstacle::new(1_850_000, 950_000, 50_000, 1_000_000);
    assert_eq!(obstacle.get_location(), Vector2 { x: 2_850_000, y: 950_000 });
    assert_eq!(obstacle.get_initial_location(), Vector2 { x: 2_850_000, y: 950_000 });
    assert_eq!(obstacle.get_size(), (50_000, 50_000));
    assert_eq!(obstacle.get_velocity(), Vector2 { x: -8_000, y: 0 });
    assert_eq!(OBSTACLE_VELOCITY, -8_000);
    assert_eq!(obstacle.get_speed_increase_rate(), -100);
    assert_eq!(OBSTACLE_SPEED_INCREASE_RATE, -100);
}

#[test]
fn new_obstacle_saturates_its_spawn_point() {
    let obstacle = Obstacle::new(i64::MAX, 0, 1, 1);
    assert_eq!(obstacle.get_initial_location(), Vector2 { x: i64::MAX, y: 0 });
}

#[test]
fn obstacle_run_moves_by_the_velocity() {
    let mut obstacle = Obstacle::new(1_850_000, 950_000, 50_000, 0);
    obstacle.run();
    assert_eq!(obstacle.get_location(), Vector2 { x: 1_842_000, y: 950_000 });
    obstacle.run();
    assert_eq!(obstacle.get_location(), Vector2 { x: 1_834_000, y: 950_000 });
    assert_eq!(obstacle.get_velocity(), Vector2 { x: -8_000, y: 0 });
    assert_eq!(obstacle.get_initial_location(), Vector2 { x: 1_850_000, y: 950_000 });
}

#[test]
fn obstacle_is_off_screen_only_when_wholly_left_of_the_edge() {
    let mut obstacle = Obstacle::new(1_850_000, 950_000, 50_000, 0);
    assert!(!obstacle.is_off_screen());
    obstacle.set_location(0, 950_000);
    assert!(!obstacle.is_off_screen());
    obstacle.set_location(-50_000, 950_000);
    assert!(!obstacle.is_off_screen());
    obstacle.set_location(-50_001, 950_000);
    assert!(obstacle.is_off_screen());
    obstacle.set_location(i64::MIN, 950_000);
    assert!(obstacle.is_off_screen());
    obstacle.set_location(i64::MAX, 950_000);
    assert!(!obstacle.is_off_screen());
}

#[test]
fn obstacle_reset_location_keeps_the_velocity() {
    let mut obstacle = Obstacle::new(1_850_000, 950_000, 50_000, 500_000);
    obstacle.increase_speed();
    obstacle.run();
    obstacle.run();
    assert_eq!(obstacle.get_location(), Vector2 { x: 2_333_800, y: 950_000 });
    obstacle.reset_location();
    assert_eq!(obstacle.get_location(), Vector2 { x: 2_350_000, y: 950_000 });
    assert_eq!(obstacle.get_velocity(), Vector2 { x: -8_100, y: 0 });
}

#[test]
fn obstacle_increase_speed_adds_the_rate() {
    let mut obstacle = Obstacle::new(0, 0, 50_000, 0);
    obstacle.increase_speed();
    assert_eq!(obstacle.get_velocity(), Vector2 { x: -8_100, y: 0 });
    obstacle.increase_speed();
    assert_eq!(obstacle.get_velocity(), Vector2 { x: -8_200, y: 0 });
    obstacle.set_speed_increase_rate(-1_000);
    obstacle.increase_speed();
    assert_eq!(obstacle.get_velocity(), Vector2 { x: -9_200, y: 0 });
    obstacle.set_speed_increase_rate(0);
    obstacle.increase_speed();
    assert_eq!(obstacle.get_velocity(), Vector2 { x: -9_200, y: 0 });
    assert_eq!(obstacle.get_location(), Vector2 { x: 0, y: 0 });
}

#[test]
fn obstacle_speed_sticks_at_the_end_of_the_range() {
    let mut obstacle = Obstacle::new(0, 0, 50_000, 0);
    obstacle.set_speed_increase_rate(i64::MIN);
    obstacle.increase_speed();
    assert_eq!(obstacle.get_velocity(), Vector2 { x: i64::MIN, y: 0 });
    obstacle.increase_speed();
    assert_eq!(obstacle.get_velocity(), Vector2 { x: i64::MIN, y: 0 });
    obstacle.run();
    assert_eq!(obstacle.get_location(), Vector2 { x: i64::MIN, y: 0 });
}

#[test]
fn obstacle_set_location_moves_only_the_location() {
    let mut obstacle = Obstacle::new(1_850_000, 950_000, 50_000, 0);
    obstacle.set_location(7, 8);
    assert_eq!(obstacle.get_location(), Vector2 { x: 7, y: 8 });
    assert_eq!(obstacle.get_initial_location(), Vector2 { x: 1_850_000, y: 950_000 });
    assert_eq!(obstacle.get_velocity(), Vector2 { x: -8_000, y: 0 });
}

#[test]
fn obstacle_bounds_are_its_location_and_size() {
    let obstacle = Obstacle::new(1_850_000, 950_000, 50_000, 0);
    let b = obstacle.bounds();
    assert_eq!((b.x, b.y, b.width, b.height), (1_850_000, 950_000, 50_000, 50_000));
}

#[test]
fn player_and_obstacle_agree_on_a_hit() {
    let mut player = Player::new();
    player.set_location(50_000, 872_000);
    let mut obstacle = Obstacle::new(0, 950_000, 50_000, 0);
    let xs = [178_000, 177_999, 100_000, 50_000, 1, 0, -1, -50_000, 300_000];
    let expected = [false, true, true, true, true, false, false, false, false];
    for k in 0..xs.len() {
        obstacle.set_location(xs[k], 950_000);
        assert_eq!(player.is_hitting_obstacle(&obstacle), expected[k]);
        assert_eq!(obstacle.is_hitting_player(&player), expected[k]);
    }
}

#[test]
fn a_player_above_the_obstacle_is_not_hit() {
    let mut player = Player::new();
    player.set_location(50_000, 822_000);
    let obstacle = Obstacle::new(100_000, 950_000, 50_000, 0);
    assert!(!player.is_hitting_obstacle(&obstacle));
    assert!(!obstacle.is_hitting_player(&player));
    player.set_location(50_000, 822_001);
    assert!(player.is_hitting_obstacle(&obstacle));
    assert!(obstacle.is_hitting_player(&player));
}
